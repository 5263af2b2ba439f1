use windows_record::processing::audio::calculate_audio_buffer_size;
use windows_record::processing::audio_mixer::{
    duration_fits, has_room_alone, AudioMixer, MixerStats,
};
use windows_record::processing::mixed_sample::{mix_buffers, MixerOutput};
use windows_record::processing::pcm::{
    mix_pair, mix_pcm_audio, read_sample, reduce_volume, write_sample,
};
use windows_record::processing::sync_mixer;
use windows_record::types::{MediaBuffer, MediaSample, SendableSample};

fn pcm(values: &[i16]) -> Vec<u8> {
    let mut bytes = Vec::new();
    for v in values {
        bytes.extend_from_slice(&v.to_le_bytes());
    }
    bytes
}

fn media(id: u64, time: i64, duration: i64, values: &[i16]) -> MediaSample {
    MediaSample {
        id,
        time: Ok(time),
        duration: Ok(duration),
        buffer: Ok(MediaBuffer { contents: Ok(pcm(values)) }),
    }
}

fn sendable(id: u64, time: i64) -> SendableSample {
    SendableSample::new(media(id, time, 10, &[id as i16]))
}

#[test]
fn samples_are_little_endian() {
    let mut bytes = vec![0x34, 0x12, 0xff, 0xff, 9];
    assert_eq!(read_sample(&bytes, 0), 0x1234);
    assert_eq!(read_sample(&bytes, 1), -1);
    write_sample(&mut bytes, 1, i16::MIN);
    assert_eq!(bytes, vec![0x34, 0x12, 0x00, 0x80, 9]);
}

#[test]
fn mixing_averages_like_single_precision() {
    assert_eq!(mix_pair(3, 4), 3);
    assert_eq!(mix_pair(-3, -4), -3);
    assert_eq!(mix_pair(i16::MIN, i16::MIN), i16::MIN);
    let steps = [i16::MIN, -32767, -20001, -3, -2, -1, 0, 1, 2, 3, 19999, 32766, i16::MAX];
    for a in steps {
        for b in i16::MIN..=i16::MAX {
            let wide = (a as f32 * 0.5 + b as f32 * 0.5) as i32;
            let expected = wide.clamp(i16::MIN as i32, i16::MAX as i32) as i16;
            assert_eq!(mix_pair(a, b), expected);
            assert_eq!(mix_pair(b, a), expected);
        }
    }
}

#[test]
fn lone_samples_are_reduced_like_single_precision() {
    assert_eq!(reduce_volume(10), 8);
    assert_eq!(reduce_volume(-10), -8);
    for a in i16::MIN..=i16::MAX {
        assert_eq!(reduce_volume(a), (a as f32 * 0.8) as i16);
    }
}

#[test]
fn the_mix_is_as_long_as_the_system_audio() {
    let sys = pcm(&[100, -100, 1000, 50]);
    let mic = pcm(&[200, -300]);
    let mut output = vec![0; 8];
    mix_pcm_audio(&sys, &mic, &mut output);
    assert_eq!(output, pcm(&[150, -200, 800, 40]));
    let mut longer = vec![7; 10];
    mix_pcm_audio(&pcm(&[2]), &pcm(&[4, 6, 8]), &mut longer);
    assert_eq!(longer, vec![3, 0, 7, 7, 7, 7, 7, 7, 7, 7]);
}

#[test]
fn unreadable_buffers_are_reported_in_order() {
    let good = media(1, 0, 0, &[1]);
    let no_buffer = MediaSample { id: 2, time: Ok(0), duration: Ok(0), buffer: Err(-20) };
    let locked = MediaSample {
        id: 3,
        time: Ok(0),
        duration: Ok(0),
        buffer: Ok(MediaBuffer { contents: Err(-30) }),
    };
    assert_eq!(mix_buffers(&no_buffer, &locked), Err(-20));
    assert_eq!(mix_buffers(&locked, &no_buffer), Err(-20));
    assert_eq!(mix_buffers(&locked, &good), Err(-30));
    assert_eq!(mix_buffers(&good, &locked), Err(-30));
    assert_eq!(mix_buffers(&good, &good), Ok(pcm(&[1])));
}

#[test]
fn synchronous_mixer_pairs_matching_samples() {
    let mut mixer = sync_mixer::AudioMixer::new(44100, 16, 2);
    assert!(mixer.process_next_sample().is_none());
    mixer.add_system_audio(SendableSample::new(media(1, 1000, 20, &[10, 20])));
    mixer.add_microphone_audio(SendableSample::new(media(2, 3000, 41, &[30, 40])));
    match mixer.process_next_sample() {
        Some(Ok(MixerOutput::Mixed(mixed))) => {
            assert_eq!(mixed.time, 2000);
            assert_eq!(mixed.duration, 30);
            assert_eq!(mixed.data, pcm(&[20, 30]));
        }
        _ => panic!("no mixed sample"),
    }
    assert_eq!(mixer.system_audio_queue.len(), 0);
    assert_eq!(mixer.microphone_queue.len(), 0);
}

#[test]
fn synchronous_mixer_passes_lone_samples_through() {
    let mut mixer = sync_mixer::AudioMixer::new(44100, 16, 2);
    mixer.add_system_audio(sendable(1, 0));
    match mixer.process_next_sample() {
        Some(Ok(MixerOutput::PassedThrough(sample))) => assert_eq!(sample.id, 1),
        _ => panic!("nothing passed through"),
    }
    mixer.add_microphone_audio(sendable(2, 0));
    match mixer.process_next_sample() {
        Some(Ok(MixerOutput::PassedThrough(sample))) => assert_eq!(sample.id, 2),
        _ => panic!("nothing passed through"),
    }
}

#[test]
fn synchronous_mixer_skips_to_a_later_partner() {
    let mut mixer = sync_mixer::AudioMixer::new(44100, 16, 2);
    mixer.add_system_audio(sendable(1, 100_000_000));
    mixer.add_microphone_audio(sendable(2, 0));
    mixer.add_microphone_audio(sendable(3, 50_000_000));
    mixer.add_microphone_audio(sendable(4, 95_000_000));
    mixer.add_microphone_audio(sendable(5, 99_000_000));
    match mixer.find_matching_samples() {
        Some(Ok((sys, mic))) => {
            assert_eq!(sys.sample.id, 1);
            assert_eq!(mic.sample.id, 4);
        }
        _ => panic!("no pair"),
    }
    assert_eq!(mixer.microphone_queue.len(), 1);
    assert_eq!(mixer.microphone_queue[0].sample.id, 5);
}

#[test]
fn synchronous_mixer_gives_up_after_twenty() {
    let mut mixer = sync_mixer::AudioMixer::new(44100, 16, 2);
    mixer.add_microphone_audio(sendable(100, 0));
    for n in 0..21 {
        mixer.add_system_audio(sendable(n, 100_000_000 + n as i64));
    }
    assert!(mixer.find_matching_samples().is_none());
    assert_eq!(mixer.system_audio_queue.len(), 20);
    assert!(mixer.find_matching_samples().is_none());
    assert_eq!(mixer.system_audio_queue.len(), 20);
}

#[test]
fn synchronous_mixer_discards_stale_samples() {
    let mut mixer = sync_mixer::AudioMixer::new(44100, 16, 2);
    mixer.add_system_audio(sendable(1, 0));
    mixer.add_system_audio(sendable(2, 600_000_000));
    mixer.add_microphone_audio(sendable(3, 99_999_999));
    mixer.add_microphone_audio(sendable(4, 100_000_000));
    mixer.discard_stale_samples();
    assert_eq!(mixer.system_audio_queue.len(), 1);
    assert_eq!(mixer.microphone_queue.len(), 1);
    assert_eq!(mixer.microphone_queue[0].sample.id, 4);
}

#[test]
fn synchronous_mixer_reports_unreadable_times() {
    let mut mixer = sync_mixer::AudioMixer::new(44100, 16, 2);
    let broken = MediaSample { id: 1, time: Err(-4), duration: Ok(0), buffer: Err(0) };
    assert_eq!(mixer.get_sample_timestamp(&broken), Err(-4));
    mixer.add_system_audio(SendableSample::new(broken));
    mixer.add_microphone_audio(sendable(2, 0));
    match mixer.process_next_sample() {
        Some(Err(code)) => assert_eq!(code, -4),
        _ => panic!("no error"),
    }
    assert_eq!(mixer.system_audio_queue.len(), 1);
}

#[test]
fn mixer_takes_the_closest_pair() {
    let mut stats = MixerStats::new();
    let mut mixer = AudioMixer::new(44100, 16, 2);
    mixer.add_system_audio(&mut stats, sendable(1, 0));
    mixer.add_system_audio(&mut stats, sendable(2, 100_000));
    mixer.add_microphone_audio(&mut stats, sendable(3, 260_000));
    mixer.add_microphone_audio(&mut stats, sendable(4, 102_000));
    assert_eq!(mixer.find_best_sample_match(&mut stats), Some((1, 1)));
    assert_eq!(stats.timestamp_drift, 0);
    match mixer.process_next_sample(&mut stats) {
        Some(Ok(MixerOutput::Mixed(mixed))) => {
            assert_eq!(mixed.time, 100_000);
            assert_eq!(mixed.duration, 10);
            assert_eq!(mixed.data, pcm(&[3]));
        }
        _ => panic!("no mixed sample"),
    }
    assert_eq!(stats.good_match_count, 1);
    assert_eq!(stats.total_processed_duration, 10);
    assert_eq!(stats.system_total_duration, 20);
    assert_eq!(stats.last_mic_time, 102_000);
    assert_eq!(mixer.system_audio_queue.len(), 1);
    assert_eq!(mixer.microphone_queue[0].0.id, 3);
}

#[test]
fn mixer_stops_at_the_first_very_close_pair() {
    let mut stats = MixerStats::new();
    let mut mixer = AudioMixer::new(44100, 16, 2);
    mixer.add_system_audio(&mut stats, sendable(1, 0));
    mixer.add_microphone_audio(&mut stats, sendable(2, 999));
    mixer.add_microphone_audio(&mut stats, sendable(3, 0));
    assert_eq!(mixer.find_best_sample_match(&mut stats), Some((0, 0)));
}

#[test]
fn mixer_mixes_the_pair_that_matches() {
    let mut stats = MixerStats::new();
    let mut mixer = AudioMixer::new(44100, 16, 2);
    let sound = |id, time| SendableSample::new(media(id, time, 100_000, &[4, 8]));
    mixer.add_system_audio(&mut stats, sound(1, 0));
    mixer.add_system_audio(&mut stats, sound(2, 1_000_000));
    mixer.add_microphone_audio(&mut stats, sound(3, 1_000_000));
    assert_eq!(mixer.find_best_sample_match(&mut stats), Some((1, 0)));
    match mixer.process_next_sample(&mut stats) {
        Some(Ok(MixerOutput::Mixed(mixed))) => assert_eq!(mixed.time, 1_000_000),
        _ => panic!("no mixed sample"),
    }
    assert_eq!(mixer.system_audio_queue.len(), 1);
    assert_eq!(mixer.system_audio_queue[0].0.id, 1);
    assert_eq!(mixer.microphone_queue.len(), 0);
}

#[test]
fn mixer_takes_twenty_milliseconds_for_a_match() {
    let mixer = AudioMixer::new(44100, 16, 2);
    assert_eq!((mixer.max_buffer_size, mixer.max_time_diff_ns), (10, 200_000));
    for (time, expected) in [(200_000, Some((0, 0))), (200_001, None), (-200_001, None)] {
        let mut stats = MixerStats::new();
        let mut mixer = AudioMixer::new(44100, 16, 2);
        mixer.add_system_audio(&mut stats, sendable(1, 0));
        mixer.add_microphone_audio(&mut stats, sendable(2, time));
        assert_eq!(mixer.find_best_sample_match(&mut stats), expected);
    }
}

#[test]
fn mixer_falls_back_to_the_oldest_pair() {
    let mut stats = MixerStats::new();
    let mut mixer = AudioMixer::new(44100, 16, 2);
    assert!(mixer.process_next_sample(&mut stats).is_none());
    assert_eq!(stats.call_count, 0);
    mixer.add_system_audio(&mut stats, sendable(1, 0));
    assert!(mixer.process_next_sample(&mut stats).is_none());
    mixer.add_microphone_audio(&mut stats, sendable(2, 400_000));
    assert_eq!(mixer.find_best_sample_match(&mut stats), None);
    assert_eq!(stats.timestamp_drift, -400_000);
    assert!(matches!(mixer.process_next_sample(&mut stats), Some(Ok(_))));
    assert_eq!(stats.no_match_count, 1);
    assert_eq!(stats.call_count, 1);
}

#[test]
fn mixer_keeps_ten_samples_of_each_source() {
    let mut stats = MixerStats::new();
    let mut mixer = AudioMixer::new(44100, 16, 2);
    for n in 0..12 {
        mixer.add_system_audio(&mut stats, sendable(n, n as i64));
    }
    assert_eq!(mixer.system_audio_queue.len(), 10);
    assert_eq!(mixer.system_audio_queue[0].0.id, 2);
    mixer.set_buffer_params(3, 7);
    mixer.add_microphone_audio(&mut stats, sendable(50, 0));
    assert_eq!(mixer.system_audio_queue.len(), 3);
    assert_eq!(mixer.system_audio_queue[0].0.id, 9);
    assert_eq!(mixer.max_time_diff_ns, 7);
}

#[test]
fn mixer_reports_what_it_counted() {
    let mut stats = MixerStats::new();
    let mut mixer = AudioMixer::new(44100, 16, 2);
    mixer.add_system_audio(&mut stats, sendable(1, 500_000));
    mixer.add_microphone_audio(&mut stats, sendable(2, 0));
    let _ = mixer.process_next_sample(&mut stats);
    mixer.add_system_audio(&mut stats, sendable(3, 600_000));
    let summary = mixer.flush_queues(&stats);
    assert_eq!(summary, (0, 0, 1, 0, 0, 1, 20, 10, 500_000, 600_000, 0));
    assert_eq!(mixer.system_audio_queue.len(), 0);
}

#[test]
fn mixer_reports_unreadable_samples_in_order() {
    let mixer = AudioMixer::new(44100, 16, 2);
    let good = media(1, 0, 0, &[1]);
    let broken = MediaSample { id: 2, time: Err(-1), duration: Err(-2), buffer: Err(-3) };
    let untimed = MediaSample { id: 2, time: Ok(0), duration: Err(-2), buffer: Err(-3) };
    assert_eq!(mixer.mix_samples(&broken, &good).err(), Some(-1));
    assert_eq!(mixer.mix_samples(&untimed, &broken).err(), Some(-2));
    assert_eq!(mixer.mix_samples(&good, &broken).err(), Some(-1));
    assert_eq!(mixer.mix_samples(&good, &untimed).err(), Some(-2));
}

#[test]
fn audio_buffer_sizes() {
    assert_eq!(calculate_audio_buffer_size(441, 2, 16), 1764);
    assert_eq!(calculate_audio_buffer_size(1, 1, 7), 0);
}

#[test]
fn mixer_tells_when_totals_are_full() {
    let long = media(1, 0, 10, &[1]);
    assert!(duration_fits(i64::MAX - 10, &long));
    assert!(!duration_fits(i64::MAX - 9, &long));
    let unknown = MediaSample { id: 2, time: Ok(0), duration: Err(-1), buffer: Err(-1) };
    assert!(duration_fits(i64::MAX, &unknown));

    let mut mixer = AudioMixer::new(44100, 16, 2);
    let mut stats = MixerStats::new();
    assert!(mixer.has_room(&stats));
    mixer.add_system_audio(&mut stats, sendable(3, 0));
    mixer.add_microphone_audio(&mut stats, sendable(4, 0));
    assert!(mixer.has_room(&stats));
    stats.total_processed_duration = i64::MAX;
    assert!(!mixer.has_room(&stats));
    mixer.add_system_audio(&mut stats, SendableSample::new(media(5, 9_000, 0, &[1])));
    mixer.add_microphone_audio(&mut stats, SendableSample::new(media(6, 9_000, 0, &[1])));
    assert!(!mixer.has_room(&stats));
    stats.total_processed_duration = i64::MAX - 10;
    assert!(mixer.has_room(&stats));
    let mut counted = MixerStats::new();
    counted.call_count = u32::MAX;
    assert!(!counted.is_consistent());
    counted.no_match_count = u32::MAX as usize;
    assert!(counted.is_consistent());
    assert!(!mixer.has_room(&counted));
}

#[test]
fn mixer_passes_a_lone_source_through() {
    let mut stats = MixerStats::new();
    let mut mixer = AudioMixer::new(44100, 16, 2);
    mixer.add_system_audio(&mut stats, sendable(1, 100));
    mixer.add_system_audio(&mut stats, sendable(2, 300));
    assert!(mixer.process_next_sample(&mut stats).is_none());
    mixer.set_both_sources_active(false);
    assert!(has_room_alone(&stats, &media(1, 100, 10, &[1])));
    match mixer.process_next_sample(&mut stats) {
        Some(Ok(MixerOutput::PassedThrough(sample))) => assert_eq!(sample.id, 1),
        _ => panic!("no sample"),
    }
    assert_eq!((stats.sys_only_count, stats.mic_only_count, stats.call_count), (1, 0, 1));
    assert_eq!((stats.min_timestamp, stats.max_timestamp), (100, 110));
    let _ = mixer.process_next_sample(&mut stats);
    assert_eq!(stats.real_timeline_duration, 210);
    assert_eq!(stats.total_processed_duration, 20);
    mixer.add_microphone_audio(&mut stats, sendable(3, 50));
    match mixer.process_next_sample(&mut stats) {
        Some(Ok(MixerOutput::PassedThrough(sample))) => assert_eq!(sample.id, 3),
        _ => panic!("no sample"),
    }
    assert_eq!(stats.mic_only_count, 1);
    assert_eq!((stats.min_timestamp, stats.real_timeline_duration), (50, 210));
    assert!(mixer.process_next_sample(&mut stats).is_none());
    assert!(!has_room_alone(&stats, &media(4, i64::MAX, 1, &[1])));
}
