use std::sync::Arc;
use windows_record::error::{RecorderError, WindowsError, E_FAIL};
use windows_record::types::geometry::to_signed;
use windows_record::types::{
    duration_to_hns, hns_to_duration, AudioConfig, Duration, MediaBuffer, MediaSample, Point, Rect,
    ReplayBuffer, SamplePool, SendableSample, TexturePool, VideoConfig,
};

fn sample(id: u64, time: i64) -> MediaSample {
    MediaSample {
        id,
        time: Ok(time),
        duration: Ok(100),
        buffer: Ok(MediaBuffer { contents: Ok(vec![]) }),
    }
}

fn sendable(id: u64, time: i64) -> SendableSample {
    SendableSample::new(sample(id, time))
}

fn ids(samples: &Vec<(SendableSample, i64)>) -> Vec<u64> {
    samples.iter().map(|s| s.0.sample.id).collect()
}

#[test]
fn spans_of_time() {
    assert_eq!(Duration::from_secs(2).as_nanos(), 2_000_000_000);
    assert_eq!(Duration::from_millis(16).as_nanos(), 16_000_000);
    assert_eq!(Duration::from_millis(2999).as_secs(), 2);
    let early = Duration::from_secs(1);
    let late = Duration::from_secs(3);
    assert_eq!(late.duration_since(early), Duration::from_secs(2));
    assert_eq!(early.duration_since(late), Duration::from_secs(0));
    assert_eq!(early.plus(late), Duration::from_secs(4));
    assert_eq!(late.minus(early), Duration::from_secs(2));
    assert_eq!(Duration::from_total_nanos(1 << 70).as_nanos(), 1 << 70);
}

#[test]
fn units_of_media_time() {
    assert_eq!(duration_to_hns(Duration::from_secs(1)), 10_000_000);
    assert_eq!(duration_to_hns(Duration::from_nanos(199)), 1);
    assert_eq!(hns_to_duration(10_000_000), Duration::from_secs(1));
    assert_eq!(hns_to_duration(-1).as_nanos(), u64::MAX as u128 - 99);
    assert_eq!(duration_to_hns(hns_to_duration(123_456)), 123_456);
}

#[test]
fn stream_settings() {
    let video = VideoConfig::new(1920, 1080, 60, 1);
    assert_eq!(video.frame_duration().as_nanos(), 16_666_666);
    assert_eq!(VideoConfig::new(1, 1, 30000, 1001).frame_duration().as_nanos(), 33_366_666);
    let audio = AudioConfig::new(2, 44100, 16);
    assert_eq!(audio.bytes_per_sample(), 4);
    assert_eq!(audio.bytes_per_second(), 176_400);
}

#[test]
fn rectangles() {
    let rect = Rect { left: -10, top: 0, right: 11, bottom: 5 };
    assert_eq!(rect.size(), (21, 5));
    assert_eq!(rect.center(), Point { x: 0, y: 2 });
    assert_eq!(Rect { left: -3, top: -4, right: 0, bottom: 1 }.center(), Point { x: -1, y: -1 });
    assert!(rect.contains(Point { x: -10, y: 0 }));
    assert!(!rect.contains(Point { x: 11, y: 0 }));
    assert!(!rect.contains(Point { x: 0, y: 5 }));
    assert_eq!(Rect { left: 1, top: 0, right: 0, bottom: 0 }.size(), (u32::MAX, 0));
    assert_eq!(
        Rect { left: i32::MAX, top: 0, right: i32::MAX, bottom: 2 }.center(),
        Point { x: i32::MAX, y: 1 }
    );
    assert_eq!(to_signed(u32::MAX), -1);
    assert_eq!(to_signed(7), 7);
}

#[test]
fn shared_samples_leave_the_pool_alone() {
    let pooled = SendableSample::new_pooled(sample(1, 0), 9);
    assert_eq!(pooled.pool, Some(9));
    let shared = pooled.share();
    assert_eq!(shared.pool, None);
    assert!(Arc::ptr_eq(&shared.sample, &pooled.sample));
    assert_eq!(pooled.release_target(1, false), Some(9));
    assert_eq!(pooled.release_target(2, false), None);
    assert_eq!(pooled.release_target(1, true), None);
    assert_eq!(shared.release_target(1, false), None);
}

#[test]
fn sample_pool_hands_out_the_last_sample_first() {
    let mut pool: SamplePool<u32> = SamplePool::new(60, 10);
    assert_eq!(pool.acquire_sample(|| Ok(7)), Ok(7));
    assert_eq!(pool.acquire_sample(|| Err(-5)), Err(-5));
    assert_eq!(pool.release_sample(1, Ok(())), Ok(()));
    assert_eq!(pool.release_sample(2, Ok(())), Ok(()));
    assert_eq!(pool.release_sample(3, Err(-1)), Err(-1));
    assert_eq!(pool.acquire_sample(|| panic!("created")), Ok(2));
    assert_eq!(pool.acquire_sample(|| panic!("created")), Ok(1));
    assert_eq!(pool.acquire_sample(|| Ok(7)), Ok(7));
}

#[test]
fn sample_times_follow_the_frame_rate() {
    let pool: SamplePool<u32> = SamplePool::new(60, 1);
    assert_eq!(pool.set_sample_time(0), 0);
    assert_eq!(pool.set_sample_time(1), 166_666);
    assert_eq!(pool.set_sample_time(60), 10_000_000);
    assert_eq!(pool.set_sample_time(u64::MAX), -166_666);
    assert_eq!(pool.sample_duration(), 166_666);
}

#[test]
fn texture_pool_is_filled_at_once() {
    let pool = TexturePool::new(
        |desc| {
            assert_eq!(desc.width, 4);
            assert_eq!(desc.height, 3);
            assert_eq!(desc.mip_levels, 1);
            assert_eq!(desc.sample_count, 1);
            assert_eq!(desc.misc_flags, 0x200);
            Ok(desc.format)
        },
        3,
        4,
        3,
        87,
        0,
        40,
        0,
        0x200,
    );
    let mut pool = match pool {
        Ok(pool) => pool,
        Err(_) => panic!("the pool was not made"),
    };
    assert_eq!(pool.capacity(), 3);
    for _ in 0..3 {
        assert_eq!(pool.acquire_texture(|_| Err(-1)), Ok(87));
    }
    assert_eq!(pool.acquire_texture(|_| Err(-1)), Err(-1));
    pool.release_texture(5);
    assert_eq!(pool.acquire_texture(|_| panic!("created")), Ok(5));
    assert!(TexturePool::<u32>::new(|_| Err(-9), 1, 4, 3, 87, 0, 40, 0, 0).is_err());
    assert!(TexturePool::<u32>::new(|_| Err(-9), 0, 4, 3, 87, 0, 40, 0, 0).is_ok());
}

#[test]
fn replay_buffer_keeps_the_last_stretch() {
    let mut buffer = ReplayBuffer::new(Duration::from_secs(1), 4, 4);
    assert_eq!(buffer.current_duration(), Duration::from_secs(0));
    for n in 0..5u64 {
        let time = n as i64 * 4_000_000;
        assert!(buffer.add_video_sample(sendable(n, time), time).is_ok());
    }
    let kept = buffer.get_video_samples(i64::MIN, i64::MAX);
    assert_eq!(ids(&kept), vec![2, 3, 4]);
    assert_eq!(buffer.oldest_timestamp, 8_000_000);
    assert!(buffer.has_duration());
    assert_eq!(buffer.current_duration(), Duration::from_millis(800));
    assert_eq!(ids(&buffer.get_video_samples(12_000_000, 16_000_000)), vec![3, 4]);
    assert_eq!(ids(&buffer.get_video_samples(9_000_000, 11_000_000)), Vec::<u64>::new());
    buffer.clear();
    assert!(buffer.get_video_samples(i64::MIN, i64::MAX).is_empty());
}

#[test]
fn newest_sample_is_read_back() {
    let mut buffer = ReplayBuffer::new(Duration::from_secs(1), 2, 2);
    for n in 0..4u64 {
        let time = n as i64 * 9_000_000;
        assert!(buffer.add_audio_sample(sendable(n, time), time).is_ok());
        let read = buffer.get_audio_samples(time, time);
        assert_eq!(ids(&read), vec![n]);
        assert_eq!(read[0].1, time);
    }
}

#[test]
fn oldest_time_is_that_of_the_older_queue() {
    let mut buffer = ReplayBuffer::new(Duration::from_secs(10), 1, 1);
    assert!(buffer.add_audio_sample(sendable(1, 500), 500).is_ok());
    assert_eq!(buffer.oldest_timestamp, 500);
    assert!(buffer.add_video_sample(sendable(2, 700), 700).is_ok());
    assert_eq!(buffer.oldest_timestamp, 500);
    assert!(buffer.add_video_sample(sendable(3, 900), 900).is_ok());
    assert_eq!(buffer.current_duration().as_nanos(), 40_000);
    assert_eq!(ids(&buffer.get_audio_samples(0, 1000)), vec![1]);
}

#[test]
fn pooled_samples_come_out_of_the_buffer_unpooled() {
    let mut buffer = ReplayBuffer::new(Duration::from_secs(10), 1, 1);
    let pooled = SendableSample::new_pooled(sample(4, 10), 3);
    assert!(buffer.add_video_sample(pooled, 10).is_ok());
    assert_eq!(buffer.get_video_samples(0, 20)[0].0.pool, None);
}

#[test]
fn errors_read_well() {
    let error = WindowsError::new(-2147467259, "Unspecified error".to_string());
    assert_eq!(error.to_text(), "Unspecified error (0x80004005)");
    assert_eq!(WindowsError::new(0x1A, String::new()).to_text(), "0x0000001A");
    assert_eq!(
        RecorderError::Windows(error).to_text(),
        "Windows API error: Unspecified error (0x80004005)"
    );
    assert_eq!(RecorderError::Generic("x".to_string()).to_text(), "Generic Error: x");
    assert_eq!(
        RecorderError::FailedToStart("y".to_string()).to_text(),
        "Failed to Start the Recording Process, reason: y"
    );
    assert_eq!(RecorderError::FailedToStop.to_text(), "Failed to Stop the Recording Process");
    assert_eq!(
        RecorderError::NoRecorderBound.to_text(),
        "Called to Stop when there is no Recorder Configured"
    );
    assert_eq!(
        RecorderError::RecorderAlreadyStopped.to_text(),
        "Called to Stop when the Recorder is Already Stopped"
    );
    assert_eq!(
        RecorderError::NoProcessSpecified.to_text(),
        "No Process Specified for the Recorder"
    );
}

#[test]
fn recorder_errors_become_system_errors() {
    let error = WindowsError::from(RecorderError::FailedToStop);
    assert_eq!(error.code, E_FAIL);
    assert_eq!(error.message, "Failed to Stop the Recording Process");
    let same = WindowsError::from(RecorderError::Windows(WindowsError::new(3, "m".to_string())));
    assert_eq!(same.code, 3);
    assert_eq!(same.message, "m");
}
