use std::cell::RefCell;
use windows_record::capture::window::{WindowCandidate, WindowHandle};
use windows_record::device::video::{VideoEncoder, VideoEncoderType};
use windows_record::error::{RecorderError, WindowsError, E_FAIL};
use windows_record::recorder::config::{AudioSource, RecorderConfig, Volume};
use windows_record::recorder::graphics::{
    create_d3d11_device_for_window, create_on_first, MonitorOutput,
};
use windows_record::recorder::inner::{
    join_threads, microphone_outcome, select_encoder, RecorderInner, RecorderThread, ThreadEnd,
};
use windows_record::recorder::replay::{is_savable, save_replay};
use windows_record::recorder::startup::{
    StartAction, StartFailure, StartPhase, StartReply, StartRequest, StartRun,
};
use windows_record::recorder::Recorder;
use windows_record::types::{
    Duration, Guid, MediaSample, Rect, ReplayBuffer, SendableSample,
};

#[test]
fn default_settings() {
    let config = Recorder::<u32>::builder().build();
    assert_eq!((config.fps_num(), config.fps_den()), (60, 1));
    assert_eq!((config.input_width(), config.input_height()), (1920, 1080));
    assert_eq!((config.output_width(), config.output_height()), (1920, 1080));
    assert_eq!(config.video_bitrate(), 5_000_000);
    assert!(config.capture_audio());
    assert!(!config.capture_microphone());
    assert!(config.capture_cursor());
    assert_eq!(config.output_path(), ".");
    assert!(!config.debug_mode());
    assert_eq!(config.microphone_volume(), None);
    assert_eq!(config.system_volume(), None);
    assert_eq!(config.encoder(), None);
    assert_eq!(*config.video_encoder(), VideoEncoderType::H264);
    assert_eq!(*config.video_encoder_name(), None);
    assert_eq!(*config.microphone_device(), None);
    assert_eq!(*config.audio_source(), AudioSource::ActiveWindow);
    assert_eq!(AudioSource::default(), AudioSource::Desktop);
    assert!(!config.enable_replay_buffer());
    assert_eq!(config.replay_buffer_seconds(), 30);
}

#[test]
fn settings_are_built_step_by_step() {
    let loud = Volume { bits: 0x3f4ccccd };
    let config = RecorderConfig::builder()
        .fps(30, 1001)
        .input_dimensions(1, 2)
        .output_dimensions(3, 4)
        .video_bitrate(8_000_000)
        .video_encoder(VideoEncoderType::HEVC)
        .video_encoder_name("Fast")
        .encoder(Some(Guid { value: 5 }))
        .capture_audio(false)
        .capture_microphone(true)
        .capture_cursor(false)
        .audio_source(AudioSource::Desktop)
        .system_volume(Some(loud))
        .microphone_volume(Some(loud))
        .microphone_device(Some("Mic"))
        .output_path("recordings/gameplay.mp4")
        .debug_mode(true)
        .enable_replay_buffer(true)
        .replay_buffer_seconds(60)
        .build();
    assert_eq!((config.fps_num(), config.fps_den()), (30, 1001));
    assert_eq!((config.input_width(), config.input_height()), (1, 2));
    assert_eq!((config.output_width(), config.output_height()), (3, 4));
    assert_eq!(config.video_bitrate(), 8_000_000);
    assert_eq!(*config.video_encoder(), VideoEncoderType::HEVC);
    assert_eq!(*config.video_encoder_name(), Some("Fast".to_string()));
    assert_eq!(config.encoder(), Some(Guid { value: 5 }));
    assert!(!config.capture_audio());
    assert!(config.capture_microphone());
    assert!(!config.capture_cursor());
    assert_eq!(*config.audio_source(), AudioSource::Desktop);
    assert_eq!(config.system_volume(), Some(loud));
    assert_eq!(config.microphone_volume(), Some(loud));
    assert_eq!(*config.microphone_device(), Some("Mic".to_string()));
    assert_eq!(config.output_path(), "recordings/gameplay.mp4");
    assert!(config.debug_mode());
    assert!(config.enable_replay_buffer());
    assert_eq!(config.replay_buffer_seconds(), 60);
}

fn outside(rec: &Recorder<u32>) -> Option<u32> {
    rec.rec_inner.as_ref().map(|recording| recording.outside)
}

fn recorder(config: RecorderConfig) -> Recorder<u32> {
    match Recorder::new(config) {
        Ok(recorder) => recorder,
        Err(_) => panic!("not made"),
    }
}

#[test]
fn recordings_need_a_window_name() {
    let mut rec = recorder(RecorderConfig::default());
    let result = rec.start_recording(|_, _, _| panic!("not to be called"));
    assert!(matches!(result, Err(RecorderError::NoProcessSpecified)));
    let mut rec = rec.with_process_name("Game").with_exact_match(true);
    let result = rec.start_recording(|config, name, exact| {
        assert_eq!(config.fps_num(), 60);
        assert_eq!(name, "Game");
        assert!(exact);
        Ok(7)
    });
    assert!(result.is_ok());
    assert_eq!(outside(&rec), Some(7));
    let result = rec.start_recording(|_, _, _| Err(WindowsError::new(E_FAIL, "no".to_string())));
    match result {
        Err(RecorderError::FailedToStart(reason)) => assert_eq!(reason, "no (0x80004005)"),
        _ => panic!("no error"),
    }
    assert_eq!(outside(&rec), Some(7));
}

fn well() -> ThreadEnd {
    ThreadEnd::Returned(Ok(()))
}

#[test]
fn only_started_recordings_can_be_stopped() {
    let mut rec = recorder(RecorderConfig::default()).with_process_name("Game");
    let stop = |rec: &mut Recorder<u32>| rec.stop_recording(|_| true, |_, _| well());
    assert!(matches!(stop(&mut rec), Err(RecorderError::NoRecorderBound)));
    let failed = rec.start_recording(|_, _, _| Err(WindowsError::new(E_FAIL, String::new())));
    assert!(failed.is_err());
    assert!(matches!(stop(&mut rec), Err(RecorderError::NoRecorderBound)));
    assert!(rec.start_recording(|_, _, _| Ok(3)).is_ok());
    let joined = RefCell::new(Vec::new());
    let result = rec.stop_recording(
        |inner| *inner == 3,
        |inner, thread| {
            joined.borrow_mut().push((*inner, thread));
            well()
        },
    );
    assert!(result.is_ok());
    assert_eq!(
        joined.into_inner(),
        vec![
            (3, RecorderThread::Frame),
            (3, RecorderThread::Audio),
            (3, RecorderThread::Process)
        ]
    );
    for _ in 0..2 {
        let result = rec.stop_recording(|_| panic!("halted"), |_, _| panic!("joined"));
        assert!(matches!(result, Err(RecorderError::RecorderAlreadyStopped)));
    }
    assert!(rec.start_recording(|_, _, _| Ok(4)).is_ok());
    assert!(stop(&mut rec).is_ok());
    assert!(matches!(stop(&mut rec), Err(RecorderError::RecorderAlreadyStopped)));
    assert_eq!(rec.config().video_bitrate(), 5_000_000);
}

#[test]
fn recordings_that_ended_by_themselves_are_not_stopped() {
    let mut rec = recorder(RecorderConfig::default()).with_process_name("Game");
    assert!(rec.start_recording(|_, _, _| Ok(3)).is_ok());
    let result = rec.stop_recording(|_| false, |_, _| panic!("joined"));
    assert!(matches!(result, Err(RecorderError::RecorderAlreadyStopped)));
}

#[test]
fn replays_need_the_replay_buffer() {
    let rec = recorder(RecorderConfig::default());
    match rec.save_replay("a.mp4", |_, _| Ok(())) {
        Err(RecorderError::Generic(reason)) => assert_eq!(reason, "Replay buffer is not enabled"),
        _ => panic!("no error"),
    }
    let config = RecorderConfig::builder().enable_replay_buffer(true).build();
    let mut rec = recorder(config).with_process_name("Game");
    let result = rec.save_replay("a.mp4", |_, _| panic!("not to be called"));
    assert!(matches!(result, Err(RecorderError::NoRecorderBound)));
    assert!(rec.start_recording(|_, _, _| Ok(3)).is_ok());
    let result = rec.save_replay("a.mp4", |inner, path| {
        assert_eq!(*inner, 3);
        assert_eq!(path, "a.mp4");
        Ok(())
    });
    assert!(result.is_ok());
}

#[test]
fn recordings_end_once() {
    let mut inner = RecorderInner::new(true, false);
    let lost = || ThreadEnd::Returned(Err(WindowsError::new(-9, String::new())));
    assert!(inner.stop(&(), |_| true, |_, _| lost()).is_ok());
    assert!(!inner.recording && !inner.has_video && !inner.has_process);
    let again = inner.stop(&(), |_| panic!("halted"), |_, _| panic!("joined"));
    assert!(matches!(again, Err(RecorderError::RecorderAlreadyStopped)));

    let mut inner = RecorderInner::new(false, true);
    let joined = RefCell::new(Vec::new());
    let result = inner.stop(
        &(),
        |_| true,
        |_, thread| {
            joined.borrow_mut().push(thread);
            match thread {
                RecorderThread::Microphone => ThreadEnd::Panicked,
                _ => well(),
            }
        },
    );
    match result {
        Err(RecorderError::Generic(reason)) => assert_eq!(reason, "Microphone Handle join failed"),
        _ => panic!("no reason"),
    }
    assert_eq!(joined.into_inner(), vec![RecorderThread::Frame, RecorderThread::Microphone]);
    assert!(!inner.recording);

    let mut inner = RecorderInner::new(true, true);
    inner.note_recording(false);
    assert!(!inner.recording && inner.has_microphone);
    assert!(join_threads(&vec![], &(), |_, _| panic!("joined")).is_ok());
}

#[test]
fn recordings_go_on_without_a_microphone() {
    let error = || Err(WindowsError::new(-2147023728, String::new()));
    assert!(microphone_outcome(error(), "Element not found.").is_ok());
    assert!(microphone_outcome(error(), "Access denied.").is_err());
    assert!(microphone_outcome(Ok(()), "").is_ok());
}

fn encoder(activate: u64, name: &str, encoder_type: VideoEncoderType) -> VideoEncoder {
    VideoEncoder { activate, name: name.to_string(), encoder_type }
}

#[test]
fn encoders_are_selected_by_name_and_else_by_kind() {
    let list = || {
        Ok(vec![
            encoder(1, "A", VideoEncoderType::H264),
            encoder(2, "B", VideoEncoderType::HEVC),
        ])
    };
    let pick = |name: Option<&str>, kind| {
        select_encoder(&name.map(|n| n.to_string()), kind, list).map(|e| e.activate).ok()
    };
    assert_eq!(pick(Some("B"), VideoEncoderType::H264), Some(2));
    assert_eq!(pick(Some("C"), VideoEncoderType::H264), Some(1));
    assert_eq!(pick(None, VideoEncoderType::HEVC), Some(2));
    match select_encoder(&Some("A".to_string()), VideoEncoderType::H264, || Err(-1)) {
        Err(RecorderError::Generic(reason)) => {
            assert_eq!(reason, "No video encoder found for type: H264")
        }
        _ => panic!("no error"),
    }
}

#[test]
fn devices_are_tried_in_order() {
    let output = |monitor, left| {
        Some(MonitorOutput {
            monitor,
            area: Rect { left, top: 0, right: left + 100, bottom: 100 },
        })
    };
    let adapters = vec![vec![output(1, 0)], vec![None, output(2, 100)], vec![output(3, 200)]];
    let window = Some(Rect { left: 110, top: 10, right: 130, bottom: 30 });
    assert_eq!(
        create_d3d11_device_for_window(9, window, &adapters),
        vec![Some(1), Some(0), None]
    );
    assert_eq!(
        create_d3d11_device_for_window(3, Some(Rect { left: 900, top: 0, right: 902, bottom: 2 }), &adapters),
        vec![Some(2), Some(0), Some(1), None]
    );
    assert_eq!(create_d3d11_device_for_window(9, None, &adapters), vec![Some(0), None]);
    let far = Some(Rect { left: 900, top: 0, right: 902, bottom: 2 });
    assert_eq!(
        create_d3d11_device_for_window(9, far, &adapters),
        vec![Some(0), Some(1), Some(2), None]
    );
    assert_eq!(create_d3d11_device_for_window(9, far, &vec![]), vec![None]);
}

#[test]
fn the_first_device_that_can_be_made_is_used() {
    let attempts = vec![Some(1), Some(0), Some(2), None];
    let tried = RefCell::new(Vec::new());
    let made = create_on_first(&attempts, |attempt| {
        tried.borrow_mut().push(attempt);
        match attempt {
            Some(0) => Ok("device"),
            _ => Err(WindowsError::new(-1, String::new())),
        }
    });
    assert!(matches!(made, Ok("device")));
    assert_eq!(tried.into_inner(), vec![Some(1), Some(0)]);
    let failed: Result<u32, WindowsError> = create_on_first(&attempts, |attempt| {
        Err(WindowsError::new(attempt.map_or(-9, |n| n as i32), String::new()))
    });
    assert_eq!(failed.err().map(|error| error.code), Some(-9));
}

#[test]
fn sound_keeps_its_volume_unless_it_is_changed() {
    let config = RecorderConfig::default();
    assert_eq!(f32::from_bits(config.system_gain().bits), 1.0);
    assert_eq!(f32::from_bits(config.microphone_gain().bits), 1.0);
    let config = RecorderConfig::builder()
        .system_volume(Some(Volume { bits: 0.8f32.to_bits() }))
        .microphone_volume(Some(Volume { bits: 0.7f32.to_bits() }))
        .build();
    assert_eq!(f32::from_bits(config.system_gain().bits), 0.8);
    assert_eq!(f32::from_bits(config.microphone_gain().bits), 0.7);
}

fn sendable(id: u64) -> SendableSample {
    SendableSample::new(MediaSample { id, time: Ok(0), duration: Ok(0), buffer: Err(0) })
}

fn buffer(video: &[i64], audio: &[i64]) -> ReplayBuffer {
    let mut buffer = ReplayBuffer::new(Duration::from_secs(60), 1, 1);
    for time in video {
        assert!(buffer.add_video_sample(sendable(*time as u64), *time).is_ok());
    }
    for time in audio {
        assert!(buffer.add_audio_sample(sendable(*time as u64), *time).is_ok());
    }
    buffer
}

#[test]
fn replays_start_with_the_first_picture() {
    let full = buffer(&[20_000_000, 25_000_000], &[15_000_000, 30_000_000]);
    assert!(is_savable(&full));
    match save_replay(Some(&full)) {
        Ok(plan) => {
            let video: Vec<(u32, u64, i64)> =
                plan.video.iter().map(|w| (w.stream, w.sample.sample.id, w.time)).collect();
            let audio: Vec<(u32, u64, i64)> =
                plan.audio.iter().map(|w| (w.stream, w.sample.sample.id, w.time)).collect();
            assert_eq!(video, vec![(0, 20_000_000, 0), (0, 25_000_000, 5_000_000)]);
            assert_eq!(audio, vec![(1, 15_000_000, -5_000_000), (1, 30_000_000, 10_000_000)]);
            let order: Vec<u32> = plan.into_writes().iter().map(|w| w.stream).collect();
            assert_eq!(order, vec![0, 0, 1, 1]);
        }
        Err(_) => panic!("not saved"),
    }
    match save_replay(Some(&buffer(&[0, 10_000_000], &[]))) {
        Ok(plan) => {
            assert_eq!(plan.video[1].stream, 0);
            assert!(plan.audio.is_empty());
        }
        Err(_) => panic!("not saved"),
    }
}

#[test]
fn replays_that_cannot_be_saved() {
    let reason = |result| match result {
        Err(RecorderError::Generic(reason)) => reason,
        _ => panic!("no reason"),
    };
    assert_eq!(reason(save_replay(None)), "Replay buffer is not enabled");
    assert_eq!(reason(save_replay(Some(&buffer(&[], &[])))), "Replay buffer is empty");
    assert_eq!(reason(save_replay(Some(&buffer(&[0, 9_999_999], &[])))), "Replay buffer is empty");
    let silent = buffer(&[], &[0, 20_000_000]);
    assert_eq!(reason(save_replay(Some(&silent))), "No video frames in replay buffer");
    let mut wild = buffer(&[0], &[]);
    wild.oldest_timestamp = i64::MIN;
    assert!(!is_savable(&wild));
    let mut brief = buffer(&[-10], &[0]);
    brief.audio_samples.push_front((sendable(1), i64::MAX));
    brief.oldest_timestamp = -10;
    assert!(is_savable(&brief));
    assert_eq!(reason(save_replay(Some(&brief))), "Replay buffer is empty");
    brief.oldest_timestamp = -20_000_000;
    assert!(!is_savable(&brief));
}

fn request() -> StartRequest {
    let config = RecorderConfig::builder()
        .input_dimensions(640, 480)
        .capture_microphone(true)
        .microphone_device(Some("Mic"))
        .enable_replay_buffer(true)
        .replay_buffer_seconds(20)
        .output_path("out.mp4")
        .build();
    StartRequest::from_config(&config, "Game", true)
}

fn desktop(title: &str) -> StartReply {
    StartReply::Windows(vec![WindowCandidate {
        handle: WindowHandle::new(4),
        visible: true,
        title: Ok(title.to_string()),
    }])
}

fn next(run: &mut StartRun, action: StartAction, reply: StartReply) {
    assert_eq!(run.action(), action);
    assert!(run.accepts(&reply));
    run.advance(reply);
}

fn done() -> StartReply {
    StartReply::Done(Ok(()))
}

fn failed() -> StartReply {
    StartReply::Done(Err(WindowsError::new(-9, "system".to_string())))
}

#[test]
fn a_start_that_goes_well() {
    let mut run = StartRun::new(request());
    assert_eq!(run.request.barrier_count(), 3);
    next(&mut run, StartAction::ListWindows, desktop("Game"));
    let id = StartReply::Microphone(Some("id".to_string()));
    next(&mut run, StartAction::FindMicrophone, id);
    next(&mut run, StartAction::MakeReplayBuffer(20, 200), done());
    next(&mut run, StartAction::StartMedia, done());
    let picked = StartReply::Encoder(Ok(encoder(1, "A", VideoEncoderType::HEVC)));
    next(&mut run, StartAction::PickEncoder, picked);
    next(&mut run, StartAction::MakeSink(VideoEncoderType::HEVC.get_guid()), done());
    next(&mut run, StartAction::BeginWriting, done());
    next(&mut run, StartAction::MakeDevice, done());
    next(&mut run, StartAction::StartVideo, done());
    next(&mut run, StartAction::StartAudio, done());
    next(&mut run, StartAction::StartMicrophone, done());
    next(&mut run, StartAction::MakePool(640, 480), done());
    next(&mut run, StartAction::StartProcessing, done());
    assert_eq!(run.action(), StartAction::Finish(true));
    assert_eq!(run.hwnd, WindowHandle::new(4));
    assert_eq!(run.microphone_id, Some("id".to_string()));
}

#[test]
fn a_start_that_finds_out_the_resolution() {
    let mut run = StartRun::new(StartRequest {
        process_name: "GA".to_string(),
        use_exact_match: false,
        input_width: None,
        input_height: Some(5),
        microphone_device: None,
        replay_seconds: None,
        output_path: Some("x".to_string()),
        capture_audio: false,
        capture_microphone: false,
    });
    assert_eq!(run.request.barrier_count(), 1);
    next(&mut run, StartAction::ListWindows, desktop("Game"));
    let own = Rect { left: -800, top: 0, right: 0, bottom: 600 };
    let wide = Rect { left: i32::MIN, top: 0, right: 1, bottom: 600 };
    assert!(!run.accepts(&StartReply::Monitors(Some(wide), None)));
    next(&mut run, StartAction::ReadMonitors, StartReply::Monitors(Some(own), None));
    next(&mut run, StartAction::StartMedia, done());
    let picked = StartReply::Encoder(Ok(encoder(1, "A", VideoEncoderType::H264)));
    next(&mut run, StartAction::PickEncoder, picked);
    next(&mut run, StartAction::MakeSink(VideoEncoderType::H264.get_guid()), done());
    next(&mut run, StartAction::BeginWriting, done());
    next(&mut run, StartAction::MakeDevice, done());
    next(&mut run, StartAction::StartVideo, done());
    next(&mut run, StartAction::MakePool(800, 600), failed());
    assert_eq!(run.action(), StartAction::Finish(false));
}

fn failure(run: StartRun) -> WindowsError {
    match run.phase {
        StartPhase::Failed(failure) => failure.into_error(),
        _ => panic!("no failure"),
    }
}

#[test]
fn starts_that_fail() {
    let mut run = StartRun::new(request());
    next(&mut run, StartAction::ListWindows, desktop("game"));
    let error = failure(run);
    assert_eq!(error.code, E_FAIL);
    assert_eq!(error.message, "Failed to Start the Recording Process, reason: No window found");

    let mut run = StartRun::new(StartRequest {
        output_path: None,
        replay_seconds: None,
        microphone_device: None,
        ..request()
    });
    next(&mut run, StartAction::ListWindows, desktop("Game"));
    assert_eq!(
        failure(run).message,
        "Failed to Start the Recording Process, reason: Invalid path string"
    );

    let mut run = StartRun::new(StartRequest {
        replay_seconds: None,
        microphone_device: None,
        ..request()
    });
    next(&mut run, StartAction::ListWindows, desktop("Game"));
    next(&mut run, StartAction::StartMedia, failed());
    let error = failure(run);
    assert_eq!((error.code, error.message.as_str()), (-9, "system"));

    let none = StartFailure::NoEncoder(RecorderError::Generic("none".to_string()));
    assert_eq!(none.into_error().message, "Generic Error: none");
}
