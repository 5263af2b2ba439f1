use windows_record::capture::audio::{create_audio_sample, has_sound, SamplePlan, WaveFormat};
use windows_record::capture::cursor::{
    cursor_origin, is_cursor_visible, is_gdi_compatible, CursorInfo,
};
use windows_record::capture::frame::{
    handle_frame_timing, CopyOutcome, FrameAction, FrameError, FramePhase, FrameReply, FrameRun,
    FrameTiming, DXGI_ERROR_ACCESS_LOST, DXGI_ERROR_WAIT_TIMEOUT,
};
use windows_record::capture::microphone::{
    buffer_duration, create_microphone_sample, validate_counter,
};
use windows_record::capture::packets::{
    Packet, PacketAction, PacketLoop, PacketReply, SoundSource,
};
use windows_record::capture::start::{
    CaptureStart, Captured, StartingAction, StartingPhase, StartingReply,
};
use windows_record::capture::tracker::WindowTracker;
use windows_record::capture::video::{frame_interval, CaptureAction, CaptureLoop, CaptureReply};
use windows_record::capture::window::{WindowCandidate, WindowHandle};
use windows_record::error::{WindowsError, E_FAIL, E_POINTER};
use windows_record::types::{Duration, Point};

fn ms(n: u64) -> Duration {
    Duration::from_millis(n)
}

fn timing(next: u64, delay: u64) -> FrameTiming {
    FrameTiming { next_frame_time: ms(next), accumulated_delay: ms(delay), num_duped: 0 }
}

fn step(run: &mut FrameRun, action: FrameAction, reply: FrameReply) {
    assert_eq!(run.action(), action);
    assert!(run.accepts(&reply));
    run.advance(reply);
}

#[test]
fn focused_frames_are_acquired_copied_released_and_sent() {
    let mut run = FrameRun::start(true, timing(1000, 0), ms(10), true);
    step(&mut run, FrameAction::AcquireFrame(16), FrameReply::Acquired(Ok(true)));
    step(&mut run, FrameAction::CopyFrame, FrameReply::Copied(CopyOutcome::Copied));
    step(&mut run, FrameAction::ReleaseFrame, FrameReply::Released(Ok(())));
    step(&mut run, FrameAction::DrawCursor, FrameReply::CursorDrawn);
    step(&mut run, FrameAction::SendFrame, FrameReply::Sent(true));
    step(&mut run, FrameAction::ReadClock, FrameReply::Now(ms(1004)));
    step(&mut run, FrameAction::Sleep(ms(6)), FrameReply::Slept);
    assert_eq!(run.action(), FrameAction::Finish(Ok(())));
    assert_eq!(run.timing, timing(1010, 0));
}

#[test]
fn delays_are_made_up_for_by_sending_twice() {
    let mut run = FrameRun::start(false, timing(1000, 25), ms(10), true);
    step(&mut run, FrameAction::FetchBlank, FrameReply::BlankFetched(true));
    step(&mut run, FrameAction::SendFrame, FrameReply::Sent(true));
    step(&mut run, FrameAction::SendFrame, FrameReply::Sent(true));
    step(&mut run, FrameAction::SendFrame, FrameReply::Sent(true));
    step(&mut run, FrameAction::ReadClock, FrameReply::Now(ms(1050)));
    assert_eq!(run.action(), FrameAction::Finish(Ok(())));
    assert_eq!(run.timing.next_frame_time, ms(1030));
    assert_eq!(run.timing.accumulated_delay, ms(25));
    assert_eq!(run.timing.num_duped, 2);
}

#[test]
fn frames_without_content_are_released_and_not_sent() {
    let mut run = FrameRun::start(true, timing(0, 0), ms(10), false);
    step(&mut run, FrameAction::AcquireFrame(16), FrameReply::Acquired(Ok(false)));
    step(&mut run, FrameAction::ReleaseFrame, FrameReply::Released(Ok(())));
    assert_eq!(run.action(), FrameAction::ReadClock);
}

#[test]
fn a_timeout_is_no_failure() {
    let mut run = FrameRun::start(true, timing(0, 0), ms(10), false);
    let late = FrameReply::Acquired(Err(DXGI_ERROR_WAIT_TIMEOUT));
    step(&mut run, FrameAction::AcquireFrame(16), late);
    assert_eq!(run.action(), FrameAction::ReadClock);
}

#[test]
fn failures_release_the_frame() {
    let mut run = FrameRun::start(true, timing(0, 0), ms(10), false);
    step(&mut run, FrameAction::AcquireFrame(16), FrameReply::Acquired(Ok(true)));
    step(&mut run, FrameAction::CopyFrame, FrameReply::Copied(CopyOutcome::NoTexture));
    step(&mut run, FrameAction::ReleaseFrame, FrameReply::Released(Err(-1)));
    assert_eq!(run.phase, FramePhase::Done(Err(FrameError::TexturePoolError)));

    let mut run = FrameRun::start(true, timing(0, 0), ms(10), false);
    step(&mut run, FrameAction::AcquireFrame(16), FrameReply::Acquired(Ok(true)));
    step(&mut run, FrameAction::CopyFrame, FrameReply::Copied(CopyOutcome::NotATexture(-2)));
    step(&mut run, FrameAction::ReleaseFrame, FrameReply::Released(Ok(())));
    assert_eq!(run.phase, FramePhase::Done(Err(FrameError::WindowsError(-2))));

    let mut run = FrameRun::start(true, timing(0, 0), ms(10), false);
    step(&mut run, FrameAction::AcquireFrame(16), FrameReply::Acquired(Err(-3)));
    assert_eq!(run.phase, FramePhase::Done(Err(FrameError::WindowsError(-3))));

    let mut run = FrameRun::start(false, timing(0, 0), ms(10), false);
    step(&mut run, FrameAction::FetchBlank, FrameReply::BlankFetched(true));
    step(&mut run, FrameAction::SendFrame, FrameReply::Sent(false));
    assert_eq!(run.phase, FramePhase::Done(Err(FrameError::ChannelClosed)));
    assert!(!run.accepts(&FrameReply::Slept));
}

#[test]
fn late_and_early_frames() {
    let mut delay = ms(5);
    assert_eq!(handle_frame_timing(ms(30), ms(20), &mut delay), None);
    assert_eq!(delay, ms(15));
    assert_eq!(handle_frame_timing(ms(20), ms(20), &mut delay), Some(ms(0)));
    assert_eq!(handle_frame_timing(ms(12), ms(20), &mut delay), Some(ms(8)));
    assert_eq!(delay, ms(15));
}

#[test]
fn frame_intervals() {
    assert_eq!(frame_interval(30, 1).as_nanos(), 33_333_333);
    assert_eq!(frame_interval(60000, 1001).as_nanos(), 16_683_333);
}

#[test]
fn cursors() {
    assert!(is_gdi_compatible(0x300));
    assert!(!is_gdi_compatible(0x100));
    let position = Point { x: 10, y: 20 };
    assert!(is_cursor_visible(Some(CursorInfo { flags: 3, position })));
    assert!(!is_cursor_visible(Some(CursorInfo { flags: 2, position })));
    assert!(!is_cursor_visible(None));
    assert_eq!(cursor_origin(position, 3, 25), Point { x: 7, y: -5 });
    assert_eq!(cursor_origin(position, u32::MAX, 0), Point { x: 11, y: 20 });
}

fn capture() -> CaptureLoop {
    let tracker =
        WindowTracker::new(WindowHandle::new(5), "Game", ms(0), Some((1, 2, 30, 40)));
    CaptureLoop::start(tracker, true, ms(0), ms(10), false)
}

fn desktop(title: &str) -> CaptureReply {
    let window = |raw: isize, title: &str| WindowCandidate {
        handle: WindowHandle::new(raw),
        visible: true,
        title: Ok(title.to_string()),
    };
    CaptureReply::Windows(vec![window(8, "Desktop"), window(9, title)])
}

fn go(capture: &mut CaptureLoop, action: CaptureAction, reply: CaptureReply) {
    assert_eq!(capture.action(), action);
    assert!(capture.accepts(&reply));
    capture.advance(reply);
}

fn reach_frame(c: &mut CaptureLoop) {
    go(c, CaptureAction::CheckRecording, CaptureReply::Recording(true));
    go(c, CaptureAction::ReadClock, CaptureReply::Now(ms(1)));
    go(c, CaptureAction::ReadClock, CaptureReply::Now(ms(1)));
    go(c, CaptureAction::SendWindowInfo((1, 2), (30, 40)), CaptureReply::InfoSent);
}

#[test]
fn capture_takes_frames_until_it_is_stopped() {
    let mut c = capture();
    reach_frame(&mut c);
    go(&mut c, CaptureAction::ReadForeground, CaptureReply::Foreground(WindowHandle::new(6)));
    let fetched = CaptureReply::Frame(FrameReply::BlankFetched(true));
    go(&mut c, CaptureAction::Frame(FrameAction::FetchBlank, 0), fetched);
    let sent = CaptureReply::Frame(FrameReply::Sent(true));
    go(&mut c, CaptureAction::Frame(FrameAction::SendFrame, 0), sent);
    let now = CaptureReply::Frame(FrameReply::Now(ms(11)));
    go(&mut c, CaptureAction::Frame(FrameAction::ReadClock, 0), now);
    assert_eq!(c.frame_count, 1);
    assert_eq!(c.timing, timing(10, 1));
    go(&mut c, CaptureAction::CheckRecording, CaptureReply::Recording(false));
    assert_eq!(c.action(), CaptureAction::Finish(Ok(())));
}

#[test]
fn capture_opens_a_lost_output_again() {
    let mut c = capture();
    reach_frame(&mut c);
    go(&mut c, CaptureAction::ReadForeground, CaptureReply::Foreground(WindowHandle::new(5)));
    let lost = CaptureReply::Frame(FrameReply::Acquired(Err(DXGI_ERROR_ACCESS_LOST)));
    go(&mut c, CaptureAction::Frame(FrameAction::AcquireFrame(16), 0), lost);
    assert_eq!(c.frame_count, 0);
    reach_frame(&mut c);
    go(&mut c, CaptureAction::OpenOutput, CaptureReply::Opened(false));
    go(&mut c, CaptureAction::Sleep(ms(100)), CaptureReply::Slept);
    reach_frame(&mut c);
    go(&mut c, CaptureAction::OpenOutput, CaptureReply::Opened(true));
    assert_eq!(c.action(), CaptureAction::ReadForeground);
}

#[test]
fn capture_ends_on_other_errors() {
    let mut c = capture();
    reach_frame(&mut c);
    go(&mut c, CaptureAction::ReadForeground, CaptureReply::Foreground(WindowHandle::new(5)));
    let gone = CaptureReply::Frame(FrameReply::Acquired(Err(-77)));
    go(&mut c, CaptureAction::Frame(FrameAction::AcquireFrame(16), 0), gone);
    assert_eq!(c.action(), CaptureAction::Finish(Err(-77)));
}

#[test]
fn capture_searches_for_a_lost_window() {
    let mut c = capture();
    go(&mut c, CaptureAction::CheckRecording, CaptureReply::Recording(true));
    go(&mut c, CaptureAction::ReadClock, CaptureReply::Now(ms(2000)));
    go(&mut c, CaptureAction::CheckWindow(WindowHandle::new(5)), CaptureReply::Valid(false));
    go(&mut c, CaptureAction::ListWindows, desktop("Other"));
    go(&mut c, CaptureAction::ListWindows, desktop("Other"));
    go(&mut c, CaptureAction::Sleep(ms(1)), CaptureReply::Slept);
    go(&mut c, CaptureAction::CheckRecording, CaptureReply::Recording(true));
    go(&mut c, CaptureAction::ReadClock, CaptureReply::Now(ms(4000)));
    go(&mut c, CaptureAction::CheckWindow(WindowHandle::new(5)), CaptureReply::Valid(false));
    go(&mut c, CaptureAction::ListWindows, desktop("Other"));
    let found = desktop("The GAME");
    go(&mut c, CaptureAction::ListWindows, found);
    let place = CaptureReply::Window(ms(4001), None);
    go(&mut c, CaptureAction::ReadWindow(WindowHandle::new(9)), place);
    go(&mut c, CaptureAction::OpenOutput, CaptureReply::Opened(true));
    go(&mut c, CaptureAction::ReadClock, CaptureReply::Now(ms(4501)));
    let rect = CaptureReply::Rect(Some((7, 8, 9, 10)));
    go(&mut c, CaptureAction::ReadRect(WindowHandle::new(9)), rect);
    go(&mut c, CaptureAction::SendWindowInfo((7, 8), (9, 10)), CaptureReply::InfoSent);
    assert_eq!(c.action(), CaptureAction::ReadForeground);
}

#[test]
fn capture_adopts_a_window_that_came_back() {
    let mut c = capture();
    go(&mut c, CaptureAction::CheckRecording, CaptureReply::Recording(true));
    go(&mut c, CaptureAction::ReadClock, CaptureReply::Now(ms(2000)));
    go(&mut c, CaptureAction::CheckWindow(WindowHandle::new(5)), CaptureReply::Valid(false));
    let found = desktop("The GAME");
    go(&mut c, CaptureAction::ListWindows, found);
    assert_eq!(c.tracker.hwnd, WindowHandle::new(9));
    assert_eq!(c.action(), CaptureAction::ReadClock);
}

#[test]
fn sound_format() {
    let format = WaveFormat::capture();
    assert_eq!(format.format_tag, 1);
    assert_eq!(format.channels, 2);
    assert_eq!(format.samples_per_sec, 44100);
    assert_eq!(format.avg_bytes_per_sec, 176400);
    assert_eq!(format.packet_duration_hns(), 226);
    assert!(has_sound(5));
    assert!(!has_sound(2));
    assert_eq!(
        create_audio_sample(441, &format, 7, 226),
        SamplePlan { size: 1764, time: 7, duration: 99_666 }
    );
}

#[test]
fn microphone_start_up() {
    assert_eq!(validate_counter(Some(10)), Ok(10));
    assert_eq!(validate_counter(Some(0)), Err(E_FAIL));
    assert_eq!(validate_counter(Some(-1)), Err(E_FAIL));
    assert_eq!(validate_counter(None), Err(E_FAIL));
    assert_eq!(buffer_duration(100_000), 200_000);
    let format = WaveFormat::capture();
    assert_eq!(create_microphone_sample(true, 1, &format, 0, 226), Err(E_POINTER));
    assert_eq!(
        create_microphone_sample(false, 2, &format, 5, 226),
        Ok(SamplePlan { size: 8, time: 5, duration: 452 })
    );
}

fn take(sound: &mut PacketLoop, action: PacketAction, reply: PacketReply) {
    assert_eq!(sound.action(), action);
    assert!(sound.accepts(&reply));
    sound.advance(reply);
}

fn packet(flags: u32) -> Packet {
    Packet { is_null: false, num_frames: 10, flags, qpc_position: 150 }
}

#[test]
fn packets_become_samples() {
    let mut sound = PacketLoop::start(SoundSource::System, 100);
    take(&mut sound, PacketAction::CheckRecording, PacketReply::Recording(true));
    take(&mut sound, PacketAction::GetPacketSize, PacketReply::Size(Ok(10)));
    take(&mut sound, PacketAction::GetPacket, PacketReply::Fetched(Ok(packet(0))));
    take(&mut sound, PacketAction::ConvertTicks(50), PacketReply::Time(5));
    let plan = SamplePlan { size: 40, time: 5, duration: 2260 };
    take(&mut sound, PacketAction::MakeSample(plan), PacketReply::Made(Ok(())));
    take(&mut sound, PacketAction::SendSample, PacketReply::Sent(true));
    take(&mut sound, PacketAction::ReleasePacket(10), PacketReply::Released(Ok(())));
    take(&mut sound, PacketAction::CheckRecording, PacketReply::Recording(false));
    take(&mut sound, PacketAction::StopDevice, PacketReply::Stopped(Err(-6)));
    assert_eq!(sound.action(), PacketAction::Finish(Err(-6)));
}

#[test]
fn silence_is_given_back() {
    let mut sound = PacketLoop::start(SoundSource::Microphone, 100);
    take(&mut sound, PacketAction::CheckRecording, PacketReply::Recording(true));
    take(&mut sound, PacketAction::GetPacketSize, PacketReply::Size(Ok(10)));
    take(&mut sound, PacketAction::GetPacket, PacketReply::Fetched(Ok(packet(2))));
    take(&mut sound, PacketAction::ReleasePacket(10), PacketReply::Released(Ok(())));
    take(&mut sound, PacketAction::CheckRecording, PacketReply::Recording(true));
    take(&mut sound, PacketAction::GetPacketSize, PacketReply::Size(Ok(0)));
    take(&mut sound, PacketAction::Sleep(ms(1)), PacketReply::Slept);
    take(&mut sound, PacketAction::CheckRecording, PacketReply::Recording(false));
    take(&mut sound, PacketAction::StopDevice, PacketReply::Stopped(Err(-6)));
    assert_eq!(sound.action(), PacketAction::Finish(Ok(())));
}

#[test]
fn sound_failures() {
    let mut sound = PacketLoop::start(SoundSource::Microphone, 100);
    take(&mut sound, PacketAction::CheckRecording, PacketReply::Recording(true));
    take(&mut sound, PacketAction::GetPacketSize, PacketReply::Size(Err(-1)));
    assert_eq!(sound.action(), PacketAction::Finish(Err(-1)));

    let mut sound = PacketLoop::start(SoundSource::Microphone, 100);
    take(&mut sound, PacketAction::CheckRecording, PacketReply::Recording(true));
    take(&mut sound, PacketAction::GetPacketSize, PacketReply::Size(Ok(1)));
    let null = Packet { is_null: true, ..packet(0) };
    take(&mut sound, PacketAction::GetPacket, PacketReply::Fetched(Ok(null)));
    take(&mut sound, PacketAction::ConvertTicks(50), PacketReply::Time(5));
    assert_eq!(sound.action(), PacketAction::Finish(Err(E_POINTER)));

    let mut sound = PacketLoop::start(SoundSource::Microphone, 100);
    take(&mut sound, PacketAction::CheckRecording, PacketReply::Recording(true));
    take(&mut sound, PacketAction::GetPacketSize, PacketReply::Size(Ok(1)));
    take(&mut sound, PacketAction::GetPacket, PacketReply::Fetched(Ok(packet(0))));
    take(&mut sound, PacketAction::ConvertTicks(50), PacketReply::Time(5));
    let plan = SamplePlan { size: 40, time: 5, duration: 2260 };
    take(&mut sound, PacketAction::MakeSample(plan), PacketReply::Made(Ok(())));
    take(&mut sound, PacketAction::SendSample, PacketReply::Sent(false));
    assert_eq!(sound.action(), PacketAction::Finish(Err(E_FAIL)));

    let mut sound = PacketLoop::start(SoundSource::System, 100);
    take(&mut sound, PacketAction::CheckRecording, PacketReply::Recording(true));
    take(&mut sound, PacketAction::GetPacketSize, PacketReply::Size(Ok(1)));
    let early = Packet { qpc_position: 99, ..packet(0) };
    assert!(!sound.accepts(&PacketReply::Fetched(Ok(early))));
    assert!(!sound.accepts(&PacketReply::Fetched(Ok(null))));
    assert!(!sound.accepts(&PacketReply::Slept));
}

#[test]
fn only_the_microphone_waits_after_a_failure() {
    let cases = [
        (Captured::Video, false),
        (Captured::Audio, false),
        (Captured::Microphone, false),
        (Captured::Video, true),
        (Captured::Audio, true),
        (Captured::Microphone, true),
    ];
    for (captured, fails) in cases {
        let result = || {
            if fails {
                Err(WindowsError::new(-7, "none".to_string()))
            } else {
                Ok(())
            }
        };
        let mut start = CaptureStart::new(captured);
        assert_eq!(start.action(), StartingAction::SetUp);
        assert!(!start.accepts(&StartingReply::Waited));
        assert!(start.accepts(&StartingReply::SetUp(result())));
        start = start.advance(StartingReply::SetUp(result()));
        if !fails || captured == Captured::Microphone {
            assert_eq!(start.action(), StartingAction::Wait);
            assert!(start.accepts(&StartingReply::Waited));
            start = start.advance(StartingReply::Waited);
        }
        assert_eq!(start.action(), StartingAction::Finish(!fails));
        match start.phase {
            StartingPhase::Over(Ok(())) => assert!(!fails),
            StartingPhase::Over(Err(error)) => {
                assert!(fails);
                assert_eq!(error.code, -7);
            }
            _ => panic!("not over"),
        }
    }
}
