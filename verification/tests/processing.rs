use windows_record::device::video::VideoEncoderType;
use windows_record::error::{WindowsError, E_FAIL, E_NOTIMPL, E_UNEXPECTED};
use windows_record::processing::attributes::{
    id, pack_2_u32_as_u64, pair, AttributeKey, AttributeValue, AUDIO_FORMAT_AAC, MEDIA_TYPE_AUDIO,
    MEDIA_TYPE_VIDEO, VIDEO_FORMAT_ARGB32, VIDEO_FORMAT_NV12,
};
use windows_record::processing::encode_loop::{
    EncodeAction, EncodeLoop, EncodePhase, EncodeReply, EncoderMessage,
};
use windows_record::processing::encoder::{
    encoder_input_type, encoder_output_type, EncoderStop, ThreadEnd, VideoEncoder,
    VideoEncoderInputSample, VideoEncoderOutputSample,
};
use windows_record::processing::encoder_setup::{
    EncoderSetup, SetupAction, SetupFailure, SetupPhase, SetupReply, MF_E_NO_MORE_TYPES,
    MF_E_TRANSFORM_TYPE_NOT_SET,
};
use windows_record::processing::media::{
    audio_stream_index, create_audio_output_type, create_encoder_config, create_sink_attributes,
    create_video_input_type, create_video_output_type,
};
use windows_record::processing::mixed_sample::MixerOutput;
use windows_record::processing::process::{
    delivery, DeliveryStep, ProcessAction, ProcessLoop, ProcessPhase, ProcessReply, Receipt,
    WindowInfo,
};
use windows_record::processing::processor::Processor;
use windows_record::processing::video::{
    calculate_source_rect, conversion_error, conversion_outcome, converter_input_type,
    converter_output_type, has_edges, initial_rectangle, rectangle_update, update_video_converter,
    Conversion, RectangleUpdate, MF_E_TRANSFORM_NEED_MORE_INPUT, MF_E_UNEXPECTED,
};
use windows_record::types::{Duration, Guid, MediaBuffer, MediaSample, Rect, SendableSample};

fn system(code: i32) -> WindowsError {
    WindowsError::new(code, "system".to_string())
}

#[test]
fn pairs_are_packed() {
    assert_eq!(pack_2_u32_as_u64(1920, 1080), (1920 << 32) + 1080);
    assert_eq!(pack_2_u32_as_u64(u32::MAX, u32::MAX), u64::MAX);
    assert_eq!(pair(1, 1), AttributeValue::Pair(0x1_0000_0001));
}

#[test]
fn attributes_of_the_file() {
    let number = AttributeValue::Number;
    assert_eq!(
        create_sink_attributes(),
        vec![
            (AttributeKey::HardwareTransforms, number(1)),
            (AttributeKey::DisableThrottling, number(1)),
        ]
    );
    let h264 = VideoEncoderType::H264.get_guid();
    let list = create_video_output_type(30, 1, 640, 480, &h264);
    assert_eq!(list[0], (AttributeKey::MajorType, id(MEDIA_TYPE_VIDEO)));
    assert_eq!(list[1], (AttributeKey::Subtype, AttributeValue::Id(h264)));
    assert_eq!(list[3], (AttributeKey::FrameSize, pair(640, 480)));
    assert_eq!(list[6], (AttributeKey::VideoProfile, number(100)));
    let hevc = VideoEncoderType::HEVC.get_guid();
    let list = create_video_output_type(30, 1, 640, 480, &hevc);
    assert_eq!(list[6], (AttributeKey::VideoProfile, number(1)));
    assert_eq!(create_video_output_type(30, 1, 640, 480, &Guid { value: 1 }).len(), 6);
    let list = create_video_input_type(30, 1, 640, 480);
    assert_eq!(list[1], (AttributeKey::Subtype, id(VIDEO_FORMAT_NV12)));
    assert_eq!(list[7], (AttributeKey::DefaultStride, number(640)));
    let list = create_encoder_config(123);
    assert_eq!(list[0], (AttributeKey::RateControlMode, number(5)));
    assert_eq!(list[1], (AttributeKey::MeanBitRate, number(123)));
    assert_eq!(list[3], (AttributeKey::Quality, number(70)));
    let list = create_audio_output_type();
    assert_eq!(list[0], (AttributeKey::MajorType, id(MEDIA_TYPE_AUDIO)));
    assert_eq!(list[1], (AttributeKey::Subtype, id(AUDIO_FORMAT_AAC)));
    assert_eq!(list[5], (AttributeKey::AudioAvgBytesPerSecond, number(16000)));
    assert_eq!(audio_stream_index(false, false), None);
    assert_eq!(audio_stream_index(false, true), Some(1));
    assert_eq!(audio_stream_index(true, true), Some(1));
}

#[test]
fn attributes_of_the_converter_and_the_encoder() {
    let number = AttributeValue::Number;
    let list = converter_input_type(100, 50);
    assert_eq!(list[1], (AttributeKey::Subtype, id(VIDEO_FORMAT_ARGB32)));
    assert_eq!(list[2], (AttributeKey::InterlaceMode, number(2)));
    assert_eq!(list[5], (AttributeKey::DefaultStride, number(400)));
    let list = converter_output_type(100, 50);
    assert_eq!(list[4], (AttributeKey::FrameSize, pair(100, 50)));
    assert_eq!(list[5], (AttributeKey::DefaultStride, number(100)));
    let list = encoder_output_type(&Guid { value: 4 }, 99, (100, 50), (60, 1));
    assert_eq!(list[2], (AttributeKey::AvgBitrate, number(99)));
    assert_eq!(list[4], (AttributeKey::FrameRate, pair(60, 1)));
    assert_eq!(list.len(), 8);
    assert_eq!(encoder_input_type((100, 50), (60, 1))[0], (AttributeKey::FrameSize, pair(100, 50)));
}

#[test]
fn windows_are_cut_out_of_the_picture() {
    let input = (1920, 1080);
    let crop = |place, size| rectangle_update(input, Some(place), Some(size));
    assert_eq!(
        crop((100, 200), (640, 480)),
        RectangleUpdate::Crop(Rect { left: 100, top: 200, right: 740, bottom: 680 })
    );
    assert_eq!(
        crop((-100, 1000), (640, 480)),
        RectangleUpdate::Crop(Rect { left: 0, top: 1000, right: 540, bottom: 1080 })
    );
    let whole = Rect { left: 0, top: 0, right: 1920, bottom: 1080 };
    assert_eq!(crop((0, 0), (1921, 480)), RectangleUpdate::Whole(whole));
    assert_eq!(rectangle_update(input, None, Some((1, 1))), RectangleUpdate::Keep);
    assert_eq!(calculate_source_rect(1920, 1080, None, None), whole);
    assert_eq!(calculate_source_rect(1920, 1080, Some((0, 0)), Some((1920, 2000))), whole);
    assert_eq!(
        calculate_source_rect(1920, 1080, Some((5, 6)), Some((10, 10))),
        Rect { left: 5, top: 6, right: 15, bottom: 16 }
    );
    assert_eq!(initial_rectangle(input, Some((0, 0)), Some((1921, 480))), None);
    assert!(initial_rectangle(input, Some((0, 0)), Some((1920, 480))).is_some());
    assert!(has_edges((i32::MAX - 1, 0), (1, 1)));
    assert!(!has_edges((i32::MAX, 0), (1, 1)));
}

#[test]
fn converters_count_as_changed() {
    let rect = Rect { left: 0, top: 0, right: 1, bottom: 1 };
    assert!(!update_video_converter(&RectangleUpdate::Keep, true));
    assert!(update_video_converter(&RectangleUpdate::Crop(rect), true));
    assert!(!update_video_converter(&RectangleUpdate::Crop(rect), false));
    assert!(update_video_converter(&RectangleUpdate::Whole(rect), false));
}

#[test]
fn conversions_may_fail() {
    assert!(matches!(conversion_outcome(Ok(true)), Conversion::Converted));
    match conversion_outcome(Ok(false)) {
        Conversion::Failed(error) => {
            assert_eq!(error.code, MF_E_UNEXPECTED);
            assert_eq!(error.message, "ProcessOutput Ok but sample missing");
        }
        _ => panic!("no failure"),
    }
    match conversion_outcome(Err(system(MF_E_TRANSFORM_NEED_MORE_INPUT))) {
        Conversion::Failed(error) => assert_eq!(error.code, MF_E_TRANSFORM_NEED_MORE_INPUT),
        _ => panic!("no failure"),
    }
    assert!(matches!(conversion_outcome(Err(system(-1))), Conversion::AskDevice(_)));
    assert_eq!(conversion_error(system(-1), Ok(())).code, -1);
    assert_eq!(conversion_error(system(-1), Err(system(-2))).code, -2);
}

#[test]
fn encoder_samples() {
    let input = VideoEncoderInputSample::new(7, "texture");
    assert_eq!((input.timestamp, input.texture), (7, "texture"));
    assert_eq!(*VideoEncoderOutputSample { sample: 3 }.sample(), 3);
}

#[test]
fn encoders_start_and_stop() {
    let mut encoder = VideoEncoder::new();
    assert!(encoder.is_finished(false));
    match encoder.try_start() {
        Err(error) => {
            assert_eq!(error.code, E_FAIL);
            assert_eq!(error.message, "Encoder callbacks not set");
        }
        Ok(_) => panic!("started"),
    }
    assert!(encoder.set_sample_requested_callback());
    assert!(encoder.set_sample_rendered_callback());
    assert!(matches!(encoder.try_start(), Ok(true)));
    assert!(matches!(encoder.try_start(), Ok(false)));
    assert!(!encoder.set_sample_requested_callback());
    assert!(!encoder.is_finished(false));
    assert!(encoder.is_finished(true));
    let mut other = encoder;
    assert_eq!(encoder.stop(), EncoderStop::JoinThread);
    assert_eq!(encoder.stop(), EncoderStop::Nothing);
    assert!(encoder.finish_stop(ThreadEnd::Returned(Ok(()))).is_ok());
    assert!(!encoder.started);
    assert_eq!(other.stop(), EncoderStop::JoinThread);
    match other.finish_stop(ThreadEnd::Panicked) {
        Err(error) => assert_eq!(error.message, "Failed to join encoder thread"),
        Ok(_) => panic!("no error"),
    }
    assert!(other.started);
    match other.finish_stop(ThreadEnd::Returned(Err(system(-3)))) {
        Err(error) => assert_eq!(error.code, -3),
        Ok(_) => panic!("no error"),
    }
}

fn set(setup: &mut EncoderSetup, action: SetupAction, reply: SetupReply) {
    assert_eq!(setup.action(), action);
    assert!(setup.accepts(&reply));
    setup.advance(reply);
}

fn nv12() -> SetupReply {
    SetupReply::InputType(Ok(Some(Guid { value: VIDEO_FORMAT_NV12 })))
}

fn up_to_input(setup: &mut EncoderSetup, ids: Result<(u32, u32), WindowsError>) {
    set(setup, SetupAction::MakeTransform, SetupReply::Done(Ok(())));
    set(setup, SetupAction::CountStreams, SetupReply::Streams(Ok((1, 2))));
    set(setup, SetupAction::ReadStreamIds(1, 2), SetupReply::StreamIds(ids));
}

#[test]
fn encoders_are_set_up_for_nv12() {
    let mut setup = EncoderSetup::new();
    up_to_input(&mut setup, Ok((7, 8)));
    set(&mut setup, SetupAction::SetOutputType(8), SetupReply::Done(Ok(())));
    set(&mut setup, SetupAction::QueryInputType(7, 0), SetupReply::InputType(Ok(None)));
    set(&mut setup, SetupAction::QueryInputType(7, 1), nv12());
    set(&mut setup, SetupAction::ConfigureInputType, SetupReply::Done(Ok(())));
    set(&mut setup, SetupAction::TestInputType(7), SetupReply::Tested(false));
    set(&mut setup, SetupAction::QueryInputType(7, 2), nv12());
    set(&mut setup, SetupAction::ConfigureInputType, SetupReply::Done(Ok(())));
    set(&mut setup, SetupAction::TestInputType(7), SetupReply::Tested(true));
    set(&mut setup, SetupAction::SetInputType(7), SetupReply::Done(Ok(())));
    assert_eq!(setup.action(), SetupAction::Finish(true));
}

fn setup_error(setup: EncoderSetup) -> WindowsError {
    match setup.phase {
        SetupPhase::Failed(failure) => failure.into_error(),
        _ => panic!("no failure"),
    }
}

#[test]
fn encoders_that_cannot_be_set_up() {
    let mut setup = EncoderSetup::new();
    set(&mut setup, SetupAction::MakeTransform, SetupReply::Done(Ok(())));
    set(&mut setup, SetupAction::CountStreams, SetupReply::Streams(Ok((0, 1))));
    let error = setup_error(setup);
    assert_eq!(error.code, E_UNEXPECTED);
    assert_eq!(error.message, "Encoder MFT has 0 streams");

    let mut setup = EncoderSetup::new();
    up_to_input(&mut setup, Err(system(E_NOTIMPL)));
    set(&mut setup, SetupAction::SetOutputType(0), SetupReply::Done(Ok(())));
    let no_more = SetupReply::InputType(Err(system(MF_E_NO_MORE_TYPES)));
    set(&mut setup, SetupAction::QueryInputType(0, 0), no_more);
    assert_eq!(setup_error(setup).code, MF_E_TRANSFORM_TYPE_NOT_SET);

    let mut setup = EncoderSetup::new();
    up_to_input(&mut setup, Err(system(-4)));
    assert_eq!(setup_error(setup).code, -4);

    assert_eq!(
        SetupFailure::NoInputType.into_error().message,
        "Failed to find and set a compatible NV12 input type on the encoder MFT."
    );
}

fn enc(encode: &mut EncodeLoop, action: EncodeAction, reply: EncodeReply) {
    assert_eq!(encode.action(), action);
    assert!(encode.accepts(&reply));
    encode.advance(reply);
}

fn ok() -> EncodeReply {
    EncodeReply::Done(Ok(()))
}

fn started() -> EncodeLoop {
    let mut encode = EncodeLoop::new();
    enc(&mut encode, EncodeAction::Notify(EncoderMessage::BeginStreaming), ok());
    enc(&mut encode, EncodeAction::Notify(EncoderMessage::StartOfStream), ok());
    enc(&mut encode, EncodeAction::Notify(EncoderMessage::Flush), ok());
    encode
}

#[test]
fn pictures_are_encoded() {
    let mut encode = started();
    enc(&mut encode, EncodeAction::CheckStop, EncodeReply::Stop(false));
    enc(&mut encode, EncodeAction::RequestInput, EncodeReply::Input(Ok(true)));
    enc(&mut encode, EncodeAction::Submit, ok());
    enc(&mut encode, EncodeAction::CheckStop, EncodeReply::Stop(false));
    enc(&mut encode, EncodeAction::GetOutput, EncodeReply::Output(Ok(true)));
    enc(&mut encode, EncodeAction::Deliver, ok());
    assert_eq!(encode.frame_count(), 1);
    enc(&mut encode, EncodeAction::CheckStop, EncodeReply::Stop(false));
    let hungry = EncodeReply::Output(Err(system(MF_E_TRANSFORM_NEED_MORE_INPUT)));
    enc(&mut encode, EncodeAction::GetOutput, hungry);
    enc(&mut encode, EncodeAction::RequestInput, EncodeReply::Input(Ok(false)));
    enc(&mut encode, EncodeAction::Notify(EncoderMessage::EndOfStream), ok());
    enc(&mut encode, EncodeAction::CheckStop, EncodeReply::Stop(false));
    enc(&mut encode, EncodeAction::GetOutput, EncodeReply::Output(Ok(false)));
    enc(&mut encode, EncodeAction::CheckStop, EncodeReply::Stop(true));
    let ignored = EncodeReply::Done(Err(system(-1)));
    enc(&mut encode, EncodeAction::Notify(EncoderMessage::EndOfStream), ignored);
    enc(&mut encode, EncodeAction::Notify(EncoderMessage::EndStreaming), ok());
    enc(&mut encode, EncodeAction::Notify(EncoderMessage::Flush), ok());
    assert_eq!(encode.action(), EncodeAction::Finish(true));
}

#[test]
fn encoding_may_fail() {
    let mut encode = started();
    enc(&mut encode, EncodeAction::CheckStop, EncodeReply::Stop(false));
    enc(&mut encode, EncodeAction::RequestInput, EncodeReply::Input(Err(system(-8))));
    assert_eq!(encode.action(), EncodeAction::Finish(false));
    match encode.phase {
        EncodePhase::Finished(Err(error)) => assert_eq!(error.code, -8),
        _ => panic!("no error"),
    }
}

#[test]
fn news_of_the_window() {
    let mut info = WindowInfo::new(Some((1, 2)), None);
    assert!(!info.update(Some((1, 2)), None));
    assert!(!info.changed);
    assert!(info.update(None, Some((3, 4))));
    assert_eq!((info.position, info.size), (Some((1, 2)), Some((3, 4))));
    assert!(info.changed);
    assert!(info.update(Some((1, 9)), Some((3, 4))));
    assert!(!info.update(None, None));
    assert_eq!(info.position, Some((1, 9)));
}

fn act(process: &mut ProcessLoop, action: ProcessAction, reply: ProcessReply) {
    assert_eq!(process.action(), action);
    process.advance(reply);
}

fn fine() -> ProcessReply {
    ProcessReply::Done(Ok(()))
}

#[test]
fn mixed_audio_is_buffered_and_written() {
    let mut p = ProcessLoop::start(true, true, true, true);
    act(&mut p, ProcessAction::CheckRecording, ProcessReply::Recording(true));
    act(&mut p, ProcessAction::CheckEncoder, ProcessReply::EncoderFinished(false));
    act(&mut p, ProcessAction::ReceiveAudio, ProcessReply::Received(Receipt::Sample(Ok(()))));
    act(&mut p, ProcessAction::AddAudio, fine());
    act(&mut p, ProcessAction::ReceiveMicrophone, ProcessReply::Received(Receipt::Disconnected));
    act(&mut p, ProcessAction::DropMicrophone, fine());
    act(&mut p, ProcessAction::Mix, ProcessReply::Mixed(Some(Ok(5))));
    act(&mut p, ProcessAction::Buffer(5), fine());
    act(&mut p, ProcessAction::Write(1), fine());
    act(&mut p, ProcessAction::Mix, ProcessReply::Mixed(Some(Err(()))));
    act(&mut p, ProcessAction::Mix, ProcessReply::Mixed(None));
    act(&mut p, ProcessAction::CheckRecording, ProcessReply::Recording(true));
    act(&mut p, ProcessAction::CheckEncoder, ProcessReply::EncoderFinished(false));
    act(&mut p, ProcessAction::ReceiveAudio, ProcessReply::Received(Receipt::Empty));
    act(&mut p, ProcessAction::Mix, ProcessReply::Mixed(None));
    act(&mut p, ProcessAction::Sleep(Duration::from_millis(1)), fine());
    act(&mut p, ProcessAction::CheckRecording, ProcessReply::Recording(false));
    act(&mut p, ProcessAction::StopEncoder, fine());
    act(&mut p, ProcessAction::Finalize, fine());
    assert_eq!(p.action(), ProcessAction::Finish(true));
}

#[test]
fn silent_recordings_only_wait() {
    let mut p = ProcessLoop::start(true, false, false, false);
    act(&mut p, ProcessAction::CheckRecording, ProcessReply::Recording(true));
    act(&mut p, ProcessAction::CheckEncoder, ProcessReply::EncoderFinished(false));
    act(&mut p, ProcessAction::Sleep(Duration::from_millis(1)), fine());
    act(&mut p, ProcessAction::CheckRecording, ProcessReply::Recording(true));
    act(&mut p, ProcessAction::CheckEncoder, ProcessReply::EncoderFinished(true));
    act(&mut p, ProcessAction::StopRecording, fine());
    act(&mut p, ProcessAction::StopEncoder, ProcessReply::Done(Err(system(-2))));
    assert_eq!(p.action(), ProcessAction::Finish(false));
}

#[test]
fn processing_without_an_encoder_ends_at_once() {
    let mut p = ProcessLoop::start(false, true, false, false);
    act(&mut p, ProcessAction::StopRecording, fine());
    act(&mut p, ProcessAction::StopEncoder, fine());
    act(&mut p, ProcessAction::Finalize, fine());
    assert!(matches!(p.phase, ProcessPhase::Finished(Ok(()))));
}

#[test]
fn samples_without_a_time_end_the_processing() {
    let mut p = ProcessLoop::start(true, false, true, false);
    act(&mut p, ProcessAction::CheckRecording, ProcessReply::Recording(true));
    act(&mut p, ProcessAction::CheckEncoder, ProcessReply::EncoderFinished(false));
    let broken = ProcessReply::Received(Receipt::Sample(Err(system(-5))));
    act(&mut p, ProcessAction::ReceiveMicrophone, broken);
    match p.phase {
        ProcessPhase::Finished(Err(error)) => assert_eq!(error.code, -5),
        _ => panic!("no error"),
    }
}

fn sound(id: u64, time: i64, value: i16) -> SendableSample {
    SendableSample::new(MediaSample {
        id,
        time: Ok(time),
        duration: Ok(10),
        buffer: Ok(MediaBuffer { contents: Ok(value.to_le_bytes().to_vec()) }),
    })
}

fn work(p: &mut Processor, action: ProcessAction, reply: ProcessReply) {
    assert_eq!(p.action(), action);
    assert!(p.accepts(&reply));
    p.advance(reply);
}

fn begin(p: &mut Processor) {
    work(p, ProcessAction::CheckRecording, ProcessReply::Recording(true));
    work(p, ProcessAction::CheckEncoder, ProcessReply::EncoderFinished(false));
}

fn take_audio(p: &mut Processor, sample: SendableSample) {
    assert_eq!(p.action(), ProcessAction::ReceiveAudio);
    assert!(p.has_room_for_audio(&sample));
    p.take_audio(Ok(sample));
}

fn take_microphone(p: &mut Processor, sample: SendableSample) {
    assert_eq!(p.action(), ProcessAction::ReceiveMicrophone);
    assert!(p.has_room_for_microphone(&sample));
    p.take_microphone(Ok(sample));
}

#[test]
fn system_audio_alone_is_recorded() {
    let mut p = Processor::start(true, true, false, true);
    begin(&mut p);
    take_audio(&mut p, sound(7, 500, 3));
    assert!(matches!(&p.output, Some(MixerOutput::PassedThrough(s)) if s.id == 7));
    work(&mut p, ProcessAction::Buffer(500), fine());
    work(&mut p, ProcessAction::Write(1), fine());
    assert_eq!(p.action(), ProcessAction::CheckRecording);
    assert_eq!(p.stats.sys_only_count, 1);
}

#[test]
fn both_sources_are_mixed() {
    let mut p = Processor::start(true, true, true, false);
    begin(&mut p);
    take_audio(&mut p, sound(1, 0, 10));
    work(&mut p, ProcessAction::ReceiveMicrophone, ProcessReply::Received(Receipt::Empty));
    assert_eq!(p.action(), ProcessAction::CheckRecording);
    assert!(p.output.is_none());
    begin(&mut p);
    work(&mut p, ProcessAction::ReceiveAudio, ProcessReply::Received(Receipt::Empty));
    take_microphone(&mut p, sound(2, 4, 20));
    match &p.output {
        Some(MixerOutput::Mixed(mixed)) => {
            assert_eq!((mixed.time, mixed.duration), (0, 10));
            assert_eq!(mixed.data, vec![15, 0]);
        }
        _ => panic!("no mixed sample"),
    }
    work(&mut p, ProcessAction::Write(1), fine());
    assert_eq!(p.action(), ProcessAction::CheckRecording);
}

#[test]
fn unreadable_pairs_are_skipped() {
    let mut p = Processor::start(true, true, true, false);
    let broken = MediaSample { id: 1, time: Ok(0), duration: Ok(10), buffer: Err(-8) };
    begin(&mut p);
    take_audio(&mut p, SendableSample::new(broken));
    take_microphone(&mut p, sound(2, 0, 20));
    assert!(p.output.is_none());
    assert_eq!(p.stats.good_match_count, 1);
    assert_eq!(p.stats.total_processed_duration, 0);
    assert_eq!(p.action(), ProcessAction::CheckRecording);
}

#[test]
fn without_a_microphone_the_sound_goes_on() {
    let mut p = Processor::start(true, true, true, false);
    begin(&mut p);
    take_audio(&mut p, sound(1, 0, 10));
    let gone = ProcessReply::Received(Receipt::Disconnected);
    work(&mut p, ProcessAction::ReceiveMicrophone, gone);
    assert!(!p.mixer.both_sources_active);
    assert!(matches!(&p.output, Some(MixerOutput::PassedThrough(s)) if s.id == 1));
    work(&mut p, ProcessAction::Write(1), fine());
    begin(&mut p);
    p.take_audio(Err(system(-6)));
    assert_eq!(p.action(), ProcessAction::Finish(false));
}

#[test]
fn full_counts_are_noticed() {
    let mut p = Processor::start(true, true, true, false);
    assert!(p.has_room(true) && p.has_room(false));
    begin(&mut p);
    take_audio(&mut p, sound(1, i64::MAX - 5, 1));
    assert!(p.has_room(true) && !p.has_room(false));
    assert!(!p.accepts(&ProcessReply::Received(Receipt::Disconnected)));
    assert!(p.accepts(&ProcessReply::Received(Receipt::Empty)));
    p.stats.mic_total_duration = i64::MAX;
    assert!(!p.has_room_for_microphone(&sound(2, 0, 1)));
}

#[test]
fn only_the_next_output_has_to_be_counted() {
    let mut p = Processor::start(true, true, true, false);
    let broken = MediaSample { id: 1, time: Ok(0), duration: Ok(i64::MAX), buffer: Err(-8) };
    begin(&mut p);
    take_audio(&mut p, SendableSample::new(broken));
    p.stats.total_processed_duration = 5;
    p.stats.call_count = u32::MAX;
    p.stats.no_match_count = u32::MAX as usize;
    assert!(p.has_room(true));
    assert!(!p.has_room_for_microphone(&sound(2, 0, 20)));
    p.stats.call_count = u32::MAX - 1;
    p.stats.no_match_count = u32::MAX as usize - 1;
    take_microphone(&mut p, sound(2, 0, 20));
    assert!(p.output.is_none());
    assert_eq!(p.stats.call_count, u32::MAX);
    assert_eq!(p.action(), ProcessAction::CheckRecording);
}

#[test]
fn processing_starts_with_a_fresh_mixer() {
    let p = Processor::start(true, true, false, false);
    assert_eq!((p.mixer.max_buffer_size, p.mixer.max_time_diff_ns), (10, 200_000));
    assert_eq!((p.mixer.sample_rate, p.mixer.channels), (44100, 2));
    assert!(!p.mixer.both_sources_active);
    assert_eq!((p.stats.call_count, p.stats.min_timestamp), (0, i64::MAX));
}

#[test]
fn sound_without_a_time_stamp_is_not_taken() {
    let untimed = || MediaSample { id: 1, time: Err(-3), duration: Ok(1), buffer: Err(-8) };
    let mut p = Processor::start(true, true, true, false);
    begin(&mut p);
    assert!(!p.has_room_for_audio(&SendableSample::new(untimed())));
    take_audio(&mut p, sound(1, 0, 10));
    assert!(!p.has_room_for_microphone(&SendableSample::new(untimed())));
    p.take_microphone(Err(system(-3)));
    match &p.control.phase {
        ProcessPhase::Finished(Err(error)) => assert_eq!(error.code, -3),
        _ => panic!("not ended"),
    }
}

#[test]
fn encoded_video_is_buffered_before_it_is_written() {
    assert_eq!(delivery(true, 7), vec![DeliveryStep::Buffer(7), DeliveryStep::Write(0)]);
    assert_eq!(delivery(false, 7), vec![DeliveryStep::Write(0)]);
}

#[test]
fn changes_of_the_window_are_told_once() {
    let mut info = WindowInfo::new(None, Some((4, 4)));
    assert!(!info.take_change());
    assert!(info.update(Some((1, 2)), None));
    assert!(info.take_change());
    assert!(!info.take_change());
    assert_eq!((info.position, info.size), (Some((1, 2)), Some((4, 4))));
}
