use windows_record::device::ensure_com_initialized;
use windows_record::device::video::{
    enumerate_video_encoders, get_preferred_video_encoder_by_type, get_video_encoder_by_name,
    get_video_encoder_by_type, EncoderEntry, EncoderReply, VideoEncoder, VideoEncoderType,
};
use windows_record::error::RecorderError;
use windows_record::recorder::utils::get_encoder_guid;
use windows_record::types::Guid;

const NOT_FOUND: i32 = 0xC00D36D5u32 as i32;

fn entry(activate: u64, name: &str) -> EncoderEntry {
    EncoderEntry { activate: Some(activate), name: Some(name.to_string()) }
}

fn replies(kind: VideoEncoderType) -> EncoderReply {
    match kind {
        VideoEncoderType::H264 => Ok(vec![
            entry(1, "First"),
            EncoderEntry { activate: None, name: Some("Gone".to_string()) },
            EncoderEntry { activate: Some(2), name: None },
            entry(3, ""),
            entry(4, "First"),
            entry(5, "Second"),
        ]),
        VideoEncoderType::HEVC => Ok(vec![entry(6, "First")]),
    }
}

fn summary(encoders: &Vec<VideoEncoder>) -> Vec<(u64, &str, VideoEncoderType)> {
    encoders.iter().map(|e| (e.activate, e.name.as_str(), e.encoder_type)).collect()
}

fn listed() -> Result<Vec<VideoEncoder>, i32> {
    enumerate_video_encoders(replies)
}

#[test]
fn encoders_are_listed_once_per_name_and_kind() {
    match listed() {
        Ok(encoders) => assert_eq!(
            summary(&encoders),
            vec![
                (1, "First", VideoEncoderType::H264),
                (5, "Second", VideoEncoderType::H264),
                (6, "First", VideoEncoderType::HEVC),
            ]
        ),
        Err(_) => panic!("not listed"),
    }
}

#[test]
fn missing_kinds_are_skipped_and_other_errors_passed_on() {
    let none = enumerate_video_encoders(|kind| match kind {
        VideoEncoderType::H264 => Err(NOT_FOUND),
        VideoEncoderType::HEVC => Ok(vec![entry(6, "First")]),
    });
    assert_eq!(none.map(|e| e.len()).ok(), Some(1));
    let failed = enumerate_video_encoders(|kind| match kind {
        VideoEncoderType::H264 => Err(-5),
        VideoEncoderType::HEVC => panic!("not to be asked"),
    });
    assert_eq!(failed.err(), Some(-5));
    let failed = enumerate_video_encoders(|kind| match kind {
        VideoEncoderType::H264 => Ok(vec![]),
        VideoEncoderType::HEVC => Err(-6),
    });
    assert_eq!(failed.err(), Some(-6));
}

#[test]
fn encoders_are_found_by_name_and_kind() {
    assert_eq!(get_video_encoder_by_name("First", listed()).map(|e| e.activate), Some(1));
    assert_eq!(get_video_encoder_by_name("Second", listed()).map(|e| e.activate), Some(5));
    assert!(get_video_encoder_by_name("Third", listed()).is_none());
    assert!(get_video_encoder_by_name("First", Err(-1)).is_none());
    let hevc = get_preferred_video_encoder_by_type(VideoEncoderType::HEVC, listed());
    assert_eq!(hevc.map(|e| e.activate), Some(6));
    assert!(get_preferred_video_encoder_by_type(VideoEncoderType::HEVC, Err(-1)).is_none());
    match get_video_encoder_by_type(VideoEncoderType::H264, listed()) {
        Ok(encoder) => assert_eq!(encoder.activate, 1),
        Err(_) => panic!("not found"),
    }
    match get_video_encoder_by_type(VideoEncoderType::HEVC, Ok(vec![])) {
        Err(RecorderError::Generic(reason)) => {
            assert_eq!(reason, "No video encoder found for type: HEVC")
        }
        _ => panic!("no error"),
    }
}

#[test]
fn kinds_have_identifiers() {
    assert_eq!(VideoEncoderType::default(), VideoEncoderType::H264);
    let h264 = VideoEncoderType::H264.get_guid();
    assert_eq!(h264, Guid { value: 0x34363248_0000_0010_8000_00aa00389b71 });
    assert_eq!(VideoEncoderType::from_guid(&h264), Some(VideoEncoderType::H264));
    let hevc = VideoEncoderType::HEVC.get_guid();
    assert_eq!(VideoEncoderType::from_guid(&hevc), Some(VideoEncoderType::HEVC));
    assert_eq!(VideoEncoderType::from_guid(&Guid { value: 0 }), None);
    assert_eq!(VideoEncoderType::H264.name(), "H264");
}

#[test]
fn initialization_may_have_happened_before() {
    assert_eq!(ensure_com_initialized(Ok(())), Ok(()));
    assert_eq!(ensure_com_initialized(Err(0x800401F1u32 as i32)), Ok(()));
    assert_eq!(ensure_com_initialized(Err(-1)), Err(-1));
}

#[test]
fn encoder_identifiers_are_looked_up_by_name() {
    let list = || Ok(vec![("a".to_string(), Guid { value: 1 }), ("b".to_string(), Guid { value: 2 })]);
    assert_eq!(get_encoder_guid(Some("b"), list), Ok(Some(Guid { value: 2 })));
    assert_eq!(get_encoder_guid(Some("c"), list), Ok(None));
    assert_eq!(get_encoder_guid(None, || panic!("not to be asked")), Ok(None));
    assert_eq!(get_encoder_guid(Some("b"), || Err(-3)), Err(-3));
}

#[test]
fn the_second_kind_is_not_asked_for_after_a_failure() {
    let failed = enumerate_video_encoders(|kind| match kind {
        VideoEncoderType::H264 => Err(-5),
        VideoEncoderType::HEVC => panic!("asked for"),
    });
    assert!(matches!(failed, Err(-5)));
}
