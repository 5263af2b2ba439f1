//! The video encoders of the system.
use crate::error::{HResult, RecorderError};
use crate::types::Guid;
use vstd::prelude::*;

verus! {

/// There is nothing of the kind that was asked for.
pub const MF_E_NOT_FOUND: HResult = -1072875819;

/// The identifier of H.264 video.
pub const VIDEO_FORMAT_H264: u128 = 0x34363248_0000_0010_8000_00aa00389b71;

/// The identifier of H.265 video.
pub const VIDEO_FORMAT_HEVC: u128 = 0x43564548_0000_0010_8000_00aa00389b71;

/// The kinds of video encoders that the recorder knows.
#[derive(Debug, Clone, Copy, PartialEq, Eq, Hash, Structural)]
pub enum VideoEncoderType {
    /// H.264 Advanced Video Coding.
    H264,
    /// H.265 High Efficiency Video Coding.
    HEVC,
}

impl Default for VideoEncoderType {
    /// H.264.
    fn default() -> (r: Self)
        ensures
            r == VideoEncoderType::H264,
    {
        VideoEncoderType::H264
    }
}

impl VideoEncoderType {
    /// The identifier of the video format.
    pub open spec fn guid(self) -> Guid {
        match self {
            VideoEncoderType::H264 => Guid { value: VIDEO_FORMAT_H264 },
            VideoEncoderType::HEVC => Guid { value: VIDEO_FORMAT_HEVC },
        }
    }

    /// The identifier of the video format.
    pub fn get_guid(&self) -> (r: Guid)
        ensures
            r == self.guid(),
    {
        match self {
            VideoEncoderType::H264 => Guid { value: VIDEO_FORMAT_H264 },
            VideoEncoderType::HEVC => Guid { value: VIDEO_FORMAT_HEVC },
        }
    }

    /// The kind of encoder for a video format, if the recorder knows it.
    pub fn from_guid(guid: &Guid) -> (r: Option<Self>)
        ensures
            match r {
                Some(kind) => kind.guid() == *guid,
                None => forall|kind: VideoEncoderType| (#[trigger] kind.guid()) != *guid,
            },
    {
        if guid.value == VIDEO_FORMAT_H264 {
            Some(VideoEncoderType::H264)
        } else if guid.value == VIDEO_FORMAT_HEVC {
            Some(VideoEncoderType::HEVC)
        } else {
            None
        }
    }

    /// What the kind is called.
    pub open spec fn name_text(self) -> Seq<char> {
        match self {
            VideoEncoderType::H264 => "H264"@,
            VideoEncoderType::HEVC => "HEVC"@,
        }
    }

    /// What the kind is called.
    pub fn name(&self) -> (r: &'static str)
        ensures
            r@ == self.name_text(),
    {
        match self {
            VideoEncoderType::H264 => "H264",
            VideoEncoderType::HEVC => "HEVC",
        }
    }

    /// The two kinds have different identifiers, so that an identifier stands
    /// for at most one kind.
    pub proof fn guids_differ(a: VideoEncoderType, b: VideoEncoderType)
        requires
            a.guid() == b.guid(),
        ensures
            a == b,
    {
    }
}

/// A video encoder of the system.
#[derive(Debug, Clone)]
pub struct VideoEncoder {
    /// The number of the system object that makes the encoder.
    pub activate: u64,
    /// The name of the encoder.
    pub name: String,
    /// The kind of the encoder.
    pub encoder_type: VideoEncoderType,
}

/// An entry of the system's list of encoders.
#[derive(Debug)]
pub struct EncoderEntry {
    /// The number of the system object that makes the encoder, if there is one.
    pub activate: Option<u64>,
    /// The name of the encoder, if it can be read.
    pub name: Option<String>,
}

/// Whether an encoder with a name and a kind is in a list.
pub open spec fn is_listed(
    encoders: Seq<VideoEncoder>,
    name: Seq<char>,
    kind: VideoEncoderType,
) -> bool {
    exists|i: int|
        0 <= i < encoders.len() && (#[trigger] encoders[i]).name@ == name
            && encoders[i].encoder_type == kind
}

/// The encoder that an entry stands for: one that can be made and has a name.
pub open spec fn encoder_of(entry: EncoderEntry, kind: VideoEncoderType) -> Option<VideoEncoder> {
    match (entry.activate, entry.name) {
        (Some(activate), Some(name)) => if name@.len() > 0 {
            Some(VideoEncoder { activate, name, encoder_type: kind })
        } else {
            None
        },
        _ => None,
    }
}

/// A list of encoders with the ones from the system's entries for a kind added
/// to it, except those whose name is listed for that kind.
pub open spec fn with_entries(
    encoders: Seq<VideoEncoder>,
    kind: VideoEncoderType,
    entries: Seq<EncoderEntry>,
) -> Seq<VideoEncoder>
    decreases entries.len(),
{
    if entries.len() == 0 {
        encoders
    } else {
        let before = with_entries(encoders, kind, entries.drop_last());
        match encoder_of(entries.last(), kind) {
            Some(encoder) => if is_listed(before, encoder.name@, kind) {
                before
            } else {
                before.push(encoder)
            },
            None => before,
        }
    }
}

/// What the system says when it is asked for its encoders of a kind.
pub type EncoderReply = Result<Vec<EncoderEntry>, HResult>;

/// A list of encoders with the ones of a reply added, or the code of the
/// failure. It is no failure that there are none.
pub open spec fn with_reply(
    encoders: Seq<VideoEncoder>,
    kind: VideoEncoderType,
    reply: EncoderReply,
) -> Result<Seq<VideoEncoder>, HResult> {
    match reply {
        Ok(entries) => Ok(with_entries(encoders, kind, entries@)),
        Err(code) => if code == MF_E_NOT_FOUND {
            Ok(encoders)
        } else {
            Err(code)
        },
    }
}

/// Whether no two encoders in a list have the same name and the same kind.
pub open spec fn are_distinct(encoders: Seq<VideoEncoder>) -> bool {
    forall|i: int, j: int|
        0 <= i < j < encoders.len() ==> (#[trigger] encoders[i]).name@ != (
        #[trigger] encoders[j]).name@ || encoders[i].encoder_type != encoders[j].encoder_type
}

/// Computes `is_listed`.
fn has_encoder(encoders: &Vec<VideoEncoder>, name: &String, kind: VideoEncoderType) -> (r: bool)
    ensures
        r == is_listed(encoders@, name@, kind),
{
    for i in 0..encoders.len()
        invariant
            forall|k: int|
                0 <= k < i ==> !((#[trigger] encoders@[k]).name@ == name@
                    && encoders@[k].encoder_type == kind),
    {
        if encoders[i].name == *name && encoders[i].encoder_type == kind {
            return true;
        }
    }
    false
}

/// Adds the encoders of a reply to a list.
pub fn add_encoders(
    encoders: &mut Vec<VideoEncoder>,
    kind: VideoEncoderType,
    reply: &EncoderReply,
) -> (r: Result<(), HResult>)
    ensures
        match with_reply(old(encoders)@, kind, *reply) {
            Ok(list) => r is Ok && final(encoders)@ == list,
            Err(code) => r == Err::<(), HResult>(code) && final(encoders)@ == old(encoders)@,
        },
{
    let entries = match reply {
        Ok(entries) => entries,
        Err(code) => {
            if *code == MF_E_NOT_FOUND {
                return Ok(());
            } else {
                return Err(*code);
            }
        },
    };
    assert(entries@.take(0) =~= Seq::<EncoderEntry>::empty());
    for i in 0..entries.len()
        invariant
            encoders@ == with_entries(old(encoders)@, kind, entries@.take(i as int)),
    {
        assert(entries@.take(i + 1).drop_last() =~= entries@.take(i as int));
        let entry = &entries[i];
        match (entry.activate, &entry.name) {
            (Some(activate), Some(name)) => {
                if !name.as_str().is_empty() && !has_encoder(encoders, name, kind) {
                    encoders.push(
                        VideoEncoder { activate, name: name.clone(), encoder_type: kind },
                    );
                }
            },
            _ => {},
        }
    }
    assert(entries@.take(entries@.len() as int) =~= entries@);
    Ok(())
}

/// The video encoders of the system: those for H.264, then those for H.265.
///
/// `query` asks the system for its encoders of a kind. It is not asked for the
/// second kind where asking for the first one failed.
pub fn enumerate_video_encoders<F: Fn(VideoEncoderType) -> EncoderReply>(query: F) -> (r: Result<
    Vec<VideoEncoder>,
    HResult,
>)
    requires
        query.requires((VideoEncoderType::H264,)),
        forall|first: EncoderReply| #[trigger]
            query.ensures((VideoEncoderType::H264,), first) && (with_reply(
                Seq::empty(),
                VideoEncoderType::H264,
                first,
            ) is Ok) ==> query.requires((VideoEncoderType::HEVC,)),
    ensures
        exists|first: EncoderReply| #[trigger]
            query.ensures((VideoEncoderType::H264,), first) && match with_reply(
                Seq::empty(),
                VideoEncoderType::H264,
                first,
            ) {
                Err(code) => r == Err::<Vec<VideoEncoder>, HResult>(code),
                Ok(list) => exists|second: EncoderReply| #[trigger]
                    query.ensures((VideoEncoderType::HEVC,), second) && match with_reply(
                        list,
                        VideoEncoderType::HEVC,
                        second,
                    ) {
                        Err(code) => r == Err::<Vec<VideoEncoder>, HResult>(code),
                        Ok(all) => r matches Ok(encoders) && encoders@ == all,
                    },
            },
{
    let mut encoders: Vec<VideoEncoder> = Vec::new();
    let first = query(VideoEncoderType::H264);
    match add_encoders(&mut encoders, VideoEncoderType::H264, &first) {
        Ok(_) => {},
        Err(code) => {
            return Err(code);
        },
    }
    let second = query(VideoEncoderType::HEVC);
    match add_encoders(&mut encoders, VideoEncoderType::HEVC, &second) {
        Ok(_) => {},
        Err(code) => {
            return Err(code);
        },
    }
    Ok(encoders)
}

/// Adding the encoders of a reply to a list without duplicates brings in none,
/// and keeps what is listed in its place.
pub proof fn entries_stay_distinct(
    encoders: Seq<VideoEncoder>,
    kind: VideoEncoderType,
    entries: Seq<EncoderEntry>,
)
    requires
        are_distinct(encoders),
    ensures
        are_distinct(with_entries(encoders, kind, entries)),
        encoders.is_prefix_of(with_entries(encoders, kind, entries)),
    decreases entries.len(),
{
    if entries.len() > 0 {
        let before = with_entries(encoders, kind, entries.drop_last());
        entries_stay_distinct(encoders, kind, entries.drop_last());
        match encoder_of(entries.last(), kind) {
            Some(encoder) => {
                if !is_listed(before, encoder.name@, kind) {
                    let longer = before.push(encoder);
                    assert forall|i: int, j: int| 0 <= i < j < longer.len() implies (
                    #[trigger] longer[i]).name@ != (#[trigger] longer[j]).name@
                        || longer[i].encoder_type != longer[j].encoder_type by {
                        if j == before.len() {
                            assert(before[i] == longer[i]);
                        }
                    }
                }
            },
            None => {},
        }
    }
}

/// Every encoder that the system lists with a name is in the list.
pub proof fn entries_are_listed(
    encoders: Seq<VideoEncoder>,
    kind: VideoEncoderType,
    entries: Seq<EncoderEntry>,
    n: int,
)
    requires
        0 <= n < entries.len(),
        encoder_of(entries[n], kind) is Some,
    ensures
        is_listed(
            with_entries(encoders, kind, entries),
            encoder_of(entries[n], kind)->Some_0.name@,
            kind,
        ),
    decreases entries.len(),
{
    let name = encoder_of(entries[n], kind)->Some_0.name@;
    let before = with_entries(encoders, kind, entries.drop_last());
    let all = with_entries(encoders, kind, entries);
    if n < entries.len() - 1 {
        entries_are_listed(encoders, kind, entries.drop_last(), n);
        let i = choose|i: int|
            0 <= i < before.len() && (#[trigger] before[i]).name@ == name && before[i].encoder_type
                == kind;
        assert(all[i] == before[i]);
    } else {
        if !is_listed(before, name, kind) {
            assert(all[before.len() as int].name@ == name);
        }
    }
}

/// Whether this is the first encoder in a list that meets a condition.
pub open spec fn is_first(
    encoders: Seq<VideoEncoder>,
    wanted: spec_fn(VideoEncoder) -> bool,
    r: Option<VideoEncoder>,
) -> bool {
    match r {
        Some(encoder) => exists|i: int|
            0 <= i < encoders.len() && #[trigger] encoders[i] == encoder && wanted(encoder)
                && forall|k: int| 0 <= k < i ==> !wanted(#[trigger] encoders[k]),
        None => forall|k: int| 0 <= k < encoders.len() ==> !wanted(#[trigger] encoders[k]),
    }
}

/// The first video encoder with a name. There is none where the encoders could
/// not be listed.
pub fn get_video_encoder_by_name(name: &str, encoders: Result<Vec<VideoEncoder>, HResult>) -> (r:
    Option<VideoEncoder>)
    ensures
        match encoders {
            Ok(list) => is_first(list@, |e: VideoEncoder| e.name@ == name@, r),
            Err(_) => r is None,
        },
{
    let wanted = name.to_owned();
    match encoders {
        Ok(list) => {
            let mut list = list;
            let n: usize = list.len();
            for i in 0..n
                invariant
                    n == list@.len(),
                    list@ == encoders->Ok_0@,
                    encoders is Ok,
                    wanted@ == name@,
                    forall|k: int| 0 <= k < i ==> (#[trigger] list@[k]).name@ != name@,
            {
                if list[i].name == wanted {
                    let ghost found = list@[i as int];
                    assert(encoders->Ok_0@[i as int] == found);
                    return Some(list.swap_remove(i));
                }
            }
            None
        },
        Err(_) => None,
    }
}

/// The first video encoder of a kind. There is none where the encoders could
/// not be listed.
pub fn get_preferred_video_encoder_by_type(
    encoder_type: VideoEncoderType,
    encoders: Result<Vec<VideoEncoder>, HResult>,
) -> (r: Option<VideoEncoder>)
    ensures
        match encoders {
            Ok(list) => is_first(list@, |e: VideoEncoder| e.encoder_type == encoder_type, r),
            Err(_) => r is None,
        },
{
    match encoders {
        Ok(list) => {
            let mut list = list;
            let n: usize = list.len();
            for i in 0..n
                invariant
                    n == list@.len(),
                    list@ == encoders->Ok_0@,
                    encoders is Ok,
                    forall|k: int| 0 <= k < i ==> (#[trigger] list@[k]).encoder_type != encoder_type,
            {
                if list[i].encoder_type == encoder_type {
                    let ghost found = list@[i as int];
                    assert(encoders->Ok_0@[i as int] == found);
                    return Some(list.swap_remove(i));
                }
            }
            None
        },
        Err(_) => None,
    }
}

/// The first video encoder of a kind, or an error that names the kind.
pub fn get_video_encoder_by_type(
    encoder_type: VideoEncoderType,
    encoders: Result<Vec<VideoEncoder>, HResult>,
) -> (r: Result<VideoEncoder, RecorderError>)
    ensures
        match r {
            Ok(encoder) => encoders matches Ok(list) && is_first(
                list@,
                |e: VideoEncoder| e.encoder_type == encoder_type,
                Some(encoder),
            ),
            Err(error) => {
                &&& encoders matches Ok(list) ==> is_first(
                    list@,
                    |e: VideoEncoder| e.encoder_type == encoder_type,
                    None,
                )
                &&& error matches RecorderError::Generic(reason) && reason@
                    == "No video encoder found for type: "@ + encoder_type.name_text()
            },
        },
{
    match get_preferred_video_encoder_by_type(encoder_type, encoders) {
        Some(encoder) => Ok(encoder),
        None => {
            let mut reason = "No video encoder found for type: ".to_owned();
            reason.append(encoder_type.name());
            Err(RecorderError::Generic(reason))
        },
    }
}

/// Whether an entry of the system's list has an object and a name.
pub open spec fn is_named(entry: EncoderEntry, name: Seq<char>) -> bool {
    entry.activate is Some && (entry.name matches Some(text) && text@ == name) && name.len() > 0
}

/// An encoder that is added to a list is of the kind that was asked for, and is the
/// first one that the system lists by its name.
pub proof fn listed_encoders_are_the_systems(
    encoders: Seq<VideoEncoder>,
    kind: VideoEncoderType,
    entries: Seq<EncoderEntry>,
    i: int,
)
    requires
        encoders.len() <= i < with_entries(encoders, kind, entries).len(),
    ensures
        ({
            let encoder = with_entries(encoders, kind, entries)[i];
            &&& encoder.encoder_type == kind
            &&& exists|n: int|
                {
                    &&& 0 <= n < entries.len()
                    &&& is_named(#[trigger] entries[n], encoder.name@)
                    &&& entries[n].activate == Some(encoder.activate)
                    &&& forall|k: int|
                        0 <= k < n ==> !is_named(#[trigger] entries[k], encoder.name@)
                }
        }),
    decreases entries.len(),
{
    if entries.len() > 0 {
        let front = entries.drop_last();
        let last = entries.len() - 1;
        let before = with_entries(encoders, kind, front);
        let all = with_entries(encoders, kind, entries);
        if i < before.len() {
            listed_encoders_are_the_systems(encoders, kind, front, i);
            assert(all[i] == before[i]);
            let n = choose|n: int|
                {
                    &&& 0 <= n < front.len()
                    &&& is_named(#[trigger] front[n], before[i].name@)
                    &&& front[n].activate == Some(before[i].activate)
                    &&& forall|k: int|
                        0 <= k < n ==> !is_named(#[trigger] front[k], before[i].name@)
                };
            assert(entries[n] == front[n]);
            assert forall|k: int| 0 <= k < n implies !is_named(
                #[trigger] entries[k],
                all[i].name@,
            ) by {
                assert(front[k] == entries[k]);
            }
        } else {
            let encoder = encoder_of(entries[last], kind)->Some_0;
            assert(all[i] == encoder);
            assert(is_named(entries[last], encoder.name@));
            assert forall|k: int| 0 <= k < last implies !is_named(
                #[trigger] entries[k],
                encoder.name@,
            ) by {
                if is_named(entries[k], encoder.name@) {
                    assert(front[k] == entries[k]);
                    entries_are_listed(encoders, kind, front, k);
                }
            }
        }
    }
}

/// Every entry of the system's list that has an object and a name is in the list
/// for its kind.
pub proof fn named_entries_are_listed(
    encoders: Seq<VideoEncoder>,
    kind: VideoEncoderType,
    entries: Seq<EncoderEntry>,
    n: int,
    name: Seq<char>,
)
    requires
        0 <= n < entries.len(),
        is_named(entries[n], name),
    ensures
        exists|i: int|
            {
                &&& 0 <= i < with_entries(encoders, kind, entries).len()
                &&& (#[trigger] with_entries(encoders, kind, entries)[i]).name@ == name
                &&& with_entries(encoders, kind, entries)[i].encoder_type == kind
            },
{
    entries_are_listed(encoders, kind, entries, n);
}

/// It is no failure that the system has no encoder of a kind. Any other failure is
/// handed on, and nothing is listed then.
pub proof fn only_missing_encoders_are_passed_over(
    encoders: Seq<VideoEncoder>,
    kind: VideoEncoderType,
    code: HResult,
)
    ensures
        code == -1072875819 ==> (with_reply(encoders, kind, Err(code)) matches Ok(list) && list
            == encoders),
        code != -1072875819 ==> (with_reply(encoders, kind, Err(code)) matches Err(reported)
            && reported == code),
{
}

/// The encoder that is taken is the first one in the list that meets the
/// condition, and none is taken only where none meets it.
pub proof fn first_encoder_is_taken(
    encoders: Seq<VideoEncoder>,
    wanted: spec_fn(VideoEncoder) -> bool,
    r: Option<VideoEncoder>,
    k: int,
)
    requires
        is_first(encoders, wanted, r),
        0 <= k < encoders.len(),
        wanted(encoders[k]),
    ensures
        r matches Some(encoder) && wanted(encoder) && exists|i: int|
            0 <= i <= k && #[trigger] encoders[i] == encoder,
{
}

/// Each kind goes by the identifier that the system knows its format by.
pub proof fn kinds_go_by_their_formats()
    ensures
        VideoEncoderType::H264.guid().value == 0x34363248_0000_0010_8000_00aa00389b71,
        VideoEncoderType::HEVC.guid().value == 0x43564548_0000_0010_8000_00aa00389b71,
{
}

} // verus!
