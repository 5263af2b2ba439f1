//! A recording that goes on: its threads, its encoder and its end.
use crate::capture::window::{contains_text, is_substring};
use crate::device::video::{
    first_encoder_is_taken, get_video_encoder_by_name, get_video_encoder_by_type, is_first,
    VideoEncoder, VideoEncoderType,
};
use crate::error::{HResult, RecorderError, WindowsError};
use vstd::prelude::*;

verus! {

/// A thread of a recording.
#[derive(Debug, Clone, Copy, PartialEq, Eq, Structural)]
pub enum RecorderThread {
    /// It captures video.
    Frame,
    /// It captures system audio.
    Audio,
    /// It captures the microphone.
    Microphone,
    /// It processes samples.
    Process,
}

impl RecorderThread {
    /// What the thread is called.
    pub open spec fn name_text(self) -> Seq<char> {
        match self {
            RecorderThread::Frame => "Frame"@,
            RecorderThread::Audio => "Audio"@,
            RecorderThread::Microphone => "Microphone"@,
            RecorderThread::Process => "Process"@,
        }
    }

    /// What the thread is called.
    pub fn name(&self) -> (r: &'static str)
        ensures
            r@ == self.name_text(),
    {
        match self {
            RecorderThread::Frame => "Frame",
            RecorderThread::Audio => "Audio",
            RecorderThread::Microphone => "Microphone",
            RecorderThread::Process => "Process",
        }
    }

    /// The error for a thread that panicked.
    pub fn join_error(&self) -> (r: RecorderError)
        ensures
            r matches RecorderError::Generic(reason) && reason@ == self.name_text()
                + " Handle join failed"@,
    {
        let mut reason = self.name().to_owned();
        reason.append(" Handle join failed");
        RecorderError::Generic(reason)
    }
}

/// How a thread of a recording came to its end.
#[derive(Debug)]
pub enum ThreadEnd {
    /// It returned, and did well or not.
    Returned(Result<(), WindowsError>),
    /// It panicked.
    Panicked,
}

/// Whether threads that are waited for in turn came to these ends. A thread
/// without an end was not waited for.
pub open spec fn were_joined<I, J: Fn(&I, RecorderThread) -> ThreadEnd>(
    join: J,
    outside: &I,
    threads: Seq<RecorderThread>,
    ends: Seq<ThreadEnd>,
) -> bool {
    forall|i: int|
        0 <= i < ends.len() ==> join.ensures((outside, threads[i]), #[trigger] ends[i])
}

/// Whether `r` is what waiting for the threads comes to, where they came to
/// these ends.
///
/// The first thread that panicked is reported, and the ones behind it are not
/// waited for. That a thread returned an error is no failure.
pub open spec fn is_join_outcome(
    threads: Seq<RecorderThread>,
    ends: Seq<ThreadEnd>,
    r: Result<(), RecorderError>,
) -> bool {
    &&& ends.len() <= threads.len()
    &&& forall|i: int| 0 <= i < ends.len() - 1 ==> !((#[trigger] ends[i]) is Panicked)
    &&& if ends.len() > 0 && ends.last() is Panicked {
        r matches Err(RecorderError::Generic(reason)) && reason@
            == threads[ends.len() - 1].name_text() + " Handle join failed"@
    } else {
        ends.len() == threads.len() && r is Ok
    }
}

/// Whether a thread may come to its end without a panic.
pub open spec fn may_return<I, J: Fn(&I, RecorderThread) -> ThreadEnd>(
    join: J,
    outside: &I,
    thread: RecorderThread,
) -> bool {
    exists|result: Result<(), WindowsError>| #[trigger]
        join.ensures((outside, thread), ThreadEnd::Returned(result))
}

/// Whether all of the first `n` threads may come to their ends without a panic.
pub open spec fn may_return_before<I, J: Fn(&I, RecorderThread) -> ThreadEnd>(
    join: J,
    outside: &I,
    threads: Seq<RecorderThread>,
    n: int,
) -> bool {
    forall|k: int| 0 <= k < n ==> may_return(join, outside, #[trigger] threads[k])
}

/// Whether each thread can be waited for once the ones before it have returned.
pub open spec fn can_join<I, J: Fn(&I, RecorderThread) -> ThreadEnd>(
    join: J,
    outside: &I,
    threads: Seq<RecorderThread>,
) -> bool {
    forall|i: int|
        0 <= i < threads.len() && may_return_before(join, outside, threads, i) ==> join.requires(
            (outside, #[trigger] threads[i]),
        )
}

/// Waits for the threads in turn. `join` waits for one. It is called only where
/// all threads before have returned.
pub fn join_threads<I, J: Fn(&I, RecorderThread) -> ThreadEnd>(
    threads: &Vec<RecorderThread>,
    outside: &I,
    join: J,
) -> (r: Result<(), RecorderError>)
    requires
        can_join(join, outside, threads@),
    ensures
        exists|ends: Seq<ThreadEnd>| #[trigger]
            is_join_outcome(threads@, ends, r) && were_joined(join, outside, threads@, ends),
{
    let ghost mut ends = Seq::<ThreadEnd>::empty();
    for i in 0..threads.len()
        invariant
            can_join(join, outside, threads@),
            may_return_before(join, outside, threads@, i as int),
            ends.len() == i,
            were_joined(join, outside, threads@, ends),
            forall|k: int| 0 <= k < ends.len() ==> !((#[trigger] ends[k]) is Panicked),
    {
        let thread = threads[i];
        let end = join(outside, thread);
        proof {
            ends = ends.push(end);
        }
        match end {
            ThreadEnd::Returned(result) => {
                assert(join.ensures((outside, thread), ThreadEnd::Returned(result)));
            },
            ThreadEnd::Panicked => {
                let r = Err(thread.join_error());
                assert(is_join_outcome(threads@, ends, r));
                return r;
            },
        }
    }
    assert(is_join_outcome(threads@, ends, Ok(())));
    Ok(())
}

/// A recording that goes on, and its threads.
#[derive(Debug, Clone, Copy, PartialEq, Eq, Structural)]
pub struct RecorderInner {
    /// Whether the recording goes on.
    pub recording: bool,
    /// Whether there is a thread that captures video.
    pub has_video: bool,
    /// Whether there is a thread that captures system audio.
    pub has_audio: bool,
    /// Whether there is a thread that captures the microphone.
    pub has_microphone: bool,
    /// Whether there is a thread that processes samples.
    pub has_process: bool,
}

impl RecorderInner {
    /// A recording that was just started.
    pub open spec fn fresh(capture_audio: bool, capture_microphone: bool) -> RecorderInner {
        RecorderInner {
            recording: true,
            has_video: true,
            has_audio: capture_audio,
            has_microphone: capture_microphone,
            has_process: true,
        }
    }

    /// A recording that was just started.
    pub fn new(capture_audio: bool, capture_microphone: bool) -> (r: Self)
        ensures
            r == RecorderInner::fresh(capture_audio, capture_microphone),
    {
        RecorderInner {
            recording: true,
            has_video: true,
            has_audio: capture_audio,
            has_microphone: capture_microphone,
            has_process: true,
        }
    }

    /// Takes note of whether the recording goes on.
    pub fn note_recording(&mut self, recording: bool)
        ensures
            *final(self) == (RecorderInner { recording, ..*old(self) }),
    {
        self.recording = recording;
    }

    /// The threads of the recording, in the order in which they are waited for.
    pub open spec fn threads(self) -> Seq<RecorderThread> {
        (if self.has_video {
            seq![RecorderThread::Frame]
        } else {
            seq![]
        }) + (if self.has_audio {
            seq![RecorderThread::Audio]
        } else {
            seq![]
        }) + (if self.has_microphone {
            seq![RecorderThread::Microphone]
        } else {
            seq![]
        }) + (if self.has_process {
            seq![RecorderThread::Process]
        } else {
            seq![]
        })
    }

    /// The recording without its threads.
    pub open spec fn without_threads(self) -> RecorderInner {
        RecorderInner {
            has_video: false,
            has_audio: false,
            has_microphone: false,
            has_process: false,
            ..self
        }
    }

    /// Hands out the threads, in the order in which they are waited for.
    fn take_threads(&mut self) -> (r: Vec<RecorderThread>)
        ensures
            r@ == old(self).threads(),
            *final(self) == old(self).without_threads(),
    {
        let mut threads: Vec<RecorderThread> = Vec::new();
        if self.has_video {
            self.has_video = false;
            threads.push(RecorderThread::Frame);
        }
        if self.has_audio {
            self.has_audio = false;
            threads.push(RecorderThread::Audio);
        }
        if self.has_microphone {
            self.has_microphone = false;
            threads.push(RecorderThread::Microphone);
        }
        if self.has_process {
            self.has_process = false;
            threads.push(RecorderThread::Process);
        }
        assert(threads@ =~= old(self).threads());
        threads
    }

    /// Whether `after` is the recording once it was to be ended, and `r` what
    /// is told of that. `went_on` tells whether it went on until then, and
    /// `ends` how its threads came to their ends.
    ///
    /// A recording that has ended before keeps its threads.
    pub open spec fn stops_to(
        self,
        went_on: bool,
        ends: Seq<ThreadEnd>,
        after: RecorderInner,
        r: Result<(), RecorderError>,
    ) -> bool {
        if self.recording && went_on {
            &&& after == (RecorderInner { recording: false, ..self.without_threads() })
            &&& is_join_outcome(self.threads(), ends, r)
        } else {
            &&& after == (RecorderInner { recording: false, ..self })
            &&& r matches Err(RecorderError::RecorderAlreadyStopped)
        }
    }

    /// Ends the recording and waits for its threads. A recording can be ended
    /// once.
    ///
    /// `halt` tells the threads to end, and tells whether the recording went on
    /// until then. `join` waits for one thread. It is called only once `halt`
    /// has said yes, and neither is called where the recording was ended
    /// before.
    pub fn stop<I, H: FnOnce(&I) -> bool, J: Fn(&I, RecorderThread) -> ThreadEnd>(
        &mut self,
        outside: &I,
        halt: H,
        join: J,
    ) -> (r: Result<(), RecorderError>)
        requires
            old(self).recording ==> halt.requires((outside,)),
            old(self).recording && halt.ensures((outside,), true) ==> can_join(
                join,
                outside,
                old(self).threads(),
            ),
        ensures
            exists|went_on: bool, ends: Seq<ThreadEnd>|
                {
                    &&& #[trigger] old(self).stops_to(went_on, ends, *final(self), r)
                    &&& old(self).recording ==> halt.ensures((outside,), went_on)
                    &&& old(self).recording && went_on ==> were_joined(
                        join,
                        outside,
                        old(self).threads(),
                        ends,
                    )
                },
    {
        let ghost before = *self;
        if !self.recording {
            let r = Err(RecorderError::RecorderAlreadyStopped);
            assert(before.stops_to(false, Seq::empty(), *self, r));
            return r;
        }
        let went_on: bool = halt(outside);
        self.note_recording(false);
        if !went_on {
            let r = Err(RecorderError::RecorderAlreadyStopped);
            assert(before.stops_to(false, Seq::empty(), *self, r));
            return r;
        }
        assert(self.threads() == before.threads());
        let threads = self.take_threads();
        let r = join_threads(&threads, outside, join);
        proof {
            let ends = choose|ends: Seq<ThreadEnd>| #[trigger]
                is_join_outcome(threads@, ends, r) && were_joined(join, outside, threads@, ends);
            assert(before.stops_to(true, ends, *self, r));
        }
        r
    }
}

/// Where a recording that goes on is ended, only a thread that panicked makes a
/// failure of it: a thread that returned an error does not.
pub proof fn only_a_panic_fails_a_stop(
    inner: RecorderInner,
    ends: Seq<ThreadEnd>,
    after: RecorderInner,
    r: Result<(), RecorderError>,
)
    requires
        inner.recording,
        inner.stops_to(true, ends, after, r),
    ensures
        !after.recording,
        after.threads() == Seq::<RecorderThread>::empty(),
        r is Ok <==> forall|i: int| 0 <= i < ends.len() ==> !((#[trigger] ends[i]) is Panicked),
        r is Ok ==> ends.len() == inner.threads().len(),
        r is Err ==> r->Err_0 is Generic,
{
    assert(after.threads() =~= Seq::<RecorderThread>::empty());
    if ends.len() > 0 && ends.last() is Panicked {
        assert(ends[ends.len() - 1] is Panicked);
    }
}

/// A recording that was to be ended once is ended for good: each time it is to
/// be ended again, that is refused and changes nothing.
pub proof fn a_recording_ends_once(
    inner: RecorderInner,
    went_on: bool,
    ends: Seq<ThreadEnd>,
    after: RecorderInner,
    r: Result<(), RecorderError>,
    went_on_again: bool,
    more_ends: Seq<ThreadEnd>,
    later: RecorderInner,
    s: Result<(), RecorderError>,
)
    requires
        inner.stops_to(went_on, ends, after, r),
        after.stops_to(went_on_again, more_ends, later, s),
    ensures
        s matches Err(RecorderError::RecorderAlreadyStopped),
        later == after,
{
}

/// What a thread that captures the microphone comes to.
///
/// It is no failure that there is no microphone: the recording goes on without
/// it. `message` is the system's text for the code of the failure.
pub fn microphone_outcome(result: Result<(), WindowsError>, message: &str) -> (r: Result<
    (),
    WindowsError,
>)
    ensures
        match result {
            Ok(_) => r is Ok,
            Err(error) => if is_substring("Element not found"@, message@) {
                r is Ok
            } else {
                r == Err::<(), WindowsError>(error)
            },
        },
{
    match result {
        Ok(done) => Ok(done),
        Err(error) => {
            if contains_text(message, "Element not found") {
                Ok(())
            } else {
                Err(error)
            }
        },
    }
}

/// Whether `r` is the encoder to record with: where a name is asked for, the
/// first encoder in `by_name` with that name; else, and where there is none,
/// the first one in `by_type` of the kind.
pub open spec fn is_selected(
    name: Option<String>,
    kind: VideoEncoderType,
    by_name: Result<Vec<VideoEncoder>, HResult>,
    by_type: Result<Vec<VideoEncoder>, HResult>,
    r: Result<VideoEncoder, RecorderError>,
) -> bool {
    let named = |e: VideoEncoder| e.name@ == name->Some_0@;
    let of_kind = |e: VideoEncoder| e.encoder_type == kind;
    if name is Some && (by_name matches Ok(list) && exists|i: int|
        0 <= i < list@.len() && named(#[trigger] list@[i])) {
        r matches Ok(encoder) && is_first(by_name->Ok_0@, named, Some(encoder))
    } else {
        match r {
            Ok(encoder) => by_type matches Ok(list) && is_first(list@, of_kind, Some(encoder)),
            Err(error) => {
                &&& by_type matches Ok(list) ==> is_first(list@, of_kind, None)
                &&& error matches RecorderError::Generic(reason) && reason@
                    == "No video encoder found for type: "@ + kind.name_text()
            },
        }
    }
}

/// The encoder to record with. `list` lists the encoders of the system, and is
/// asked again where no encoder has the name that is asked for.
pub fn select_encoder<F: Fn() -> Result<Vec<VideoEncoder>, HResult>>(
    name: &Option<String>,
    kind: VideoEncoderType,
    list: F,
) -> (r: Result<VideoEncoder, RecorderError>)
    requires
        list.requires(()),
    ensures
        exists|by_name: Result<Vec<VideoEncoder>, HResult>,
            by_type: Result<Vec<VideoEncoder>, HResult>|
            {
                &&& #[trigger] list.ensures((), by_name)
                &&& #[trigger] list.ensures((), by_type)
                &&& is_selected(*name, kind, by_name, by_type, r)
            },
{
    match name {
        Some(wanted) => {
            let by_name = list();
            match get_video_encoder_by_name(wanted.as_str(), by_name) {
                Some(encoder) => {
                    assert(is_selected(*name, kind, by_name, by_name, Ok(encoder)));
                    Ok(encoder)
                },
                None => {
                    let by_type = list();
                    let r = get_video_encoder_by_type(kind, by_type);
                    assert(is_selected(*name, kind, by_name, by_type, r));
                    r
                },
            }
        },
        None => {
            let by_type = list();
            let r = get_video_encoder_by_type(kind, by_type);
            assert(is_selected(*name, kind, by_type, by_type, r));
            r
        },
    }
}

/// The threads of a recording are waited for in a fixed order: the one that
/// captures video, those that capture sound, and the one that processes samples.
pub proof fn threads_are_waited_for_in_order(audio: bool, microphone: bool)
    ensures
        ({
            let threads = RecorderInner::fresh(audio, microphone).threads();
            &&& threads[0] == RecorderThread::Frame
            &&& threads.last() == RecorderThread::Process
            &&& threads.contains(RecorderThread::Audio) <==> audio
            &&& threads.contains(RecorderThread::Microphone) <==> microphone
            &&& audio && microphone ==> threads[1] == RecorderThread::Audio && threads[2]
                == RecorderThread::Microphone
            &&& threads.len() == 2 + (if audio {
                1int
            } else {
                0
            }) + (if microphone {
                1int
            } else {
                0
            })
        }),
{
    let threads = RecorderInner::fresh(audio, microphone).threads();
    if audio {
        assert(threads[1] == RecorderThread::Audio);
    }
    if microphone {
        assert(threads[threads.len() - 2] == RecorderThread::Microphone);
    }
}

/// The encoder that is used has the name that is asked for, where one has it, and
/// is of the kind otherwise. It is the first one of those.
pub proof fn encoder_is_the_one_asked_for(
    name: Option<String>,
    kind: VideoEncoderType,
    by_name: Result<Vec<VideoEncoder>, HResult>,
    by_type: Result<Vec<VideoEncoder>, HResult>,
    r: Result<VideoEncoder, RecorderError>,
    k: int,
)
    requires
        is_selected(name, kind, by_name, by_type, r),
    ensures
        match (name, by_name) {
            (Some(text), Ok(list)) => 0 <= k < list@.len() && list@[k].name@ == text@ ==> (
            r matches Ok(encoder) && encoder.name@ == text@ && exists|i: int|
                0 <= i <= k && #[trigger] list@[i] == encoder),
            _ => true,
        },
        name is None ==> match by_type {
            Ok(list) => 0 <= k < list@.len() && list@[k].encoder_type == kind ==> (
            r matches Ok(encoder) && encoder.encoder_type == kind && exists|i: int|
                0 <= i <= k && #[trigger] list@[i] == encoder),
            Err(_) => r is Err,
        },
        r matches Ok(encoder) ==> encoder.encoder_type == kind || (name matches Some(text)
            && encoder.name@ == text@),
{
    match (name, by_name) {
        (Some(text), Ok(list)) => {
            if 0 <= k < list@.len() && list@[k].name@ == text@ {
                first_encoder_is_taken(
                    list@,
                    |e: VideoEncoder| e.name@ == name->Some_0@,
                    Some(r->Ok_0),
                    k,
                );
            }
        },
        _ => {},
    }
    match by_type {
        Ok(list) => {
            if name is None && 0 <= k < list@.len() && list@[k].encoder_type == kind {
                let of_kind = |e: VideoEncoder| e.encoder_type == kind;
                match r {
                    Ok(encoder) => {
                        first_encoder_is_taken(list@, of_kind, Some(encoder), k);
                    },
                    Err(_) => {
                        assert(!of_kind(list@[k]));
                    },
                }
            }
        },
        Err(_) => {},
    }
}

/// The first thread that panicked is the one that is named, and no thread behind
/// it is waited for.
pub proof fn first_panicked_thread_is_named(
    inner: RecorderInner,
    ends: Seq<ThreadEnd>,
    after: RecorderInner,
    r: Result<(), RecorderError>,
    k: int,
)
    requires
        inner.recording,
        inner.stops_to(true, ends, after, r),
        0 <= k < ends.len(),
        ends[k] is Panicked,
    ensures
        ends.len() == k + 1,
        k < inner.threads().len(),
        match r {
            Err(RecorderError::Generic(reason)) => match inner.threads()[k] {
                RecorderThread::Frame => reason@ == "Frame"@ + " Handle join failed"@,
                RecorderThread::Audio => reason@ == "Audio"@ + " Handle join failed"@,
                RecorderThread::Microphone => reason@ == "Microphone"@ + " Handle join failed"@,
                RecorderThread::Process => reason@ == "Process"@ + " Handle join failed"@,
            },
            _ => false,
        },
{
}

/// A recording that was ended before keeps its threads, and one that is ended
/// now gives all of them up.
pub proof fn threads_are_given_up_once(
    inner: RecorderInner,
    went_on: bool,
    ends: Seq<ThreadEnd>,
    after: RecorderInner,
    r: Result<(), RecorderError>,
)
    requires
        inner.stops_to(went_on, ends, after, r),
    ensures
        !after.recording,
        inner.recording && went_on ==> !after.has_video && !after.has_audio
            && !after.has_microphone && !after.has_process,
        !(inner.recording && went_on) ==> after.has_video == inner.has_video && after.has_audio
            == inner.has_audio && after.has_microphone == inner.has_microphone
            && after.has_process == inner.has_process,
{
}

} // verus!
