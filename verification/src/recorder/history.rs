//! What starting and ending recordings, in any order, comes to.
use crate::error::{
    error_reads_like_words_and_code, windows_error_text, RecorderError, Result, WindowsError,
};
use crate::recorder::inner::ThreadEnd;
use crate::recorder::Recorder;
use vstd::prelude::*;

verus! {

/// A call on a recorder.
pub enum RecorderCall<I> {
    /// A recording was to be started: what came of the start, and what was told
    /// of it.
    Start(std::result::Result<I, WindowsError>, Result<()>),
    /// The recording was to be ended: whether it went on until then, how its
    /// threads came to their ends, and what was told of that.
    Stop(bool, Seq<ThreadEnd>, Result<()>),
}

/// Whether a call takes the recorder from one state to another.
pub open spec fn leads_to<I>(before: Recorder<I>, call: RecorderCall<I>, after: Recorder<I>) -> bool {
    match call {
        RecorderCall::Start(started, r) => before.starts_to(started, after, r),
        RecorderCall::Stop(went_on, ends, r) => before.stops_to(went_on, ends, after, r),
    }
}

/// Whether calls on a new recorder take it through these states.
pub open spec fn is_history<I>(states: Seq<Recorder<I>>, calls: Seq<RecorderCall<I>>) -> bool {
    &&& states.len() == calls.len() + 1
    &&& states[0].rec_inner is None
    &&& forall|i: int|
        0 <= i < calls.len() ==> leads_to(states[i], #[trigger] calls[i], states[i + 1])
}

/// Whether a call has started a recording.
pub open spec fn is_good_start<I>(call: RecorderCall<I>) -> bool {
    call matches RecorderCall::Start(_, Ok(_))
}

/// Whether one of the first `n` calls has started a recording.
pub open spec fn was_started<I>(calls: Seq<RecorderCall<I>>, n: int) -> bool {
    exists|j: int| 0 <= j < n && is_good_start(#[trigger] calls[j])
}

/// Whether one of the first `n` calls was to end the recording, and none behind
/// it has started another.
pub open spec fn was_stopped<I>(calls: Seq<RecorderCall<I>>, n: int) -> bool {
    exists|k: int|
        0 <= k < n && (#[trigger] calls[k]) is Stop && forall|l: int|
            k < l < n ==> !is_good_start(#[trigger] calls[l])
}

/// There is a recording once one was started, and it goes on until it was to be
/// ended.
pub proof fn calls_tell_the_state<I>(
    states: Seq<Recorder<I>>,
    calls: Seq<RecorderCall<I>>,
    n: int,
)
    requires
        is_history(states, calls),
        0 <= n <= calls.len(),
    ensures
        states[n].rec_inner is Some <==> was_started(calls, n),
        was_started(calls, n) ==> (states[n].goes_on() <==> !was_stopped(calls, n)),
    decreases n,
{
    if n > 0 {
        let m = n - 1;
        calls_tell_the_state(states, calls, m);
        assert(leads_to(states[m], calls[m], states[m + 1]));
        if was_started(calls, m) {
            let j = choose|j: int| 0 <= j < m && is_good_start(#[trigger] calls[j]);
            assert(is_good_start(calls[j]));
        }
        if was_stopped(calls, m) && !is_good_start(calls[m]) {
            let k = choose|k: int|
                0 <= k < m && (#[trigger] calls[k]) is Stop && forall|l: int|
                    k < l < m ==> !is_good_start(#[trigger] calls[l]);
            assert(calls[k] is Stop);
        }
        if calls[m] is Stop {
            assert(was_stopped(calls, n));
        }
        if is_good_start(calls[m]) {
            assert(!was_stopped(calls, n));
        }
    }
}

/// What ending a recording tells, whatever was called before.
///
/// There is nothing to end unless a start has gone well. The first time after
/// such a start goes well, where the recording went on until then and no thread
/// panicked. Each further time until the next such start is refused.
pub proof fn stops_answer_starts<I>(
    states: Seq<Recorder<I>>,
    calls: Seq<RecorderCall<I>>,
    n: int,
    went_on: bool,
    ends: Seq<ThreadEnd>,
    r: Result<()>,
)
    requires
        is_history(states, calls),
        0 <= n < calls.len(),
        calls[n] == RecorderCall::<I>::Stop(went_on, ends, r),
    ensures
        !was_started(calls, n) <==> (r matches Err(RecorderError::NoRecorderBound)),
        was_started(calls, n) && was_stopped(calls, n) ==> (
        r matches Err(RecorderError::RecorderAlreadyStopped)),
        was_started(calls, n) && !was_stopped(calls, n) && went_on && (forall|i: int|
            0 <= i < ends.len() ==> !((#[trigger] ends[i]) is Panicked)) ==> r is Ok,
        r is Ok ==> was_started(calls, n) && !was_stopped(calls, n) && went_on,
{
    calls_tell_the_state(states, calls, n);
    assert(leads_to(states[n], calls[n], states[n + 1]));
}

/// A start that fails leaves the recorder as it was.
pub proof fn failed_start_changes_nothing<I>(
    before: Recorder<I>,
    started: std::result::Result<I, WindowsError>,
    after: Recorder<I>,
    r: Result<()>,
)
    requires
        before.starts_to(started, after, r),
        r is Err,
    ensures
        after == before,
{
}

/// A start goes by the settings: it is refused without a name, and where it goes
/// well there is a recording that goes on, with a thread for each kind of sound
/// that is recorded. The settings stay as they are.
pub proof fn starts_go_by_the_settings<I>(
    before: Recorder<I>,
    started: std::result::Result<I, WindowsError>,
    after: Recorder<I>,
    r: Result<()>,
)
    requires
        before.starts_to(started, after, r),
    ensures
        before.process_name is None <==> (r matches Err(RecorderError::NoProcessSpecified)),
        r is Ok <==> before.process_name is Some && started is Ok,
        r is Ok ==> (after.rec_inner matches Some(recording) && {
            &&& recording.control.recording
            &&& recording.control.has_video
            &&& recording.control.has_process
            &&& recording.control.has_audio == before.config.capture_audio
            &&& recording.control.has_microphone == before.config.capture_microphone
            &&& started == Ok::<I, WindowsError>(recording.outside)
        }),
        after.config == before.config,
        after.process_name == before.process_name,
        after.use_exact_match == before.use_exact_match,
{
}

/// A start that fails tells the words of the system.
pub proof fn failed_start_tells_the_words<I>(
    before: Recorder<I>,
    error: WindowsError,
    after: Recorder<I>,
    r: Result<()>,
)
    requires
        before.starts_to(Err(error), after, r),
        before.process_name is Some,
    ensures
        match r {
            Err(RecorderError::FailedToStart(reason)) => error.message@.is_prefix_of(reason@),
            _ => false,
        },
{
    error_reads_like_words_and_code(error);
    let text = windows_error_text(error);
    assert(error.message@ =~= text.subrange(0, error.message@.len() as int));
}

/// Ending a recording leaves the settings and what of the recording is outside as
/// they are.
pub proof fn stops_keep_the_settings<I>(
    before: Recorder<I>,
    went_on: bool,
    ends: Seq<ThreadEnd>,
    after: Recorder<I>,
    r: Result<()>,
)
    requires
        before.stops_to(went_on, ends, after, r),
    ensures
        after.config == before.config,
        after.process_name == before.process_name,
        after.use_exact_match == before.use_exact_match,
        after.rec_inner is Some <==> before.rec_inner is Some,
        before.rec_inner is Some ==> after.rec_inner->Some_0.outside
            == before.rec_inner->Some_0.outside,
        !after.goes_on(),
{
}

} // verus!
