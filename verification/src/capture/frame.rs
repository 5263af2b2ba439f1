//! Taking one frame: what to do next, given what came of the last step.
use crate::error::HResult;
use crate::types::duration::MAX_NANOS;
use crate::types::Duration;
use vstd::prelude::*;

verus! {

/// The output can no longer be read and has to be opened anew.
pub const DXGI_ERROR_ACCESS_LOST: HResult = -2005270490;

/// There was no new frame in time.
pub const DXGI_ERROR_WAIT_TIMEOUT: HResult = -2005270489;

/// How many milliseconds to wait for a frame.
pub const ACQUIRE_TIMEOUT_MS: u32 = 16;

/// Why a frame could not be taken.
#[derive(Debug, Clone, Copy, PartialEq, Eq, Structural)]
pub enum FrameError {
    /// The system reported an error.
    WindowsError(HResult),
    /// Nobody receives frames any more.
    ChannelClosed,
    /// There is no texture for the frame.
    TexturePoolError,
}

/// The pace of the frames.
#[derive(Debug, Clone, Copy, PartialEq, Eq, Structural)]
pub struct FrameTiming {
    /// When the next frame is due.
    pub next_frame_time: Duration,
    /// By how much frames were late that have not been made up for.
    pub accumulated_delay: Duration,
    /// How many frames were sent twice to make up for a delay.
    pub num_duped: u64,
}

/// Where the taking of a frame stands.
#[derive(Debug, Clone, Copy, PartialEq, Eq)]
pub enum FramePhase {
    /// A frame is to be acquired from the output.
    Acquiring,
    /// The acquired frame is to be copied to a texture of the pool.
    Copying,
    /// The acquired frame is to be released before giving up.
    Abandoning(FrameError),
    /// The acquired frame is to be released; tells whether it had content.
    Releasing(bool),
    /// The cursor is to be drawn onto the texture.
    DrawingCursor,
    /// The blank texture is to be fetched.
    FetchingBlank,
    /// The texture is to be sent to make up for a delay.
    Duplicating,
    /// The texture is to be sent.
    Sending,
    /// The clock is to be read.
    ReadingClock,
    /// The time until the next frame is to be waited for.
    Sleeping(Duration),
    /// There is nothing left to do.
    Done(Result<(), FrameError>),
}

/// What to do next.
#[derive(Debug, Clone, Copy, PartialEq, Eq)]
pub enum FrameAction {
    /// Acquire a frame, and wait for it no longer than this many milliseconds.
    AcquireFrame(u32),
    /// Copy the acquired frame to a texture of the pool.
    CopyFrame,
    /// Release the acquired frame.
    ReleaseFrame,
    /// Draw the cursor onto the texture.
    DrawCursor,
    /// Fetch the blank texture.
    FetchBlank,
    /// Send the texture as the current frame.
    SendFrame,
    /// Read the clock.
    ReadClock,
    /// Wait.
    Sleep(Duration),
    /// Stop: the frame is done.
    Finish(Result<(), FrameError>),
}

/// How copying a frame went.
#[derive(Debug, Clone, Copy, PartialEq, Eq, Structural)]
pub enum CopyOutcome {
    /// The frame is in the texture.
    Copied,
    /// The pool had no texture.
    NoTexture,
    /// The frame is no texture.
    NotATexture(HResult),
}

/// What came of an action.
#[derive(Debug, Clone, Copy, PartialEq, Eq)]
pub enum FrameReply {
    /// Whether the acquired frame has content, or why none was acquired.
    Acquired(Result<bool, HResult>),
    /// How copying went.
    Copied(CopyOutcome),
    /// How releasing went.
    Released(Result<(), HResult>),
    /// The cursor was drawn, or not.
    CursorDrawn,
    /// Whether there is a blank texture.
    BlankFetched(bool),
    /// Whether the texture was sent.
    Sent(bool),
    /// The time.
    Now(Duration),
    /// The wait is over.
    Slept,
}

/// The taking of one frame.
#[derive(Debug, Clone, Copy, PartialEq, Eq)]
pub struct FrameRun {
    /// Where it stands.
    pub phase: FramePhase,
    /// The pace of the frames.
    pub timing: FrameTiming,
    /// The time between two frames.
    pub frame_duration: Duration,
    /// Whether the cursor is part of the recording.
    pub capture_cursor: bool,
}

/// What to do in a phase.
pub open spec fn action_of(phase: FramePhase) -> FrameAction {
    match phase {
        FramePhase::Acquiring => FrameAction::AcquireFrame(16),
        FramePhase::Copying => FrameAction::CopyFrame,
        FramePhase::Abandoning(_) => FrameAction::ReleaseFrame,
        FramePhase::Releasing(_) => FrameAction::ReleaseFrame,
        FramePhase::DrawingCursor => FrameAction::DrawCursor,
        FramePhase::FetchingBlank => FrameAction::FetchBlank,
        FramePhase::Duplicating => FrameAction::SendFrame,
        FramePhase::Sending => FrameAction::SendFrame,
        FramePhase::ReadingClock => FrameAction::ReadClock,
        FramePhase::Sleeping(time) => FrameAction::Sleep(time),
        FramePhase::Done(outcome) => FrameAction::Finish(outcome),
    }
}

/// A span of so many nanoseconds.
pub open spec fn span(nanos: int) -> Duration {
    Duration { nanos: nanos as u128 }
}

impl FrameTiming {
    /// The pace once a frame was sent twice.
    pub open spec fn duplicated(self, frame_duration: Duration) -> FrameTiming {
        FrameTiming {
            next_frame_time: span(self.next_frame_time@ + frame_duration@ as int),
            accumulated_delay: span(self.accumulated_delay@ - frame_duration@),
            num_duped: (self.num_duped + 1) as u64,
        }
    }

    /// By how much the frame after this one is late.
    pub open spec fn overrun(self, frame_duration: Duration, now: Duration) -> int {
        if now@ > self.next_frame_time@ + frame_duration@ {
            now@ - (self.next_frame_time@ + frame_duration@)
        } else {
            0
        }
    }

    /// The pace once a frame is done.
    pub open spec fn passed(self, frame_duration: Duration, now: Duration) -> FrameTiming {
        FrameTiming {
            next_frame_time: span(self.next_frame_time@ + frame_duration@ as int),
            accumulated_delay: span(self.accumulated_delay@ + self.overrun(frame_duration, now)),
            num_duped: self.num_duped,
        }
    }
}

/// How a frame that is late or early is dealt with: what it is late by adds to
/// the delay, and what it is early by is to be waited for.
pub fn handle_frame_timing(
    current_time: Duration,
    next_frame_time: Duration,
    accumulated_delay: &mut Duration,
) -> (r: Option<Duration>)
    requires
        current_time@ > next_frame_time@ ==> old(accumulated_delay)@ + (current_time@
            - next_frame_time@) <= MAX_NANOS,
    ensures
        current_time@ > next_frame_time@ ==> {
            &&& r is None
            &&& *final(accumulated_delay) == span(
                old(accumulated_delay)@ + (current_time@ - next_frame_time@),
            )
        },
        current_time@ <= next_frame_time@ ==> {
            &&& r == Some(span(next_frame_time@ - current_time@))
            &&& *final(accumulated_delay) == *old(accumulated_delay)
        },
{
    if current_time.nanos > next_frame_time.nanos {
        let overrun = current_time.duration_since(next_frame_time);
        *accumulated_delay = accumulated_delay.plus(overrun);
        None
    } else {
        Some(next_frame_time.duration_since(current_time))
    }
}

/// Whether two spans together are no longer than the longest span.
fn add_up(a: u128, b: u128) -> (r: bool)
    ensures
        r == (a + b <= MAX_NANOS),
{
    a <= MAX_NANOS && b <= MAX_NANOS - a
}

impl FrameRun {
    /// A frame at the start: the frame of a window that has the focus is
    /// acquired, that of any other window is blank.
    pub fn start(
        focused: bool,
        timing: FrameTiming,
        frame_duration: Duration,
        capture_cursor: bool,
    ) -> (r: Self)
        ensures
            r.timing == timing,
            r.frame_duration == frame_duration,
            r.capture_cursor == capture_cursor,
            r.phase == if focused {
                FramePhase::Acquiring
            } else {
                FramePhase::FetchingBlank
            },
            focused ==> action_of(r.phase) == FrameAction::AcquireFrame(16),
            !focused ==> action_of(r.phase) == FrameAction::FetchBlank,
    {
        let phase = if focused {
            FramePhase::Acquiring
        } else {
            FramePhase::FetchingBlank
        };
        FrameRun { phase, timing, frame_duration, capture_cursor }
    }

    /// What to do next.
    pub fn action(&self) -> (r: FrameAction)
        ensures
            r == action_of(self.phase),
    {
        match self.phase {
            FramePhase::Acquiring => FrameAction::AcquireFrame(ACQUIRE_TIMEOUT_MS),
            FramePhase::Copying => FrameAction::CopyFrame,
            FramePhase::Abandoning(_) => FrameAction::ReleaseFrame,
            FramePhase::Releasing(_) => FrameAction::ReleaseFrame,
            FramePhase::DrawingCursor => FrameAction::DrawCursor,
            FramePhase::FetchingBlank => FrameAction::FetchBlank,
            FramePhase::Duplicating => FrameAction::SendFrame,
            FramePhase::Sending => FrameAction::SendFrame,
            FramePhase::ReadingClock => FrameAction::ReadClock,
            FramePhase::Sleeping(time) => FrameAction::Sleep(time),
            FramePhase::Done(outcome) => FrameAction::Finish(outcome),
        }
    }

    /// Whether a reply answers the action at hand, and no span of time gets
    /// out of range.
    pub open spec fn expects(self, reply: FrameReply) -> bool {
        match (self.phase, reply) {
            (FramePhase::Acquiring, FrameReply::Acquired(_)) => true,
            (FramePhase::Copying, FrameReply::Copied(_)) => true,
            (FramePhase::Abandoning(_), FrameReply::Released(_)) => true,
            (FramePhase::Releasing(_), FrameReply::Released(_)) => true,
            (FramePhase::DrawingCursor, FrameReply::CursorDrawn) => true,
            (FramePhase::FetchingBlank, FrameReply::BlankFetched(_)) => true,
            (FramePhase::Duplicating, FrameReply::Sent(_)) => {
                &&& self.timing.next_frame_time@ + self.frame_duration@ <= MAX_NANOS
                &&& self.frame_duration@ <= self.timing.accumulated_delay@
                &&& self.timing.num_duped < u64::MAX
            },
            (FramePhase::Sending, FrameReply::Sent(_)) => true,
            (FramePhase::ReadingClock, FrameReply::Now(now)) => {
                &&& self.timing.next_frame_time@ + self.frame_duration@ <= MAX_NANOS
                &&& self.timing.accumulated_delay@ + self.timing.overrun(self.frame_duration, now)
                    <= MAX_NANOS
            },
            (FramePhase::Sleeping(_), FrameReply::Slept) => true,
            _ => false,
        }
    }

    /// Computes `expects`.
    pub fn accepts(&self, reply: &FrameReply) -> (r: bool)
        ensures
            r == self.expects(*reply),
    {
        match (self.phase, *reply) {
            (FramePhase::Acquiring, FrameReply::Acquired(_)) => true,
            (FramePhase::Copying, FrameReply::Copied(_)) => true,
            (FramePhase::Abandoning(_), FrameReply::Released(_)) => true,
            (FramePhase::Releasing(_), FrameReply::Released(_)) => true,
            (FramePhase::DrawingCursor, FrameReply::CursorDrawn) => true,
            (FramePhase::FetchingBlank, FrameReply::BlankFetched(_)) => true,
            (FramePhase::Duplicating, FrameReply::Sent(_)) => {
                add_up(self.timing.next_frame_time.nanos, self.frame_duration.nanos)
                    && self.frame_duration.nanos <= self.timing.accumulated_delay.nanos
                    && self.timing.num_duped < u64::MAX
            },
            (FramePhase::Sending, FrameReply::Sent(_)) => true,
            (FramePhase::ReadingClock, FrameReply::Now(now)) => {
                if !add_up(self.timing.next_frame_time.nanos, self.frame_duration.nanos) {
                    return false;
                }
                let next: u128 = self.timing.next_frame_time.nanos + self.frame_duration.nanos;
                let overrun: u128 = if now.nanos > next {
                    now.nanos - next
                } else {
                    0
                };
                add_up(self.timing.accumulated_delay.nanos, overrun)
            },
            (FramePhase::Sleeping(_), FrameReply::Slept) => true,
            _ => false,
        }
    }

    /// The phase in which a texture is sent: more than once where the delay is
    /// at least a frame long.
    pub open spec fn sending(self) -> FramePhase {
        if self.timing.accumulated_delay@ >= self.frame_duration@ {
            FramePhase::Duplicating
        } else {
            FramePhase::Sending
        }
    }

    /// The taking of the frame after a reply.
    pub open spec fn next(self, reply: FrameReply) -> FrameRun {
        match (self.phase, reply) {
            (FramePhase::Acquiring, FrameReply::Acquired(Ok(content))) => FrameRun {
                phase: if content {
                    FramePhase::Copying
                } else {
                    FramePhase::Releasing(false)
                },
                ..self
            },
            (FramePhase::Acquiring, FrameReply::Acquired(Err(code))) => FrameRun {
                phase: if code == DXGI_ERROR_WAIT_TIMEOUT {
                    FramePhase::ReadingClock
                } else {
                    FramePhase::Done(Err(FrameError::WindowsError(code)))
                },
                ..self
            },
            (FramePhase::Copying, FrameReply::Copied(outcome)) => FrameRun {
                phase: match outcome {
                    CopyOutcome::Copied => FramePhase::Releasing(true),
                    CopyOutcome::NoTexture => FramePhase::Abandoning(FrameError::TexturePoolError),
                    CopyOutcome::NotATexture(code) => FramePhase::Abandoning(
                        FrameError::WindowsError(code),
                    ),
                },
                ..self
            },
            (FramePhase::Abandoning(error), FrameReply::Released(_)) => FrameRun {
                phase: FramePhase::Done(Err(error)),
                ..self
            },
            (FramePhase::Releasing(content), FrameReply::Released(Ok(_))) => FrameRun {
                phase: if !content {
                    FramePhase::ReadingClock
                } else if self.capture_cursor {
                    FramePhase::DrawingCursor
                } else {
                    self.sending()
                },
                ..self
            },
            (FramePhase::Releasing(_), FrameReply::Released(Err(code))) => FrameRun {
                phase: FramePhase::Done(Err(FrameError::WindowsError(code))),
                ..self
            },
            (FramePhase::DrawingCursor, FrameReply::CursorDrawn) => FrameRun {
                phase: self.sending(),
                ..self
            },
            (FramePhase::FetchingBlank, FrameReply::BlankFetched(found)) => FrameRun {
                phase: if found {
                    self.sending()
                } else {
                    FramePhase::Done(Err(FrameError::TexturePoolError))
                },
                ..self
            },
            (FramePhase::Duplicating, FrameReply::Sent(true)) => {
                let sent = FrameRun { timing: self.timing.duplicated(self.frame_duration), ..self };
                FrameRun { phase: sent.sending(), ..sent }
            },
            (FramePhase::Sending, FrameReply::Sent(true)) => FrameRun {
                phase: FramePhase::ReadingClock,
                ..self
            },
            (_, FrameReply::Sent(false)) => FrameRun {
                phase: FramePhase::Done(Err(FrameError::ChannelClosed)),
                ..self
            },
            (FramePhase::ReadingClock, FrameReply::Now(now)) => {
                let due = self.timing.next_frame_time@ + self.frame_duration@;
                FrameRun {
                    timing: self.timing.passed(self.frame_duration, now),
                    phase: if now@ > due {
                        FramePhase::Done(Ok(()))
                    } else {
                        FramePhase::Sleeping(span(due - now@))
                    },
                    ..self
                }
            },
            (FramePhase::Sleeping(_), FrameReply::Slept) => FrameRun {
                phase: FramePhase::Done(Ok(())),
                ..self
            },
            _ => self,
        }
    }

    /// Computes `sending`.
    fn sending_phase(&self) -> (r: FramePhase)
        ensures
            r == self.sending(),
    {
        if self.timing.accumulated_delay.nanos >= self.frame_duration.nanos {
            FramePhase::Duplicating
        } else {
            FramePhase::Sending
        }
    }

    /// Goes on after a reply.
    pub fn advance(&mut self, reply: FrameReply)
        requires
            old(self).expects(reply),
        ensures
            *final(self) == old(self).next(reply),
    {
        match (self.phase, reply) {
            (FramePhase::Acquiring, FrameReply::Acquired(Ok(content))) => {
                self.phase = if content {
                    FramePhase::Copying
                } else {
                    FramePhase::Releasing(false)
                };
            },
            (FramePhase::Acquiring, FrameReply::Acquired(Err(code))) => {
                self.phase = if code == DXGI_ERROR_WAIT_TIMEOUT {
                    FramePhase::ReadingClock
                } else {
                    FramePhase::Done(Err(FrameError::WindowsError(code)))
                };
            },
            (FramePhase::Copying, FrameReply::Copied(CopyOutcome::Copied)) => {
                self.phase = FramePhase::Releasing(true);
            },
            (FramePhase::Copying, FrameReply::Copied(CopyOutcome::NoTexture)) => {
                self.phase = FramePhase::Abandoning(FrameError::TexturePoolError);
            },
            (FramePhase::Copying, FrameReply::Copied(CopyOutcome::NotATexture(code))) => {
                self.phase = FramePhase::Abandoning(FrameError::WindowsError(code));
            },
            (FramePhase::Abandoning(error), FrameReply::Released(_)) => {
                self.phase = FramePhase::Done(Err(error));
            },
            (FramePhase::Releasing(content), FrameReply::Released(Ok(_))) => {
                self.phase = if !content {
                    FramePhase::ReadingClock
                } else if self.capture_cursor {
                    FramePhase::DrawingCursor
                } else {
                    self.sending_phase()
                };
            },
            (FramePhase::Releasing(_), FrameReply::Released(Err(code))) => {
                self.phase = FramePhase::Done(Err(FrameError::WindowsError(code)));
            },
            (FramePhase::DrawingCursor, FrameReply::CursorDrawn) => {
                self.phase = self.sending_phase();
            },
            (FramePhase::FetchingBlank, FrameReply::BlankFetched(found)) => {
                self.phase = if found {
                    self.sending_phase()
                } else {
                    FramePhase::Done(Err(FrameError::TexturePoolError))
                };
            },
            (FramePhase::Duplicating, FrameReply::Sent(true)) => {
                self.timing.next_frame_time = self.timing.next_frame_time.plus(self.frame_duration);
                self.timing.accumulated_delay = self.timing.accumulated_delay.minus(
                    self.frame_duration,
                );
                self.timing.num_duped = self.timing.num_duped + 1;
                self.phase = self.sending_phase();
            },
            (FramePhase::Sending, FrameReply::Sent(true)) => {
                self.phase = FramePhase::ReadingClock;
            },
            (_, FrameReply::Sent(false)) => {
                self.phase = FramePhase::Done(Err(FrameError::ChannelClosed));
            },
            (FramePhase::ReadingClock, FrameReply::Now(now)) => {
                self.timing.next_frame_time = self.timing.next_frame_time.plus(self.frame_duration);
                let wait = handle_frame_timing(
                    now,
                    self.timing.next_frame_time,
                    &mut self.timing.accumulated_delay,
                );
                self.phase = match wait {
                    Some(time) => FramePhase::Sleeping(time),
                    None => FramePhase::Done(Ok(())),
                };
            },
            (FramePhase::Sleeping(_), FrameReply::Slept) => {
                self.phase = FramePhase::Done(Ok(()));
            },
            _ => {},
        }
    }
}

/// Whether every reply of a run answers the action at hand.
pub open spec fn is_run(f: FrameRun, replies: Seq<FrameReply>) -> bool
    decreases replies.len(),
{
    replies.len() > 0 ==> f.expects(replies[0]) && is_run(f.next(replies[0]), replies.drop_first())
}

/// The taking of the frame after all replies of a run.
pub open spec fn after(f: FrameRun, replies: Seq<FrameReply>) -> FrameRun
    decreases replies.len(),
{
    if replies.len() == 0 {
        f
    } else {
        after(f.next(replies[0]), replies.drop_first())
    }
}

/// How many times a run takes an action.
pub open spec fn times(f: FrameRun, replies: Seq<FrameReply>, action: FrameAction) -> nat
    decreases replies.len(),
{
    if replies.len() == 0 {
        0
    } else {
        let rest = times(f.next(replies[0]), replies.drop_first(), action);
        if action_of(f.phase) == action {
            rest + 1
        } else {
            rest
        }
    }
}

/// Whether an acquired frame has not been released yet in a phase.
pub open spec fn holds_frame(phase: FramePhase) -> bool {
    phase is Copying || phase is Abandoning || phase is Releasing
}

/// A frame that is held is released exactly once before the run is over.
proof fn held_frame_is_released(f: FrameRun, replies: Seq<FrameReply>)
    requires
        is_run(f, replies),
        after(f, replies).phase is Done,
        !(f.phase is Acquiring),
    ensures
        times(f, replies, FrameAction::ReleaseFrame) == if holds_frame(f.phase) {
            1nat
        } else {
            0nat
        },
    decreases replies.len(),
{
    if replies.len() > 0 {
        held_frame_is_released(f.next(replies[0]), replies.drop_first());
    }
}

/// A frame is released if and only if it was acquired, and then once.
pub proof fn released_iff_acquired(f: FrameRun, replies: Seq<FrameReply>)
    requires
        f.phase is Acquiring || f.phase is FetchingBlank,
        is_run(f, replies),
        after(f, replies).phase is Done,
    ensures
        times(f, replies, FrameAction::ReleaseFrame) == if replies[0] matches FrameReply::Acquired(
            Ok(_),
        ) {
            1nat
        } else {
            0nat
        },
{
    assert(replies.len() > 0);
    held_frame_is_released(f.next(replies[0]), replies.drop_first());
}

/// Whether a texture is at hand or to come in a phase of a run that goes well.
pub open spec fn has_texture(phase: FramePhase) -> bool {
    match phase {
        FramePhase::DrawingCursor => true,
        FramePhase::Duplicating => true,
        FramePhase::Sending => true,
        FramePhase::Copying => true,
        FramePhase::FetchingBlank => true,
        FramePhase::Releasing(content) => content,
        _ => false,
    }
}

/// Whether the next frame is still to be waited for in a phase.
pub open spec fn is_pending(phase: FramePhase) -> bool {
    !(phase is Done || phase is Sleeping)
}

/// What a run that ends well comes to.
proof fn pace_of_run(f: FrameRun, replies: Seq<FrameReply>)
    requires
        is_run(f, replies),
        after(f, replies).phase == FramePhase::Done(Ok(())),
        !(f.phase is Acquiring),
        f.phase is Duplicating ==> f.sending() is Duplicating,
        f.phase is Sending ==> f.sending() is Sending,
    ensures
        ({
            let end = after(f, replies);
            let duped = end.timing.num_duped - f.timing.num_duped;
            &&& !(f.phase is Abandoning)
            &&& f.phase matches FramePhase::Done(outcome) ==> outcome is Ok
            &&& duped >= 0
            &&& is_pending(f.phase) ==> end.timing.next_frame_time@
                == f.timing.next_frame_time@ + duped * f.frame_duration@ + f.frame_duration@
            &&& !is_pending(f.phase) ==> duped == 0 && end.timing == f.timing
            &&& times(f, replies, FrameAction::SendFrame) == duped + if has_texture(f.phase) {
                1int
            } else {
                0
            }
            &&& has_texture(f.phase) ==> duped * f.frame_duration@ <= f.timing.accumulated_delay@
                < (duped + 1) * f.frame_duration@
            &&& !has_texture(f.phase) ==> duped == 0
        }),
    decreases replies.len(),
{
    if replies.len() > 0 {
        let g = f.next(replies[0]);
        pace_of_run(g, replies.drop_first());
        let end = after(f, replies);
        let duped = end.timing.num_duped - f.timing.num_duped;
        let fd = f.frame_duration@ as int;
        if f.phase is Duplicating {
            assert(duped * fd == (duped - 1) * fd + fd) by (nonlinear_arith);
            assert((duped + 1) * fd == duped * fd + fd) by (nonlinear_arith);
        }
        assert(duped == 0 ==> duped * fd == 0 && (duped + 1) * fd == fd) by (nonlinear_arith);
    }
}

/// A frame that is taken well moves the pace on by one frame, and by one more
/// for each frame that is sent twice. Where there is a texture, it is sent as
/// many times over as there are whole frames in the delay, so that less than
/// one frame of it is left.
pub proof fn delay_is_made_up_for(f: FrameRun, replies: Seq<FrameReply>)
    requires
        f.phase is Acquiring || f.phase is FetchingBlank,
        is_run(f, replies),
        after(f, replies).phase == FramePhase::Done(Ok(())),
    ensures
        ({
            let end = after(f, replies);
            let duped = end.timing.num_duped - f.timing.num_duped;
            let sent = times(f, replies, FrameAction::SendFrame);
            &&& end.timing.next_frame_time@ == f.timing.next_frame_time@ + duped
                * f.frame_duration@ + f.frame_duration@
            &&& sent == 0 || sent == duped + 1
            &&& sent == 0 ==> duped == 0
            &&& sent > 0 ==> duped * f.frame_duration@ <= f.timing.accumulated_delay@ < (duped + 1)
                * f.frame_duration@
        }),
{
    assert(replies.len() > 0);
    let fd = f.frame_duration@ as int;
    assert(0 * fd == 0) by (nonlinear_arith);
    if f.phase is Acquiring {
        pace_of_run(f.next(replies[0]), replies.drop_first());
    } else {
        pace_of_run(f, replies);
    }
}

/// Making up for a delay moves the pace on by as much as it takes off the
/// delay.
pub proof fn duplicating_keeps_time(f: FrameRun)
    requires
        f.phase is Duplicating,
        f.expects(FrameReply::Sent(true)),
    ensures
        ({
            let g = f.next(FrameReply::Sent(true));
            g.timing.next_frame_time@ + g.timing.accumulated_delay@ == f.timing.next_frame_time@
                + f.timing.accumulated_delay@
        }),
{
}

/// Whether a frame with content was acquired, copied and released well.
pub open spec fn took_picture(replies: Seq<FrameReply>) -> bool {
    &&& replies.len() >= 3
    &&& replies[0] == FrameReply::Acquired(Ok(true))
    &&& replies[1] == FrameReply::Copied(CopyOutcome::Copied)
    &&& replies[2] matches FrameReply::Released(Ok(_))
}

/// Whether the cursor is still to be drawn in a phase, given the replies to come.
spec fn cursor_ahead(f: FrameRun, replies: Seq<FrameReply>) -> bool {
    f.capture_cursor && replies.len() > 0 && match f.phase {
        FramePhase::Acquiring => took_picture(replies),
        FramePhase::Copying => replies.len() >= 2 && replies[0] == FrameReply::Copied(
            CopyOutcome::Copied,
        ) && (replies[1] matches FrameReply::Released(Ok(_))),
        FramePhase::Releasing(content) => content && (replies[0] matches FrameReply::Released(
            Ok(_),
        )),
        FramePhase::DrawingCursor => true,
        _ => false,
    }
}

/// How often the cursor is drawn from a phase on.
proof fn cursor_from_here(f: FrameRun, replies: Seq<FrameReply>)
    requires
        is_run(f, replies),
        f.phase is DrawingCursor ==> f.capture_cursor,
    ensures
        !f.capture_cursor ==> times(f, replies, FrameAction::DrawCursor) == 0,
        times(f, replies, FrameAction::DrawCursor) <= 1,
        !(f.phase is Acquiring || f.phase is Copying || f.phase is Releasing
            || f.phase is DrawingCursor) ==> times(f, replies, FrameAction::DrawCursor) == 0,
        after(f, replies).phase is Done ==> times(f, replies, FrameAction::DrawCursor)
            == if cursor_ahead(f, replies) {
            1nat
        } else {
            0nat
        },
    decreases replies.len(),
{
    reveal_with_fuel(after, 3);
    if replies.len() > 0 {
        let rest = replies.drop_first();
        cursor_from_here(f.next(replies[0]), rest);
        if rest.len() > 0 {
            assert(rest[0] == replies[1]);
        }
        if rest.len() > 1 {
            assert(rest[1] == replies[2]);
        }
    }
}

/// The cursor is never drawn where it is not part of the recording. Where it is,
/// it is drawn once onto each picture of the window that was taken well, and
/// onto nothing else.
pub proof fn cursor_is_drawn_as_asked(f: FrameRun, replies: Seq<FrameReply>)
    requires
        f.phase is Acquiring || f.phase is FetchingBlank,
        is_run(f, replies),
    ensures
        !f.capture_cursor ==> times(f, replies, FrameAction::DrawCursor) == 0,
        after(f, replies).phase is Done && f.capture_cursor ==> times(
            f,
            replies,
            FrameAction::DrawCursor,
        ) == if took_picture(replies) {
            1nat
        } else {
            0nat
        },
{
    cursor_from_here(f, replies);
}

/// What was done before a phase, as the phase tells.
spec fn has_done(
    phase: FramePhase,
    capture_cursor: bool,
    acquired: nat,
    released: nat,
    drawn: nat,
) -> bool {
    match phase {
        FramePhase::Acquiring => acquired == 0 && released == 0 && drawn == 0,
        FramePhase::FetchingBlank => acquired == 0 && released == 0 && drawn == 0,
        FramePhase::Copying => acquired == 1 && released == 0 && drawn == 0,
        FramePhase::Abandoning(_) => acquired == 1 && released == 0 && drawn == 0,
        FramePhase::Releasing(_) => acquired == 1 && released == 0 && drawn == 0,
        FramePhase::DrawingCursor => acquired == 1 && released == 1 && drawn == 0 && capture_cursor,
        FramePhase::Duplicating => acquired == released && (capture_cursor ==> drawn == acquired),
        FramePhase::Sending => acquired == released && (capture_cursor ==> drawn == acquired),
        _ => true,
    }
}

/// What was done is told by the phase that it led to.
proof fn done_so_far(
    f: FrameRun,
    replies: Seq<FrameReply>,
    acquired: nat,
    released: nat,
    drawn: nat,
)
    requires
        is_run(f, replies),
        has_done(f.phase, f.capture_cursor, acquired, released, drawn),
    ensures
        ({
            let end = after(f, replies);
            has_done(
                end.phase,
                f.capture_cursor,
                acquired + times_acquired(f, replies),
                released + times(f, replies, FrameAction::ReleaseFrame),
                drawn + times(f, replies, FrameAction::DrawCursor),
            )
        }),
    decreases replies.len(),
{
    if replies.len() > 0 {
        let g = f.next(replies[0]);
        let rest = replies.drop_first();
        let a: nat = if replies[0] matches FrameReply::Acquired(Ok(_)) {
            1
        } else {
            0
        };
        let r: nat = if action_of(f.phase) == FrameAction::ReleaseFrame {
            1
        } else {
            0
        };
        let d: nat = if action_of(f.phase) == FrameAction::DrawCursor {
            1
        } else {
            0
        };
        assert(has_done(g.phase, g.capture_cursor, acquired + a, released + r, drawn + d));
        done_so_far(g, rest, acquired + a, released + r, drawn + d);
    }
}

/// How many frames a run acquires.
pub open spec fn times_acquired(f: FrameRun, replies: Seq<FrameReply>) -> nat
    decreases replies.len(),
{
    if replies.len() == 0 {
        0
    } else {
        times_acquired(f.next(replies[0]), replies.drop_first())
            + if replies[0] matches FrameReply::Acquired(Ok(_)) {
            1nat
        } else {
            0nat
        }
    }
}

/// Whenever a picture is to be sent, an acquired frame was released before, and
/// the cursor is on it where it is part of the recording.
pub proof fn picture_is_ready_when_it_is_sent(f: FrameRun, replies: Seq<FrameReply>)
    requires
        f.phase is Acquiring || f.phase is FetchingBlank,
        is_run(f, replies),
        action_of(after(f, replies).phase) == FrameAction::SendFrame,
    ensures
        times(f, replies, FrameAction::ReleaseFrame) == times_acquired(f, replies),
        f.capture_cursor ==> times(f, replies, FrameAction::DrawCursor) == times_acquired(
            f,
            replies,
        ),
{
    done_so_far(f, replies, 0, 0, 0);
}

/// A run that ends well has sent a picture if and only if the frame that was
/// acquired had content, or the blank texture was there.
pub proof fn pictures_are_sent(f: FrameRun, replies: Seq<FrameReply>)
    requires
        f.phase is Acquiring || f.phase is FetchingBlank,
        is_run(f, replies),
        after(f, replies).phase == FramePhase::Done(Ok(())),
    ensures
        times(f, replies, FrameAction::SendFrame) > 0 <==> (replies[0] == FrameReply::Acquired(
            Ok(true),
        ) || replies[0] == FrameReply::BlankFetched(true)),
        f.phase is Acquiring ==> (replies[0] matches FrameReply::Acquired(_)) && times(
            f,
            replies,
            FrameAction::FetchBlank,
        ) == 0,
        f.phase is FetchingBlank ==> (replies[0] matches FrameReply::BlankFetched(_))
            && times_acquired(f, replies) == 0,
{
    assert(replies.len() > 0);
    let g = f.next(replies[0]);
    let rest = replies.drop_first();
    pace_of_run(g, rest);
    blank_is_fetched_first(g, rest);
}

/// Once it is past its first step, a run neither acquires nor fetches anything.
proof fn blank_is_fetched_first(f: FrameRun, replies: Seq<FrameReply>)
    requires
        is_run(f, replies),
        !(f.phase is Acquiring || f.phase is FetchingBlank),
    ensures
        times(f, replies, FrameAction::FetchBlank) == 0,
        times_acquired(f, replies) == 0,
    decreases replies.len(),
{
    if replies.len() > 0 {
        blank_is_fetched_first(f.next(replies[0]), replies.drop_first());
    }
}

/// That there was no frame in time is no failure: the run goes on without one.
/// Any other failure to acquire a frame ends it with that code.
pub proof fn only_a_timeout_is_passed_over(f: FrameRun, code: HResult)
    requires
        f.phase is Acquiring,
    ensures
        code == -2005270489 ==> {
            let g = f.next(FrameReply::Acquired(Err(code)));
            action_of(g.phase) == FrameAction::ReadClock && g.timing == f.timing
        },
        code != -2005270489 ==> action_of(f.next(FrameReply::Acquired(Err(code))).phase)
            == FrameAction::Finish(Err(FrameError::WindowsError(code))),
{
}

/// Why a run failed, from the replies that it ended with.
pub proof fn failures_tell_their_cause(f: FrameRun, replies: Seq<FrameReply>)
    requires
        f.phase is Acquiring || f.phase is FetchingBlank,
        is_run(f, replies),
        after(f, replies).phase is Done,
    ensures
        after(f, replies).phase == FramePhase::Done(Err(FrameError::ChannelClosed)) <==> replies.last()
            == FrameReply::Sent(false),
        after(f, replies).phase == FramePhase::Done(Err(FrameError::TexturePoolError)) <==> (
        replies.last() == FrameReply::BlankFetched(false) || (replies.len() == 3 && replies[1]
            == FrameReply::Copied(CopyOutcome::NoTexture))),
        replies.len() >= 2 ==> match replies[1] {
            FrameReply::Copied(CopyOutcome::NotATexture(code)) => after(f, replies).phase
                == FramePhase::Done(Err(FrameError::WindowsError(code))),
            FrameReply::Copied(CopyOutcome::NoTexture) => true,
            _ => match replies.last() {
                FrameReply::Released(Err(code)) => after(f, replies).phase == FramePhase::Done(
                    Err(FrameError::WindowsError(code)),
                ),
                _ => true,
            },
        },
{
    reveal_with_fuel(after, 4);
    reveal_with_fuel(is_run, 4);
    assert(replies.len() > 0);
    let g = f.next(replies[0]);
    let rest = replies.drop_first();
    if rest.len() > 0 {
        assert(rest[0] == replies[1]);
        assert(rest.last() == replies.last());
        if g.phase is Copying {
            let h = g.next(rest[0]);
            let tail = rest.drop_first();
            if tail.len() > 0 {
                assert(tail.last() == replies.last());
                assert(tail[0] == replies[2]);
                let k = h.next(tail[0]);
                let end = tail.drop_first();
                if h.phase is Abandoning {
                    nothing_follows_the_end(k, end);
                } else {
                    how_sending_ends(h, tail);
                }
            }
        } else if g.phase is Done {
            nothing_follows_the_end(g, rest);
        } else {
            how_sending_ends(g, rest);
        }
    }
}

/// A run that is over goes no further.
proof fn nothing_follows_the_end(f: FrameRun, replies: Seq<FrameReply>)
    requires
        is_run(f, replies),
        f.phase is Done,
    ensures
        replies.len() == 0,
{
}

/// How a run ends from where nothing is held to copy.
proof fn how_sending_ends(f: FrameRun, replies: Seq<FrameReply>)
    requires
        is_run(f, replies),
        after(f, replies).phase is Done,
        !(f.phase is Acquiring || f.phase is FetchingBlank || f.phase is Copying
            || f.phase is Abandoning),
    ensures
        replies.len() > 0 ==> {
            &&& after(f, replies).phase == FramePhase::Done(
                Err(FrameError::ChannelClosed),
            ) <==> replies.last() == FrameReply::Sent(false)
            &&& after(f, replies).phase != FramePhase::Done(Err(FrameError::TexturePoolError))
            &&& !(replies.last() matches FrameReply::BlankFetched(_))
            &&& replies.last() matches FrameReply::Released(Err(code)) ==> after(f, replies).phase
                == FramePhase::Done(Err(FrameError::WindowsError(code)))
        },
        replies.len() == 0 ==> after(f, replies) == f,
    decreases replies.len(),
{
    reveal_with_fuel(after, 3);
    if replies.len() > 0 {
        let rest = replies.drop_first();
        if rest.len() > 0 {
            assert(rest.last() == replies.last());
        }
        how_sending_ends(f.next(replies[0]), rest);
    }
}

/// How a run that ends well keeps the pace, from a phase on.
proof fn last_steps(f: FrameRun, replies: Seq<FrameReply>)
    requires
        is_run(f, replies),
        after(f, replies).phase == FramePhase::Done(Ok(())),
        is_pending(f.phase),
    ensures
        ends_in_time(f, replies),
    decreases replies.len(),
{
    reveal_with_fuel(after, 3);
    reveal_with_fuel(is_run, 3);
    let n = replies.len() as int;
    let rest = replies.drop_first();
    let g = f.next(replies[0]);
    if is_pending(g.phase) {
        last_steps(g, rest);
        assert(rest[n - 2] == replies[n - 1]);
        if n >= 3 {
            assert(rest[n - 3] == replies[n - 2]);
        }
        let end = after(f, replies);
        let fd = f.frame_duration@ as int;
        let duped = end.timing.num_duped - f.timing.num_duped;
        if f.phase is Duplicating {
            assert(duped * fd == (duped - 1) * fd + fd) by (nonlinear_arith);
        }
    } else if g.phase is Sleeping {
        assert(rest.len() > 0);
        let h = g.next(rest[0]);
        assert(rest[0] == replies[1]);
        nothing_follows_the_end(h, rest.drop_first());
        assert(times(h, rest.drop_first(), action_of(g.phase)) == 0);
        assert(times(g, rest, action_of(g.phase)) == 1);
        assert(0 * (f.frame_duration@ as int) == 0) by (nonlinear_arith);
    } else {
        nothing_follows_the_end(g, rest);
        assert(0 * (f.frame_duration@ as int) == 0) by (nonlinear_arith);
    }
}

/// Whether a run ends when the next frame is due, by the clock that it read.
///
/// Where that is still to come, it waits for exactly what is left until then.
/// Where it is past, exactly what it is past by adds to the delay.
pub open spec fn ends_in_time(f: FrameRun, replies: Seq<FrameReply>) -> bool {
    let n = replies.len() as int;
    let end = after(f, replies);
    let duped = end.timing.num_duped - f.timing.num_duped;
    let delay = f.timing.accumulated_delay@ - duped * f.frame_duration@;
    let due = end.timing.next_frame_time@ as int;
    ||| n >= 1 && (replies[n - 1] matches FrameReply::Now(now) && {
        &&& now@ > due
        &&& end.timing.accumulated_delay@ == delay + (now@ - due)
    })
    ||| n >= 2 && replies[n - 1] == FrameReply::Slept && (replies[n - 2] matches FrameReply::Now(
        now,
    ) && {
        &&& now@ <= due
        &&& end.timing.accumulated_delay@ == delay
        &&& times(f, replies, FrameAction::Sleep(Duration { nanos: (due - now@) as u128 })) == 1
    })
}

/// A run that ends well ends when the next frame is due.
pub proof fn frames_keep_the_pace(f: FrameRun, replies: Seq<FrameReply>)
    requires
        f.phase is Acquiring || f.phase is FetchingBlank,
        is_run(f, replies),
        after(f, replies).phase == FramePhase::Done(Ok(())),
    ensures
        ends_in_time(f, replies),
{
    last_steps(f, replies);
}

} // verus!
