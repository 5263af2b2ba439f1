//! Taking frame after frame of a window.
use crate::capture::frame::{
    action_of, FrameAction, FrameError, FramePhase, FrameReply, FrameRun, FrameTiming,
    DXGI_ERROR_ACCESS_LOST, DXGI_ERROR_WAIT_TIMEOUT,
};
use crate::capture::tracker::{is_due, place_in, size_in, WindowRect, WindowTracker};
use crate::capture::window::{
    goes_by, recorded_window_goes_by_the_name, window_named, WindowCandidate, WindowHandle,
};
use crate::error::HResult;
use crate::types::Duration;
use vstd::prelude::*;

verus! {

/// How many textures and samples frames are taken with.
pub const POOL_CAPACITY: usize = 10;

/// How long to wait for a window that is gone, in milliseconds.
pub const WINDOW_RETRY_MS: u64 = 1;

/// How long to wait for an output that cannot be opened, in milliseconds.
pub const OUTPUT_RETRY_MS: u64 = 100;

/// The time between two frames at a rate of `fps_num / fps_den` per second.
pub fn frame_interval(fps_num: u32, fps_den: u32) -> (r: Duration)
    requires
        fps_num > 0,
    ensures
        r@ == 1_000_000_000 * fps_den as int / fps_num as int,
        r.wf(),
{
    Duration::from_nanos(1_000_000_000 * fps_den as u64 / fps_num as u64)
}

/// Where the capture stands.
#[derive(Debug)]
pub enum CapturePhase {
    /// Does the recording go on?
    Checking,
    /// What time is it? The window may have to be checked.
    Validating,
    /// Is the window still there?
    Probing,
    /// Is there a window by its name?
    Searching,
    /// Is there one now?
    Retrying,
    /// Where is the window that was found?
    Retargeting(WindowHandle),
    /// The output is to be opened for the window that was found.
    Reopening,
    /// What time is it? The place of the window may have to be asked for.
    Locating,
    /// Where is the window?
    Measuring,
    /// The place and the size of the window are to be passed on.
    Reporting((i32, i32), (u32, u32)),
    /// The output is to be opened again.
    Opening,
    /// There is to be a break.
    Waiting(Duration),
    /// Which window has the focus?
    Focusing,
    /// A frame is being taken.
    Taking(FrameRun),
    /// The capture is over.
    Finished(Result<(), HResult>),
}

/// What to do next.
#[derive(Debug, PartialEq, Eq)]
pub enum CaptureAction {
    /// Find out whether the recording goes on.
    CheckRecording,
    /// Read the clock.
    ReadClock,
    /// Find out whether a window is valid and visible.
    CheckWindow(WindowHandle),
    /// List the windows on the desktop.
    ListWindows,
    /// Read the clock, and find out where a window is.
    ReadWindow(WindowHandle),
    /// Find out where a window is.
    ReadRect(WindowHandle),
    /// Open the output.
    OpenOutput,
    /// Pass on the place and the size of the window.
    SendWindowInfo((i32, i32), (u32, u32)),
    /// Wait.
    Sleep(Duration),
    /// Find out which window has the focus.
    ReadForeground,
    /// Take this step of the frame with this number.
    Frame(FrameAction, u64),
    /// Stop: the capture is over.
    Finish(Result<(), HResult>),
}

/// What came of an action.
#[derive(Debug)]
pub enum CaptureReply {
    /// Whether the recording goes on.
    Recording(bool),
    /// The time.
    Now(Duration),
    /// Whether the window is valid and visible.
    Valid(bool),
    /// The windows on the desktop.
    Windows(Vec<WindowCandidate>),
    /// The time, and where the window is.
    Window(Duration, Option<WindowRect>),
    /// Where the window is.
    Rect(Option<WindowRect>),
    /// Whether the output was opened.
    Opened(bool),
    /// The place and the size were passed on, or not.
    InfoSent,
    /// The wait is over.
    Slept,
    /// The window that has the focus.
    Foreground(WindowHandle),
    /// What came of a step of the frame.
    Frame(FrameReply),
}

/// The capture of a window.
#[derive(Debug)]
pub struct CaptureLoop {
    /// Where it stands.
    pub phase: CapturePhase,
    /// The window.
    pub tracker: WindowTracker,
    /// Whether the output is open.
    pub output_open: bool,
    /// How many frames were taken.
    pub frame_count: u64,
    /// The pace of the frames.
    pub timing: FrameTiming,
    /// The time between two frames.
    pub frame_duration: Duration,
    /// Whether the cursor is part of the recording.
    pub capture_cursor: bool,
}

/// What to do in a phase.
pub open spec fn capture_action(c: CaptureLoop) -> CaptureAction {
    match c.phase {
        CapturePhase::Checking => CaptureAction::CheckRecording,
        CapturePhase::Validating => CaptureAction::ReadClock,
        CapturePhase::Probing => CaptureAction::CheckWindow(c.tracker.hwnd),
        CapturePhase::Searching => CaptureAction::ListWindows,
        CapturePhase::Retrying => CaptureAction::ListWindows,
        CapturePhase::Retargeting(hwnd) => CaptureAction::ReadWindow(hwnd),
        CapturePhase::Reopening => CaptureAction::OpenOutput,
        CapturePhase::Locating => CaptureAction::ReadClock,
        CapturePhase::Measuring => CaptureAction::ReadRect(c.tracker.hwnd),
        CapturePhase::Reporting(place, size) => CaptureAction::SendWindowInfo(place, size),
        CapturePhase::Opening => CaptureAction::OpenOutput,
        CapturePhase::Waiting(time) => CaptureAction::Sleep(time),
        CapturePhase::Focusing => CaptureAction::ReadForeground,
        CapturePhase::Taking(run) => CaptureAction::Frame(action_of(run.phase), c.frame_count),
        CapturePhase::Finished(outcome) => CaptureAction::Finish(outcome),
    }
}

impl CaptureLoop {
    /// Whether frames are taken from an open output only, and a frame that is
    /// being taken is not done.
    pub open spec fn wf(self) -> bool {
        match self.phase {
            CapturePhase::Focusing => self.output_open,
            CapturePhase::Taking(run) => {
                &&& self.output_open
                &&& !(run.phase is Done)
                &&& run.frame_duration == self.frame_duration
                &&& run.capture_cursor == self.capture_cursor
            },
            _ => true,
        }
    }

    /// The capture at the start, with the first frame due now.
    pub fn start(
        tracker: WindowTracker,
        output_open: bool,
        now: Duration,
        frame_duration: Duration,
        capture_cursor: bool,
    ) -> (r: Self)
        ensures
            r.wf(),
            r == (CaptureLoop {
                phase: CapturePhase::Checking,
                tracker,
                output_open,
                frame_count: 0,
                timing: FrameTiming {
                    next_frame_time: now,
                    accumulated_delay: Duration { nanos: 0 },
                    num_duped: 0,
                },
                frame_duration,
                capture_cursor,
            }),
    {
        CaptureLoop {
            phase: CapturePhase::Checking,
            tracker,
            output_open,
            frame_count: 0,
            timing: FrameTiming {
                next_frame_time: now,
                accumulated_delay: Duration { nanos: 0 },
                num_duped: 0,
            },
            frame_duration,
            capture_cursor,
        }
    }

    /// What to do next.
    pub fn action(&self) -> (r: CaptureAction)
        ensures
            r == capture_action(*self),
    {
        match &self.phase {
            CapturePhase::Checking => CaptureAction::CheckRecording,
            CapturePhase::Validating => CaptureAction::ReadClock,
            CapturePhase::Probing => CaptureAction::CheckWindow(self.tracker.hwnd),
            CapturePhase::Searching => CaptureAction::ListWindows,
            CapturePhase::Retrying => CaptureAction::ListWindows,
            CapturePhase::Retargeting(hwnd) => CaptureAction::ReadWindow(*hwnd),
            CapturePhase::Reopening => CaptureAction::OpenOutput,
            CapturePhase::Locating => CaptureAction::ReadClock,
            CapturePhase::Measuring => CaptureAction::ReadRect(self.tracker.hwnd),
            CapturePhase::Reporting(place, size) => CaptureAction::SendWindowInfo(*place, *size),
            CapturePhase::Opening => CaptureAction::OpenOutput,
            CapturePhase::Waiting(time) => CaptureAction::Sleep(*time),
            CapturePhase::Focusing => CaptureAction::ReadForeground,
            CapturePhase::Taking(run) => CaptureAction::Frame(run.action(), self.frame_count),
            CapturePhase::Finished(outcome) => CaptureAction::Finish(*outcome),
        }
    }

    /// Whether a reply answers the action at hand, and nothing that is counted
    /// gets out of range.
    pub open spec fn expects(self, reply: CaptureReply) -> bool {
        match (self.phase, reply) {
            (CapturePhase::Checking, CaptureReply::Recording(_)) => true,
            (CapturePhase::Validating, CaptureReply::Now(_)) => true,
            (CapturePhase::Probing, CaptureReply::Valid(_)) => true,
            (CapturePhase::Searching, CaptureReply::Windows(_)) => true,
            (CapturePhase::Retrying, CaptureReply::Windows(_)) => true,
            (CapturePhase::Retargeting(_), CaptureReply::Window(_, _)) => true,
            (CapturePhase::Reopening, CaptureReply::Opened(_)) => true,
            (CapturePhase::Locating, CaptureReply::Now(_)) => true,
            (CapturePhase::Measuring, CaptureReply::Rect(_)) => true,
            (CapturePhase::Reporting(_, _), CaptureReply::InfoSent) => true,
            (CapturePhase::Opening, CaptureReply::Opened(_)) => true,
            (CapturePhase::Waiting(_), CaptureReply::Slept) => true,
            (CapturePhase::Focusing, CaptureReply::Foreground(_)) => true,
            (CapturePhase::Taking(run), CaptureReply::Frame(reply)) => run.expects(reply)
                && self.frame_count < u64::MAX,
            _ => false,
        }
    }

    /// Computes `expects`.
    pub fn accepts(&self, reply: &CaptureReply) -> (r: bool)
        ensures
            r == self.expects(*reply),
    {
        match (&self.phase, reply) {
            (CapturePhase::Checking, CaptureReply::Recording(_)) => true,
            (CapturePhase::Validating, CaptureReply::Now(_)) => true,
            (CapturePhase::Probing, CaptureReply::Valid(_)) => true,
            (CapturePhase::Searching, CaptureReply::Windows(_)) => true,
            (CapturePhase::Retrying, CaptureReply::Windows(_)) => true,
            (CapturePhase::Retargeting(_), CaptureReply::Window(_, _)) => true,
            (CapturePhase::Reopening, CaptureReply::Opened(_)) => true,
            (CapturePhase::Locating, CaptureReply::Now(_)) => true,
            (CapturePhase::Measuring, CaptureReply::Rect(_)) => true,
            (CapturePhase::Reporting(_, _), CaptureReply::InfoSent) => true,
            (CapturePhase::Opening, CaptureReply::Opened(_)) => true,
            (CapturePhase::Waiting(_), CaptureReply::Slept) => true,
            (CapturePhase::Focusing, CaptureReply::Foreground(_)) => true,
            (CapturePhase::Taking(run), CaptureReply::Frame(reply)) => {
                run.accepts(reply) && self.frame_count < u64::MAX
            },
            _ => false,
        }
    }

    /// The phase that follows once the window has been reported: a frame, for
    /// which the output may have to be opened first.
    pub open spec fn to_frame(self) -> CaptureLoop {
        CaptureLoop {
            phase: if self.output_open {
                CapturePhase::Focusing
            } else {
                CapturePhase::Opening
            },
            ..self
        }
    }

    /// The phase that follows once the window has been located: it is reported
    /// where its place and its size are known.
    pub open spec fn to_report(self) -> CaptureLoop {
        match (self.tracker.position, self.tracker.size) {
            (Some(place), Some(size)) => CaptureLoop {
                phase: CapturePhase::Reporting(place, size),
                ..self
            },
            _ => self.to_frame(),
        }
    }

    /// The capture once a frame is done.
    ///
    /// The capture is over once nobody receives frames any more, and after a
    /// system error, except that there was no frame in time, or that the output
    /// was lost and is to be opened again.
    pub open spec fn frame_done(self, outcome: Result<(), FrameError>) -> CaptureLoop {
        match outcome {
            Ok(_) => CaptureLoop {
                phase: CapturePhase::Checking,
                frame_count: (self.frame_count + 1) as u64,
                ..self
            },
            Err(FrameError::ChannelClosed) => CaptureLoop {
                phase: CapturePhase::Finished(Ok(())),
                ..self
            },
            Err(FrameError::WindowsError(code)) => if code == DXGI_ERROR_WAIT_TIMEOUT {
                CaptureLoop { phase: CapturePhase::Checking, ..self }
            } else if code == DXGI_ERROR_ACCESS_LOST {
                CaptureLoop { phase: CapturePhase::Checking, output_open: false, ..self }
            } else {
                CaptureLoop { phase: CapturePhase::Finished(Err(code)), ..self }
            },
            Err(FrameError::TexturePoolError) => CaptureLoop {
                phase: CapturePhase::Checking,
                ..self
            },
        }
    }

    /// The capture after a step of the frame.
    pub open spec fn frame_step(self, run: FrameRun) -> CaptureLoop {
        match run.phase {
            FramePhase::Done(outcome) => (CaptureLoop { timing: run.timing, ..self }).frame_done(
                outcome,
            ),
            _ => CaptureLoop { phase: CapturePhase::Taking(run), ..self },
        }
    }

    /// The window that goes by the name that is being recorded.
    pub open spec fn found_in(self, candidates: Seq<WindowCandidate>) -> Option<WindowHandle> {
        window_named(candidates, self.tracker.process_name@, self.tracker.use_exact_match)
    }

    /// The capture after a reply.
    pub open spec fn next(self, reply: CaptureReply) -> CaptureLoop {
        match (self.phase, reply) {
            (CapturePhase::Checking, CaptureReply::Recording(on)) => CaptureLoop {
                phase: if on {
                    CapturePhase::Validating
                } else {
                    CapturePhase::Finished(Ok(()))
                },
                ..self
            },
            (CapturePhase::Validating, CaptureReply::Now(now)) => if is_due(
                now,
                self.tracker.last_check,
                self.tracker.check_interval,
            ) {
                CaptureLoop {
                    phase: CapturePhase::Probing,
                    tracker: WindowTracker { last_check: now, ..self.tracker },
                    ..self
                }
            } else {
                CaptureLoop { phase: CapturePhase::Locating, ..self }
            },
            (CapturePhase::Probing, CaptureReply::Valid(valid)) => CaptureLoop {
                phase: if valid {
                    CapturePhase::Locating
                } else {
                    CapturePhase::Searching
                },
                ..self
            },
            (CapturePhase::Searching, CaptureReply::Windows(list)) => match self.found_in(list@) {
                Some(hwnd) => CaptureLoop {
                    phase: CapturePhase::Locating,
                    tracker: WindowTracker { hwnd, ..self.tracker },
                    ..self
                },
                None => CaptureLoop { phase: CapturePhase::Retrying, ..self },
            },
            (CapturePhase::Retrying, CaptureReply::Windows(list)) => CaptureLoop {
                phase: match self.found_in(list@) {
                    Some(hwnd) => CapturePhase::Retargeting(hwnd),
                    None => CapturePhase::Waiting(Duration { nanos: 1_000_000 }),
                },
                ..self
            },
            (CapturePhase::Retargeting(hwnd), CaptureReply::Window(now, rect)) => CaptureLoop {
                phase: CapturePhase::Reopening,
                tracker: self.tracker.restarted(hwnd, now, rect),
                ..self
            },
            (CapturePhase::Reopening, CaptureReply::Opened(opened)) => CaptureLoop {
                phase: CapturePhase::Locating,
                output_open: opened,
                ..self
            },
            (CapturePhase::Locating, CaptureReply::Now(now)) => if is_due(
                now,
                self.tracker.last_rect_check,
                self.tracker.rect_check_interval,
            ) {
                CaptureLoop {
                    phase: CapturePhase::Measuring,
                    tracker: WindowTracker { last_rect_check: now, ..self.tracker },
                    ..self
                }
            } else {
                self.to_report()
            },
            (CapturePhase::Measuring, CaptureReply::Rect(rect)) => (CaptureLoop {
                tracker: if rect is Some {
                    WindowTracker {
                        position: place_in(rect),
                        size: size_in(rect),
                        ..self.tracker
                    }
                } else {
                    self.tracker
                },
                ..self
            }).to_report(),
            (CapturePhase::Reporting(_, _), CaptureReply::InfoSent) => self.to_frame(),
            (CapturePhase::Opening, CaptureReply::Opened(opened)) => CaptureLoop {
                phase: if opened {
                    CapturePhase::Focusing
                } else {
                    CapturePhase::Waiting(Duration { nanos: 100_000_000 })
                },
                output_open: opened,
                ..self
            },
            (CapturePhase::Waiting(_), CaptureReply::Slept) => CaptureLoop {
                phase: CapturePhase::Checking,
                ..self
            },
            (CapturePhase::Focusing, CaptureReply::Foreground(foreground)) => {
                let focused = foreground == self.tracker.hwnd;
                CaptureLoop {
                    phase: CapturePhase::Taking(
                        FrameRun {
                            phase: if focused {
                                FramePhase::Acquiring
                            } else {
                                FramePhase::FetchingBlank
                            },
                            timing: self.timing,
                            frame_duration: self.frame_duration,
                            capture_cursor: self.capture_cursor,
                        },
                    ),
                    tracker: WindowTracker {
                        ever_focused: self.tracker.ever_focused || focused,
                        ..self.tracker
                    },
                    ..self
                }
            },
            (CapturePhase::Taking(run), CaptureReply::Frame(reply)) => self.frame_step(
                run.next(reply),
            ),
            _ => self,
        }
    }

    /// Computes `to_frame`.
    fn go_to_frame(&mut self)
        ensures
            *final(self) == old(self).to_frame(),
    {
        self.phase = if self.output_open {
            CapturePhase::Focusing
        } else {
            CapturePhase::Opening
        };
    }

    /// Computes `to_report`.
    fn go_to_report(&mut self)
        ensures
            *final(self) == old(self).to_report(),
    {
        match (self.tracker.get_position(), self.tracker.get_size()) {
            (Some(place), Some(size)) => {
                self.phase = CapturePhase::Reporting(place, size);
            },
            _ => {
                self.go_to_frame();
            },
        }
    }

    /// Computes `frame_done`.
    fn finish_frame(&mut self, outcome: Result<(), FrameError>)
        requires
            old(self).frame_count < u64::MAX,
        ensures
            *final(self) == old(self).frame_done(outcome),
    {
        self.phase = CapturePhase::Checking;
        match outcome {
            Ok(_) => {
                self.frame_count = self.frame_count + 1;
            },
            Err(FrameError::ChannelClosed) => {
                self.phase = CapturePhase::Finished(Ok(()));
            },
            Err(FrameError::WindowsError(code)) => {
                if code == DXGI_ERROR_WAIT_TIMEOUT {
                } else if code == DXGI_ERROR_ACCESS_LOST {
                    self.output_open = false;
                } else {
                    self.phase = CapturePhase::Finished(Err(code));
                }
            },
            Err(FrameError::TexturePoolError) => {},
        }
    }

    /// Goes on after a reply.
    pub fn advance(&mut self, reply: CaptureReply)
        requires
            old(self).wf(),
            old(self).expects(reply),
        ensures
            final(self).wf(),
            *final(self) == old(self).next(reply),
    {
        match (&self.phase, reply) {
            (CapturePhase::Checking, CaptureReply::Recording(on)) => {
                self.phase = if on {
                    CapturePhase::Validating
                } else {
                    CapturePhase::Finished(Ok(()))
                };
            },
            (CapturePhase::Validating, CaptureReply::Now(now)) => {
                self.phase = if self.tracker.ensure_valid_window(now) {
                    CapturePhase::Locating
                } else {
                    CapturePhase::Probing
                };
            },
            (CapturePhase::Probing, CaptureReply::Valid(valid)) => {
                self.phase = if valid {
                    CapturePhase::Locating
                } else {
                    CapturePhase::Searching
                };
            },
            (CapturePhase::Searching, CaptureReply::Windows(list)) => {
                let found = self.tracker.find(&list);
                self.phase = if self.tracker.adopt(found) {
                    CapturePhase::Locating
                } else {
                    CapturePhase::Retrying
                };
            },
            (CapturePhase::Retrying, CaptureReply::Windows(list)) => {
                self.phase = match self.tracker.find(&list) {
                    Some(hwnd) => CapturePhase::Retargeting(hwnd),
                    None => CapturePhase::Waiting(Duration::from_millis(WINDOW_RETRY_MS)),
                };
            },
            (CapturePhase::Retargeting(hwnd), CaptureReply::Window(now, rect)) => {
                let hwnd = *hwnd;
                self.tracker.restart(hwnd, now, rect);
                self.phase = CapturePhase::Reopening;
            },
            (CapturePhase::Reopening, CaptureReply::Opened(opened)) => {
                self.output_open = opened;
                self.phase = CapturePhase::Locating;
            },
            (CapturePhase::Locating, CaptureReply::Now(now)) => {
                if self.tracker.update_window_rect(now) {
                    self.phase = CapturePhase::Measuring;
                } else {
                    self.go_to_report();
                }
            },
            (CapturePhase::Measuring, CaptureReply::Rect(rect)) => {
                self.tracker.set_window_rect(rect);
                self.go_to_report();
            },
            (CapturePhase::Reporting(_, _), CaptureReply::InfoSent) => {
                self.go_to_frame();
            },
            (CapturePhase::Opening, CaptureReply::Opened(opened)) => {
                self.output_open = opened;
                self.phase = if opened {
                    CapturePhase::Focusing
                } else {
                    CapturePhase::Waiting(Duration::from_millis(OUTPUT_RETRY_MS))
                };
            },
            (CapturePhase::Waiting(_), CaptureReply::Slept) => {
                self.phase = CapturePhase::Checking;
            },
            (CapturePhase::Focusing, CaptureReply::Foreground(foreground)) => {
                let focused = self.tracker.is_focused(foreground);
                let run = FrameRun::start(
                    focused,
                    self.timing,
                    self.frame_duration,
                    self.capture_cursor,
                );
                self.phase = CapturePhase::Taking(run);
            },
            (CapturePhase::Taking(run), CaptureReply::Frame(reply)) => {
                let mut run = *run;
                run.advance(reply);
                match run.phase {
                    FramePhase::Done(outcome) => {
                        self.timing = run.timing;
                        self.finish_frame(outcome);
                    },
                    _ => {
                        self.phase = CapturePhase::Taking(run);
                    },
                }
            },
            _ => {},
        }
    }
}

/// Losing the output closes it.
pub proof fn loss_closes_the_output(c: CaptureLoop, reply: FrameReply)
    requires
        c.wf(),
        c.phase is Taking,
        c.expects(CaptureReply::Frame(reply)),
        c.phase->Taking_0.next(reply).phase == FramePhase::Done(
            Err(FrameError::WindowsError(DXGI_ERROR_ACCESS_LOST)),
        ),
    ensures
        c.next(CaptureReply::Frame(reply)).phase is Checking,
        !c.next(CaptureReply::Frame(reply)).output_open,
{
}

/// Whether every reply of a run answers the action at hand.
pub open spec fn is_run(c: CaptureLoop, replies: Seq<CaptureReply>) -> bool
    decreases replies.len(),
{
    replies.len() > 0 ==> c.expects(replies[0]) && is_run(c.next(replies[0]), replies.drop_first())
}

/// The capture after all replies of a run.
pub open spec fn after(c: CaptureLoop, replies: Seq<CaptureReply>) -> CaptureLoop
    decreases replies.len(),
{
    if replies.len() == 0 {
        c
    } else {
        after(c.next(replies[0]), replies.drop_first())
    }
}

/// An output that is not open is opened again before the next frame is taken.
pub proof fn lost_output_is_reopened(c: CaptureLoop, replies: Seq<CaptureReply>)
    requires
        c.wf(),
        !c.output_open,
        is_run(c, replies),
        after(c, replies).phase is Taking,
    ensures
        replies.contains(CaptureReply::Opened(true)),
    decreases replies.len(),
{
    let rest = replies.drop_first();
    if replies[0] == CaptureReply::Opened(true) {
        assert(replies.contains(replies[0]));
    } else {
        lost_output_is_reopened(c.next(replies[0]), rest);
        let i = rest.index_of(CaptureReply::Opened(true));
        assert(replies[i + 1] == rest[i]);
    }
}

/// The capture fails only because of a system error while taking a frame, and
/// neither for want of a frame nor for the loss of the output.
pub proof fn failures_are_system_errors(c: CaptureLoop, reply: CaptureReply, code: HResult)
    requires
        c.expects(reply),
        c.next(reply).phase == CapturePhase::Finished(Err(code)),
    ensures
        code != DXGI_ERROR_WAIT_TIMEOUT,
        code != DXGI_ERROR_ACCESS_LOST,
        reply matches CaptureReply::Frame(r) && (c.phase matches CapturePhase::Taking(run)
            && run.next(r).phase == FramePhase::Done(Err(FrameError::WindowsError(code)))),
{
}

/// Frames are counted one by one, and only those that were taken well.
pub proof fn frames_are_counted(c: CaptureLoop, reply: CaptureReply)
    requires
        c.expects(reply),
    ensures
        c.next(reply).frame_count == c.frame_count || c.next(reply).frame_count == c.frame_count
            + 1,
        c.next(reply).frame_count == c.frame_count + 1 <==> (reply matches CaptureReply::Frame(r)
            && (c.phase matches CapturePhase::Taking(run) && run.next(r).phase == FramePhase::Done(
            Ok(()),
        ))),
{
}

/// The capture goes on where the recording does, and is over at once, and well,
/// where it does not.
pub proof fn capture_ends_with_the_recording(c: CaptureLoop, on: bool)
    requires
        capture_action(c) == CaptureAction::CheckRecording,
    ensures
        c.expects(CaptureReply::Recording(on)),
        on ==> capture_action(c.next(CaptureReply::Recording(on))) == CaptureAction::ReadClock
            && c.next(CaptureReply::Recording(on)).phase is Validating,
        !on ==> (capture_action(c.next(CaptureReply::Recording(on))) matches CaptureAction::Finish(
            outcome,
        ) && outcome is Ok),
{
}

/// At the start of a round the window is checked where it was last checked as
/// long ago as its interval or longer, and only then.
pub proof fn window_is_checked_in_time(c: CaptureLoop, now: Duration)
    requires
        c.phase is Validating,
        c.tracker.last_check@ <= now@,
    ensures
        ({
            let d = c.next(CaptureReply::Now(now));
            &&& now@ - c.tracker.last_check@ >= c.tracker.check_interval@ ==> capture_action(d)
                == CaptureAction::CheckWindow(c.tracker.hwnd) && d.tracker.last_check == now
            &&& now@ - c.tracker.last_check@ < c.tracker.check_interval@ ==> capture_action(d)
                == CaptureAction::ReadClock && d.phase is Locating && d.tracker == c.tracker
        }),
{
}

/// A window that is still there is kept, and one that is gone is looked for among
/// the windows on the desktop.
pub proof fn lost_window_is_looked_for(c: CaptureLoop, valid: bool)
    requires
        c.phase is Probing,
    ensures
        c.next(CaptureReply::Valid(valid)).tracker == c.tracker,
        valid ==> capture_action(c.next(CaptureReply::Valid(valid))) == CaptureAction::ReadClock
            && c.next(CaptureReply::Valid(valid)).phase is Locating,
        !valid ==> capture_action(c.next(CaptureReply::Valid(valid)))
            == CaptureAction::ListWindows && c.next(CaptureReply::Valid(valid)).phase is Searching,
{
}

/// A window that is gone is replaced by the first one that goes by the same name.
/// Where there is none, the desktop is searched once more.
pub proof fn lost_window_is_replaced_by_its_name(
    c: CaptureLoop,
    list: Vec<WindowCandidate>,
)
    requires
        c.phase is Searching,
    ensures
        ({
            let d = c.next(CaptureReply::Windows(list));
            let name = c.tracker.process_name@;
            let exact = c.tracker.use_exact_match;
            ||| {
                &&& capture_action(d) == CaptureAction::ReadClock
                &&& d.phase is Locating
                &&& exists|i: int|
                    {
                        &&& 0 <= i < list@.len()
                        &&& (#[trigger] list@[i]).handle == d.tracker.hwnd
                        &&& goes_by(list@[i], name, exact)
                        &&& forall|k: int| 0 <= k < i ==> !goes_by(#[trigger] list@[k], name, exact)
                    }
            }
            ||| {
                &&& capture_action(d) == CaptureAction::ListWindows
                &&& d.phase is Retrying
                &&& d.tracker == c.tracker
                &&& forall|k: int|
                    0 <= k < list@.len() ==> !goes_by(#[trigger] list@[k], name, exact)
            }
        }),
{
    recorded_window_goes_by_the_name(
        list@,
        c.tracker.process_name@,
        c.tracker.use_exact_match,
    );
}

/// The second time a window that goes by the name is recorded anew, from its place
/// on and with the output opened again. Where there is none, there is a break of
/// one millisecond.
pub proof fn window_found_later_is_recorded_anew(
    c: CaptureLoop,
    list: Vec<WindowCandidate>,
    now: Duration,
    rect: Option<WindowRect>,
    opened: bool,
)
    requires
        c.phase is Retrying,
    ensures
        ({
            let name = c.tracker.process_name@;
            let exact = c.tracker.use_exact_match;
            let d = c.next(CaptureReply::Windows(list));
            &&& d.tracker == c.tracker
            &&& match capture_action(d) {
                CaptureAction::ReadWindow(hwnd) => {
                    let e = d.next(CaptureReply::Window(now, rect));
                    let g = e.next(CaptureReply::Opened(opened));
                    &&& exists|i: int|
                        {
                            &&& 0 <= i < list@.len()
                            &&& (#[trigger] list@[i]).handle == hwnd
                            &&& goes_by(list@[i], name, exact)
                            &&& forall|k: int|
                                0 <= k < i ==> !goes_by(#[trigger] list@[k], name, exact)
                        }
                    &&& e.tracker.is_fresh(hwnd, name, exact, now, rect)
                    &&& capture_action(e) == CaptureAction::OpenOutput
                    &&& g.output_open == opened
                    &&& capture_action(g) == CaptureAction::ReadClock
                    &&& g.phase is Locating
                    &&& g.tracker == e.tracker
                },
                CaptureAction::Sleep(time) => {
                    &&& time@ == 1_000_000
                    &&& capture_action(d.next(CaptureReply::Slept))
                        == CaptureAction::CheckRecording
                    &&& forall|k: int|
                        0 <= k < list@.len() ==> !goes_by(#[trigger] list@[k], name, exact)
                },
                _ => false,
            }
        }),
{
    recorded_window_goes_by_the_name(
        list@,
        c.tracker.process_name@,
        c.tracker.use_exact_match,
    );
}

/// The place of the window is asked for where that was last done as long ago as
/// the interval or longer. What is found out is kept.
pub proof fn window_is_measured_in_time(
    c: CaptureLoop,
    now: Duration,
    rect: Option<WindowRect>,
)
    requires
        c.phase is Locating,
        c.tracker.last_rect_check@ <= now@,
    ensures
        ({
            let d = c.next(CaptureReply::Now(now));
            &&& now@ - c.tracker.last_rect_check@ < c.tracker.rect_check_interval@ ==> d.tracker
                == c.tracker
            &&& now@ - c.tracker.last_rect_check@ >= c.tracker.rect_check_interval@ ==> {
                let e = d.next(CaptureReply::Rect(rect));
                &&& capture_action(d) == CaptureAction::ReadRect(c.tracker.hwnd)
                &&& d.tracker.last_rect_check == now
                &&& match rect {
                    Some((x, y, width, height)) => {
                        &&& e.tracker.position == Some((x, y))
                        &&& e.tracker.size == Some((width, height))
                        &&& capture_action(e) == CaptureAction::SendWindowInfo(
                            (x, y),
                            (width, height),
                        )
                    },
                    None => e.tracker.position == c.tracker.position && e.tracker.size
                        == c.tracker.size,
                }
            }
        }),
{
}

/// Where the window is known to be is passed on in every round before a frame is
/// taken. A frame is taken from an open output, and else the output is opened.
pub proof fn window_is_reported_before_a_frame(
    c: CaptureLoop,
    now: Duration,
    place: (i32, i32),
    size: (u32, u32),
)
    requires
        c.phase is Locating,
        c.tracker.last_rect_check@ <= now@,
        now@ - c.tracker.last_rect_check@ < c.tracker.rect_check_interval@,
        c.tracker.position == Some(place),
        c.tracker.size == Some(size),
    ensures
        ({
            let d = c.next(CaptureReply::Now(now));
            let e = d.next(CaptureReply::InfoSent);
            &&& capture_action(d) == CaptureAction::SendWindowInfo(place, size)
            &&& c.output_open ==> capture_action(e) == CaptureAction::ReadForeground
            &&& !c.output_open ==> capture_action(e) == CaptureAction::OpenOutput
        }),
{
}

/// Where the output cannot be opened, there is a break of 100 milliseconds, and
/// then another round.
pub proof fn closed_output_is_tried_again(c: CaptureLoop, opened: bool)
    requires
        c.phase is Opening,
    ensures
        ({
            let d = c.next(CaptureReply::Opened(opened));
            &&& d.output_open == opened
            &&& opened ==> capture_action(d) == CaptureAction::ReadForeground
            &&& !opened ==> (capture_action(d) matches CaptureAction::Sleep(time) && time@
                == 100_000_000) && capture_action(d.next(CaptureReply::Slept))
                == CaptureAction::CheckRecording
        }),
{
}

/// The picture of the window is taken where the window has the focus. Otherwise
/// the frame is blank. The frame keeps to the pace, and has the cursor on it where
/// that is part of the recording.
pub proof fn focus_decides_the_picture(c: CaptureLoop, foreground: WindowHandle)
    requires
        c.phase is Focusing,
    ensures
        ({
            let d = c.next(CaptureReply::Foreground(foreground));
            &&& foreground.raw == c.tracker.hwnd.raw ==> capture_action(d) == CaptureAction::Frame(
                FrameAction::AcquireFrame(16),
                c.frame_count,
            )
            &&& foreground.raw != c.tracker.hwnd.raw ==> capture_action(d) == CaptureAction::Frame(
                FrameAction::FetchBlank,
                c.frame_count,
            )
            &&& d.phase matches CapturePhase::Taking(run) && {
                &&& run.timing == c.timing
                &&& run.frame_duration == c.frame_duration
                &&& run.capture_cursor == c.capture_cursor
            }
            &&& d.tracker.ever_focused == (c.tracker.ever_focused || foreground.raw
                == c.tracker.hwnd.raw)
        }),
{
}

/// Once a frame is done, the pace that it has come to is that of the next one.
/// The capture goes on unless nobody receives frames any more, or the system
/// reported an error other than that no frame came in time or that the output was
/// lost.
pub proof fn frames_follow_one_another(c: CaptureLoop, run: FrameRun, reply: FrameReply)
    requires
        c.phase == CapturePhase::Taking(run),
        c.frame_count < u64::MAX,
    ensures
        ({
            let d = c.next(CaptureReply::Frame(reply));
            &&& d.tracker == c.tracker
            &&& d.frame_duration == c.frame_duration
            &&& d.capture_cursor == c.capture_cursor
            &&& match run.next(reply).phase {
                FramePhase::Done(Ok(_)) => {
                    &&& capture_action(d) == CaptureAction::CheckRecording
                    &&& d.frame_count == c.frame_count + 1
                    &&& d.timing == run.next(reply).timing
                    &&& d.output_open == c.output_open
                },
                FramePhase::Done(Err(FrameError::ChannelClosed)) => {
                    capture_action(d) matches CaptureAction::Finish(outcome) && outcome is Ok
                },
                FramePhase::Done(Err(FrameError::TexturePoolError)) => {
                    &&& capture_action(d) == CaptureAction::CheckRecording
                    &&& d.frame_count == c.frame_count
                    &&& d.output_open == c.output_open
                },
                FramePhase::Done(Err(FrameError::WindowsError(code))) => if code == -2005270489 {
                    &&& capture_action(d) == CaptureAction::CheckRecording
                    &&& d.frame_count == c.frame_count
                    &&& d.output_open == c.output_open
                } else if code == -2005270490 {
                    &&& capture_action(d) == CaptureAction::CheckRecording
                    &&& d.frame_count == c.frame_count
                    &&& !d.output_open
                } else {
                    capture_action(d) == CaptureAction::Finish(Err(code))
                },
                phase => {
                    &&& capture_action(d) == CaptureAction::Frame(action_of(phase), c.frame_count)
                    &&& d.phase == CapturePhase::Taking(run.next(reply))
                    &&& d.timing == c.timing
                    &&& d.frame_count == c.frame_count
                    &&& d.output_open == c.output_open
                },
            }
        }),
{
}

} // verus!
