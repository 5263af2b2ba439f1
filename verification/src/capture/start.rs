//! The start of a thread that captures: it sets up what it works with, and
//! waits for the other ones.
use crate::error::WindowsError;
use vstd::prelude::*;

verus! {

/// What a thread captures.
#[derive(Debug, Clone, Copy, PartialEq, Eq, Structural)]
pub enum Captured {
    /// The window.
    Video,
    /// System audio.
    Audio,
    /// The microphone.
    Microphone,
}

/// Where the start of a capture stands.
#[derive(Debug)]
pub enum StartingPhase {
    /// What the capture works with is to be set up.
    SettingUp,
    /// The other threads are to be waited for, once the set-up came to this.
    Waiting(Result<(), WindowsError>),
    /// The capture goes on, or could not be set up.
    Over(Result<(), WindowsError>),
}

/// What to do next.
#[derive(Debug, Clone, Copy, PartialEq, Eq, Structural)]
pub enum StartingAction {
    /// Set up what the capture works with.
    SetUp,
    /// Wait for the other threads.
    Wait,
    /// Stop: the capture goes on, or could not be set up.
    Finish(bool),
}

/// What came of an action.
#[derive(Debug)]
pub enum StartingReply {
    /// Everything is set up, or the system reported an error.
    SetUp(Result<(), WindowsError>),
    /// All threads have come as far as this one.
    Waited,
}

/// The start of a thread that captures.
#[derive(Debug)]
pub struct CaptureStart {
    /// What the thread captures.
    pub captured: Captured,
    /// Where it stands.
    pub phase: StartingPhase,
}

/// What to do in a phase.
pub open spec fn starting_action(phase: StartingPhase) -> StartingAction {
    match phase {
        StartingPhase::SettingUp => StartingAction::SetUp,
        StartingPhase::Waiting(_) => StartingAction::Wait,
        StartingPhase::Over(outcome) => StartingAction::Finish(outcome is Ok),
    }
}

impl CaptureStart {
    /// The start before its first step.
    pub fn new(captured: Captured) -> (r: Self)
        ensures
            r == (CaptureStart { captured, phase: StartingPhase::SettingUp }),
    {
        CaptureStart { captured, phase: StartingPhase::SettingUp }
    }

    /// What to do next.
    pub fn action(&self) -> (r: StartingAction)
        ensures
            r == starting_action(self.phase),
    {
        match &self.phase {
            StartingPhase::SettingUp => StartingAction::SetUp,
            StartingPhase::Waiting(_) => StartingAction::Wait,
            StartingPhase::Over(outcome) => StartingAction::Finish(outcome.is_ok()),
        }
    }

    /// Whether a reply answers the action at hand.
    pub open spec fn expects(self, reply: StartingReply) -> bool {
        match (self.phase, reply) {
            (StartingPhase::SettingUp, StartingReply::SetUp(_)) => true,
            (StartingPhase::Waiting(_), StartingReply::Waited) => true,
            _ => false,
        }
    }

    /// Computes `expects`.
    pub fn accepts(&self, reply: &StartingReply) -> (r: bool)
        ensures
            r == self.expects(*reply),
    {
        match (&self.phase, reply) {
            (StartingPhase::SettingUp, StartingReply::SetUp(_)) => true,
            (StartingPhase::Waiting(_), StartingReply::Waited) => true,
            _ => false,
        }
    }

    /// The start after a reply. A thread whose set-up failed ends at once,
    /// except that of the microphone: it waits for the others all the same.
    pub open spec fn next(self, reply: StartingReply) -> CaptureStart {
        match (self.phase, reply) {
            (StartingPhase::SettingUp, StartingReply::SetUp(result)) => CaptureStart {
                phase: if result is Ok || self.captured == Captured::Microphone {
                    StartingPhase::Waiting(result)
                } else {
                    StartingPhase::Over(result)
                },
                ..self
            },
            (StartingPhase::Waiting(result), StartingReply::Waited) => CaptureStart {
                phase: StartingPhase::Over(result),
                ..self
            },
            _ => self,
        }
    }

    /// The start after a reply.
    pub fn advance(self, reply: StartingReply) -> (r: Self)
        requires
            self.expects(reply),
        ensures
            r == self.next(reply),
    {
        let captured = self.captured;
        let phase = match (self.phase, reply) {
            (StartingPhase::SettingUp, StartingReply::SetUp(result)) => {
                if result.is_ok() || captured == Captured::Microphone {
                    StartingPhase::Waiting(result)
                } else {
                    StartingPhase::Over(result)
                }
            },
            (StartingPhase::Waiting(result), _) => StartingPhase::Over(result),
            (phase, _) => phase,
        };
        CaptureStart { captured, phase }
    }
}

/// Whether every reply of a run answers the action at hand.
pub open spec fn is_run(s: CaptureStart, replies: Seq<StartingReply>) -> bool
    decreases replies.len(),
{
    replies.len() > 0 ==> s.expects(replies[0]) && is_run(s.next(replies[0]), replies.drop_first())
}

/// The start after all replies of a run.
pub open spec fn after(s: CaptureStart, replies: Seq<StartingReply>) -> CaptureStart
    decreases replies.len(),
{
    if replies.len() == 0 {
        s
    } else {
        after(s.next(replies[0]), replies.drop_first())
    }
}

/// How often a run waits for the other threads.
pub open spec fn waits(s: CaptureStart, replies: Seq<StartingReply>) -> nat
    decreases replies.len(),
{
    if replies.len() == 0 {
        0
    } else {
        (if starting_action(s.phase) is Wait {
            1nat
        } else {
            0nat
        }) + waits(s.next(replies[0]), replies.drop_first())
    }
}

/// A start that comes to its end has waited for the other threads once where
/// its set-up went well, and that of the microphone has done so in any case.
/// Otherwise it has not waited. What the set-up came to is what the start comes
/// to.
pub proof fn starts_wait_once(s: CaptureStart, replies: Seq<StartingReply>)
    requires
        s.phase is SettingUp,
        is_run(s, replies),
        after(s, replies).phase is Over,
    ensures
        replies.len() > 0,
        replies[0] matches StartingReply::SetUp(result) && {
            &&& after(s, replies).phase == StartingPhase::Over(result)
            &&& waits(s, replies) == if result is Ok || s.captured == Captured::Microphone {
                1nat
            } else {
                0nat
            }
        },
{
    reveal_with_fuel(is_run, 4);
    reveal_with_fuel(after, 4);
    reveal_with_fuel(waits, 4);
    if replies.len() > 0 {
        let rest = replies.drop_first();
        assert(rest.len() == replies.len() - 1);
        if rest.len() > 0 {
            let last = rest.drop_first();
            assert(last.len() == rest.len() - 1);
        }
    }
}

} // verus!
