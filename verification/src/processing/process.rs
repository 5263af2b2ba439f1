//! Processing sample after sample: what to do next, given what came of the
//! last step.
use crate::error::WindowsError;
use crate::processing::media::VIDEO_STREAM_INDEX;
use crate::types::Duration;
use vstd::prelude::*;

verus! {

/// How long to wait for samples, in milliseconds.
pub const IDLE_MS: u64 = 1;

/// How long to wait for news of the window, in milliseconds.
pub const WINDOW_INFO_MS: u64 = 5;

/// What is known of the window.
#[derive(Debug, Clone, Copy)]
pub struct WindowInfo {
    /// Its place, if it is known.
    pub position: Option<(i32, i32)>,
    /// Its size, if it is known.
    pub size: Option<(u32, u32)>,
    /// Whether one of them has changed.
    pub changed: bool,
}

impl WindowInfo {
    /// What is known of the window at the start.
    pub fn new(position: Option<(i32, i32)>, size: Option<(u32, u32)>) -> (r: Self)
        ensures
            r == (WindowInfo { position, size, changed: false }),
    {
        WindowInfo { position, size, changed: false }
    }

    /// Whether news of the window tell something new.
    pub open spec fn is_news(
        self,
        position: Option<(i32, i32)>,
        size: Option<(u32, u32)>,
    ) -> bool {
        ||| position is Some && position != self.position
        ||| size is Some && size != self.size
    }

    /// Takes in news of the window, and tells whether they are new. What they
    /// do not tell stays as it is.
    pub fn update(&mut self, position: Option<(i32, i32)>, size: Option<(u32, u32)>) -> (r: bool)
        ensures
            r == old(self).is_news(position, size),
            *final(self) == (WindowInfo {
                position: if position is Some {
                    position
                } else {
                    old(self).position
                },
                size: if size is Some {
                    size
                } else {
                    old(self).size
                },
                changed: old(self).changed || r,
            }),
    {
        let mut position_changed = false;
        let mut size_changed = false;
        match position {
            Some(place) => {
                position_changed = match self.position {
                    Some(known) => known.0 != place.0 || known.1 != place.1,
                    None => true,
                };
                self.position = Some(place);
            },
            None => {},
        }
        match size {
            Some(extent) => {
                size_changed = match self.size {
                    Some(known) => known.0 != extent.0 || known.1 != extent.1,
                    None => true,
                };
                self.size = Some(extent);
            },
            None => {},
        }
        if position_changed || size_changed {
            self.changed = true;
        }
        position_changed || size_changed
    }

    /// Whether something has changed since this was last asked.
    pub fn take_change(&mut self) -> (r: bool)
        ensures
            r == old(self).changed,
            *final(self) == (WindowInfo { changed: false, ..*old(self) }),
    {
        let changed: bool = self.changed;
        self.changed = false;
        changed
    }
}

/// What to do with a frame of encoded video.
#[derive(Debug, Clone, Copy, PartialEq, Eq, Structural)]
pub enum DeliveryStep {
    /// Put it in the replay buffer, at this time.
    Buffer(i64),
    /// Write it to this stream of the file.
    Write(u32),
}

/// What to do with a frame of encoded video, step by step: it goes to the
/// replay buffer, if there is one, and then to the file.
pub fn delivery(has_replay: bool, time: i64) -> (r: Vec<DeliveryStep>)
    ensures
        r@ == if has_replay {
            seq![DeliveryStep::Buffer(time), DeliveryStep::Write(0)]
        } else {
            seq![DeliveryStep::Write(0)]
        },
{
    let mut steps: Vec<DeliveryStep> = Vec::new();
    if has_replay {
        steps.push(DeliveryStep::Buffer(time));
    }
    steps.push(DeliveryStep::Write(VIDEO_STREAM_INDEX));
    steps
}

/// What came out of a channel.
#[derive(Debug)]
pub enum Receipt {
    /// A sample, whose time stamp could be read or not.
    Sample(Result<(), WindowsError>),
    /// Nothing yet.
    Empty,
    /// Nothing any more.
    Disconnected,
}

/// Where the processing stands.
#[derive(Debug)]
pub enum ProcessPhase {
    /// Does the recording go on?
    Checking,
    /// Has the encoder ended?
    CheckingEncoder,
    /// The recording is to be ended.
    StoppingRecording,
    /// Is there system audio?
    ReceivingAudio,
    /// The system audio is to be handed to the mixer.
    AddingAudio,
    /// Is there a sample of the microphone?
    ReceivingMicrophone,
    /// The sample of the microphone is to be handed to the mixer.
    AddingMicrophone,
    /// The mixer is to go on without the microphone.
    DroppingMicrophone,
    /// Is there mixed audio?
    Mixing,
    /// The mixed audio of this time is to be put in the replay buffer.
    Buffering(i64),
    /// The mixed audio is to be written to the file.
    Writing,
    /// There is to be a break.
    Sleeping,
    /// The encoder is to be stopped.
    StoppingEncoder,
    /// The file is to be closed.
    Finalizing,
    /// The processing is over.
    Finished(Result<(), WindowsError>),
}

/// What to do next.
#[derive(Debug, Clone, Copy, PartialEq, Eq)]
pub enum ProcessAction {
    /// Find out whether the recording goes on.
    CheckRecording,
    /// Find out whether the encoder has ended.
    CheckEncoder,
    /// End the recording.
    StopRecording,
    /// Receive system audio.
    ReceiveAudio,
    /// Hand the system audio to the mixer.
    AddAudio,
    /// Receive a sample of the microphone.
    ReceiveMicrophone,
    /// Hand the sample of the microphone to the mixer.
    AddMicrophone,
    /// Let the mixer go on without the microphone.
    DropMicrophone,
    /// Ask the mixer for mixed audio.
    Mix,
    /// Put the mixed audio of this time in the replay buffer.
    Buffer(i64),
    /// Write the mixed audio to this stream.
    Write(u32),
    /// Wait.
    Sleep(Duration),
    /// Stop the encoder.
    StopEncoder,
    /// Close the file.
    Finalize,
    /// Stop: the processing is over, and well or not.
    Finish(bool),
}

/// What came of an action.
#[derive(Debug)]
pub enum ProcessReply {
    /// Whether the recording goes on.
    Recording(bool),
    /// Whether the encoder has ended.
    EncoderFinished(bool),
    /// What came out of a channel.
    Received(Receipt),
    /// The time of the mixed audio, if there is any, or that mixing failed.
    Mixed(Option<Result<i64, ()>>),
    /// It is done, or the system reported an error.
    Done(Result<(), WindowsError>),
}

/// The processing of one recording.
#[derive(Debug)]
pub struct ProcessLoop {
    /// Where it stands.
    pub phase: ProcessPhase,
    /// Whether system audio is recorded.
    pub capture_audio: bool,
    /// Whether the microphone is recorded.
    pub capture_microphone: bool,
    /// Whether there is a replay buffer.
    pub has_replay: bool,
    /// Whether no more system audio comes.
    pub audio_disconnected: bool,
    /// Whether no more samples of the microphone come.
    pub microphone_disconnected: bool,
    /// Whether there was something to do in this round.
    pub had_work: bool,
}

/// What to do in a phase.
pub open spec fn process_action(phase: ProcessPhase) -> ProcessAction {
    match phase {
        ProcessPhase::Checking => ProcessAction::CheckRecording,
        ProcessPhase::CheckingEncoder => ProcessAction::CheckEncoder,
        ProcessPhase::StoppingRecording => ProcessAction::StopRecording,
        ProcessPhase::ReceivingAudio => ProcessAction::ReceiveAudio,
        ProcessPhase::AddingAudio => ProcessAction::AddAudio,
        ProcessPhase::ReceivingMicrophone => ProcessAction::ReceiveMicrophone,
        ProcessPhase::AddingMicrophone => ProcessAction::AddMicrophone,
        ProcessPhase::DroppingMicrophone => ProcessAction::DropMicrophone,
        ProcessPhase::Mixing => ProcessAction::Mix,
        ProcessPhase::Buffering(time) => ProcessAction::Buffer(time),
        ProcessPhase::Writing => ProcessAction::Write(1),
        ProcessPhase::Sleeping => ProcessAction::Sleep(Duration { nanos: 1_000_000 }),
        ProcessPhase::StoppingEncoder => ProcessAction::StopEncoder,
        ProcessPhase::Finalizing => ProcessAction::Finalize,
        ProcessPhase::Finished(outcome) => ProcessAction::Finish(outcome is Ok),
    }
}

/// The phase that follows a step that the system may refuse.
pub open spec fn unless_refused(
    result: Result<(), WindowsError>,
    next: ProcessPhase,
) -> ProcessPhase {
    match result {
        Ok(_) => next,
        Err(error) => ProcessPhase::Finished(Err(error)),
    }
}

/// Computes `unless_refused`.
fn go_on(result: Result<(), WindowsError>, next: ProcessPhase) -> (r: ProcessPhase)
    ensures
        r == unless_refused(result, next),
{
    match result {
        Ok(_) => next,
        Err(error) => ProcessPhase::Finished(Err(error)),
    }
}

impl ProcessLoop {
    /// Whether sources are asked only where they are recorded and may have
    /// something, there is a break only where there was nothing to do, and
    /// the replay buffer is filled only where there is one.
    pub open spec fn wf(self) -> bool {
        match self.phase {
            ProcessPhase::ReceivingAudio => self.capture_audio && !self.audio_disconnected,
            ProcessPhase::AddingAudio => self.capture_audio && self.had_work,
            ProcessPhase::ReceivingMicrophone => self.capture_microphone
                && !self.microphone_disconnected,
            ProcessPhase::AddingMicrophone => self.capture_microphone && self.had_work,
            ProcessPhase::DroppingMicrophone => self.capture_audio && self.capture_microphone
                && self.microphone_disconnected,
            ProcessPhase::Mixing => self.capture_audio || self.capture_microphone,
            ProcessPhase::Buffering(_) => self.has_replay && self.had_work && (self.capture_audio
                || self.capture_microphone),
            ProcessPhase::Writing => self.had_work && (self.capture_audio
                || self.capture_microphone),
            ProcessPhase::Sleeping => !self.had_work,
            _ => true,
        }
    }

    /// The processing at the start. Where the encoder could not be started,
    /// the recording is ended first.
    pub fn start(
        encoder_started: bool,
        capture_audio: bool,
        capture_microphone: bool,
        has_replay: bool,
    ) -> (r: Self)
        ensures
            r.wf(),
            r == (ProcessLoop {
                phase: if encoder_started {
                    ProcessPhase::Checking
                } else {
                    ProcessPhase::StoppingRecording
                },
                capture_audio,
                capture_microphone,
                has_replay,
                audio_disconnected: false,
                microphone_disconnected: false,
                had_work: false,
            }),
    {
        ProcessLoop {
            phase: if encoder_started {
                ProcessPhase::Checking
            } else {
                ProcessPhase::StoppingRecording
            },
            capture_audio,
            capture_microphone,
            has_replay,
            audio_disconnected: false,
            microphone_disconnected: false,
            had_work: false,
        }
    }

    /// What to do next.
    pub fn action(&self) -> (r: ProcessAction)
        ensures
            r == process_action(self.phase),
    {
        match &self.phase {
            ProcessPhase::Checking => ProcessAction::CheckRecording,
            ProcessPhase::CheckingEncoder => ProcessAction::CheckEncoder,
            ProcessPhase::StoppingRecording => ProcessAction::StopRecording,
            ProcessPhase::ReceivingAudio => ProcessAction::ReceiveAudio,
            ProcessPhase::AddingAudio => ProcessAction::AddAudio,
            ProcessPhase::ReceivingMicrophone => ProcessAction::ReceiveMicrophone,
            ProcessPhase::AddingMicrophone => ProcessAction::AddMicrophone,
            ProcessPhase::DroppingMicrophone => ProcessAction::DropMicrophone,
            ProcessPhase::Mixing => ProcessAction::Mix,
            ProcessPhase::Buffering(time) => ProcessAction::Buffer(*time),
            ProcessPhase::Writing => ProcessAction::Write(1),
            ProcessPhase::Sleeping => ProcessAction::Sleep(Duration::from_millis(IDLE_MS)),
            ProcessPhase::StoppingEncoder => ProcessAction::StopEncoder,
            ProcessPhase::Finalizing => ProcessAction::Finalize,
            ProcessPhase::Finished(outcome) => ProcessAction::Finish(outcome.is_ok()),
        }
    }

    /// Whether a reply answers the action at hand. Ending the recording,
    /// handing samples to the mixer and waiting cannot fail.
    pub open spec fn expects(self, reply: ProcessReply) -> bool {
        match (self.phase, reply) {
            (ProcessPhase::Checking, ProcessReply::Recording(_)) => true,
            (ProcessPhase::CheckingEncoder, ProcessReply::EncoderFinished(_)) => true,
            (ProcessPhase::ReceivingAudio, ProcessReply::Received(_)) => true,
            (ProcessPhase::ReceivingMicrophone, ProcessReply::Received(_)) => true,
            (ProcessPhase::Mixing, ProcessReply::Mixed(_)) => true,
            (ProcessPhase::StoppingRecording, ProcessReply::Done(result)) => result is Ok,
            (ProcessPhase::AddingAudio, ProcessReply::Done(result)) => result is Ok,
            (ProcessPhase::AddingMicrophone, ProcessReply::Done(result)) => result is Ok,
            (ProcessPhase::DroppingMicrophone, ProcessReply::Done(result)) => result is Ok,
            (ProcessPhase::Sleeping, ProcessReply::Done(result)) => result is Ok,
            (ProcessPhase::Buffering(_), ProcessReply::Done(_)) => true,
            (ProcessPhase::Writing, ProcessReply::Done(_)) => true,
            (ProcessPhase::StoppingEncoder, ProcessReply::Done(_)) => true,
            (ProcessPhase::Finalizing, ProcessReply::Done(_)) => true,
            _ => false,
        }
    }

    /// Computes `expects`.
    pub fn accepts(&self, reply: &ProcessReply) -> (r: bool)
        ensures
            r == self.expects(*reply),
    {
        match (&self.phase, reply) {
            (ProcessPhase::Checking, ProcessReply::Recording(_)) => true,
            (ProcessPhase::CheckingEncoder, ProcessReply::EncoderFinished(_)) => true,
            (ProcessPhase::ReceivingAudio, ProcessReply::Received(_)) => true,
            (ProcessPhase::ReceivingMicrophone, ProcessReply::Received(_)) => true,
            (ProcessPhase::Mixing, ProcessReply::Mixed(_)) => true,
            (ProcessPhase::StoppingRecording, ProcessReply::Done(result)) => result.is_ok(),
            (ProcessPhase::AddingAudio, ProcessReply::Done(result)) => result.is_ok(),
            (ProcessPhase::AddingMicrophone, ProcessReply::Done(result)) => result.is_ok(),
            (ProcessPhase::DroppingMicrophone, ProcessReply::Done(result)) => result.is_ok(),
            (ProcessPhase::Sleeping, ProcessReply::Done(result)) => result.is_ok(),
            (ProcessPhase::Buffering(_), ProcessReply::Done(_)) => true,
            (ProcessPhase::Writing, ProcessReply::Done(_)) => true,
            (ProcessPhase::StoppingEncoder, ProcessReply::Done(_)) => true,
            (ProcessPhase::Finalizing, ProcessReply::Done(_)) => true,
            _ => false,
        }
    }

    /// The processing where a round ends: there is a break where there was
    /// nothing to do.
    pub open spec fn to_idle(self) -> ProcessLoop {
        ProcessLoop {
            phase: if self.had_work {
                ProcessPhase::Checking
            } else {
                ProcessPhase::Sleeping
            },
            ..self
        }
    }

    /// The processing where it goes on to mixed audio, if sound is recorded.
    pub open spec fn to_mixing(self) -> ProcessLoop {
        if self.capture_audio || self.capture_microphone {
            ProcessLoop { phase: ProcessPhase::Mixing, ..self }
        } else {
            self.to_idle()
        }
    }

    /// The processing where it goes on to the microphone, if it is recorded
    /// and may have something.
    pub open spec fn to_microphone(self) -> ProcessLoop {
        if self.capture_microphone && !self.microphone_disconnected {
            ProcessLoop { phase: ProcessPhase::ReceivingMicrophone, ..self }
        } else {
            self.to_mixing()
        }
    }

    /// The processing where it goes on to system audio, if it is recorded and
    /// may have something.
    pub open spec fn to_audio(self) -> ProcessLoop {
        if self.capture_audio && !self.audio_disconnected {
            ProcessLoop { phase: ProcessPhase::ReceivingAudio, ..self }
        } else {
            self.to_microphone()
        }
    }

    /// The processing after a reply.
    pub open spec fn next(self, reply: ProcessReply) -> ProcessLoop {
        match (self.phase, reply) {
            (ProcessPhase::Checking, ProcessReply::Recording(on)) => if on {
                ProcessLoop { phase: ProcessPhase::CheckingEncoder, had_work: false, ..self }
            } else {
                ProcessLoop { phase: ProcessPhase::StoppingEncoder, ..self }
            },
            (ProcessPhase::CheckingEncoder, ProcessReply::EncoderFinished(ended)) => if ended {
                ProcessLoop { phase: ProcessPhase::StoppingRecording, ..self }
            } else {
                self.to_audio()
            },
            (ProcessPhase::StoppingRecording, ProcessReply::Done(_)) => ProcessLoop {
                phase: ProcessPhase::StoppingEncoder,
                ..self
            },
            (ProcessPhase::ReceivingAudio, ProcessReply::Received(receipt)) => match receipt {
                Receipt::Sample(Ok(_)) => ProcessLoop {
                    phase: ProcessPhase::AddingAudio,
                    had_work: true,
                    ..self
                },
                Receipt::Sample(Err(error)) => ProcessLoop {
                    phase: ProcessPhase::Finished(Err(error)),
                    had_work: true,
                    ..self
                },
                Receipt::Empty => self.to_microphone(),
                Receipt::Disconnected => (ProcessLoop {
                    audio_disconnected: true,
                    ..self
                }).to_microphone(),
            },
            (ProcessPhase::AddingAudio, ProcessReply::Done(_)) => self.to_microphone(),
            (ProcessPhase::ReceivingMicrophone, ProcessReply::Received(receipt)) => match receipt {
                Receipt::Sample(Ok(_)) => ProcessLoop {
                    phase: ProcessPhase::AddingMicrophone,
                    had_work: true,
                    ..self
                },
                Receipt::Sample(Err(error)) => ProcessLoop {
                    phase: ProcessPhase::Finished(Err(error)),
                    had_work: true,
                    ..self
                },
                Receipt::Empty => self.to_mixing(),
                Receipt::Disconnected => {
                    let alone = ProcessLoop { microphone_disconnected: true, ..self };
                    if self.capture_audio {
                        ProcessLoop { phase: ProcessPhase::DroppingMicrophone, ..alone }
                    } else {
                        alone.to_mixing()
                    }
                },
            },
            (ProcessPhase::AddingMicrophone, ProcessReply::Done(_)) => self.to_mixing(),
            (ProcessPhase::DroppingMicrophone, ProcessReply::Done(_)) => self.to_mixing(),
            (ProcessPhase::Mixing, ProcessReply::Mixed(mixed)) => match mixed {
                None => self.to_idle(),
                Some(Ok(time)) => ProcessLoop {
                    phase: if self.has_replay {
                        ProcessPhase::Buffering(time)
                    } else {
                        ProcessPhase::Writing
                    },
                    had_work: true,
                    ..self
                },
                Some(Err(_)) => ProcessLoop { had_work: true, ..self },
            },
            (ProcessPhase::Buffering(_), ProcessReply::Done(result)) => ProcessLoop {
                phase: unless_refused(result, ProcessPhase::Writing),
                ..self
            },
            (ProcessPhase::Writing, ProcessReply::Done(result)) => ProcessLoop {
                phase: unless_refused(result, ProcessPhase::Mixing),
                ..self
            },
            (ProcessPhase::Sleeping, ProcessReply::Done(_)) => ProcessLoop {
                phase: ProcessPhase::Checking,
                ..self
            },
            (ProcessPhase::StoppingEncoder, ProcessReply::Done(result)) => ProcessLoop {
                phase: unless_refused(result, ProcessPhase::Finalizing),
                ..self
            },
            (ProcessPhase::Finalizing, ProcessReply::Done(result)) => ProcessLoop {
                phase: unless_refused(result, ProcessPhase::Finished(Ok(()))),
                ..self
            },
            _ => self,
        }
    }

    /// Whether the mixer is asked next, once a reply has come.
    pub(crate) fn leads_to_mixing(&self, reply: &ProcessReply) -> (r: bool)
        requires
            self.expects(*reply),
        ensures
            r == (self.next(*reply).phase is Mixing),
    {
        let sound: bool = self.capture_audio || self.capture_microphone;
        let past_audio: bool = !self.capture_audio || self.audio_disconnected;
        let past_microphone: bool = !self.capture_microphone || self.microphone_disconnected;
        match (&self.phase, reply) {
            (ProcessPhase::CheckingEncoder, ProcessReply::EncoderFinished(ended)) => !*ended
                && past_audio && past_microphone && sound,
            (ProcessPhase::ReceivingAudio, ProcessReply::Received(receipt)) => match receipt {
                Receipt::Sample(_) => false,
                _ => past_microphone && sound,
            },
            (ProcessPhase::AddingAudio, _) => past_microphone && sound,
            (ProcessPhase::ReceivingMicrophone, ProcessReply::Received(receipt)) => match receipt {
                Receipt::Sample(_) => false,
                Receipt::Empty => sound,
                Receipt::Disconnected => !self.capture_audio && sound,
            },
            (ProcessPhase::AddingMicrophone, _) => sound,
            (ProcessPhase::DroppingMicrophone, _) => sound,
            (ProcessPhase::Mixing, ProcessReply::Mixed(mixed)) => match mixed {
                Some(Err(_)) => true,
                _ => false,
            },
            (ProcessPhase::Writing, ProcessReply::Done(result)) => result.is_ok(),
            _ => false,
        }
    }

    /// Computes `to_idle`.
    fn go_to_idle(&mut self)
        ensures
            *final(self) == old(self).to_idle(),
    {
        self.phase = if self.had_work {
            ProcessPhase::Checking
        } else {
            ProcessPhase::Sleeping
        };
    }

    /// Computes `to_mixing`.
    fn go_to_mixing(&mut self)
        ensures
            *final(self) == old(self).to_mixing(),
    {
        if self.capture_audio || self.capture_microphone {
            self.phase = ProcessPhase::Mixing;
        } else {
            self.go_to_idle();
        }
    }

    /// Computes `to_microphone`.
    fn go_to_microphone(&mut self)
        ensures
            *final(self) == old(self).to_microphone(),
    {
        if self.capture_microphone && !self.microphone_disconnected {
            self.phase = ProcessPhase::ReceivingMicrophone;
        } else {
            self.go_to_mixing();
        }
    }

    /// Computes `to_audio`.
    fn go_to_audio(&mut self)
        ensures
            *final(self) == old(self).to_audio(),
    {
        if self.capture_audio && !self.audio_disconnected {
            self.phase = ProcessPhase::ReceivingAudio;
        } else {
            self.go_to_microphone();
        }
    }

    /// Goes on after a reply.
    pub fn advance(&mut self, reply: ProcessReply)
        requires
            old(self).wf(),
            old(self).expects(reply),
        ensures
            final(self).wf(),
            *final(self) == old(self).next(reply),
    {
        match (&self.phase, reply) {
            (ProcessPhase::Checking, ProcessReply::Recording(on)) => {
                if on {
                    self.had_work = false;
                    self.phase = ProcessPhase::CheckingEncoder;
                } else {
                    self.phase = ProcessPhase::StoppingEncoder;
                }
            },
            (ProcessPhase::CheckingEncoder, ProcessReply::EncoderFinished(ended)) => {
                if ended {
                    self.phase = ProcessPhase::StoppingRecording;
                } else {
                    self.go_to_audio();
                }
            },
            (ProcessPhase::StoppingRecording, ProcessReply::Done(_)) => {
                self.phase = ProcessPhase::StoppingEncoder;
            },
            (ProcessPhase::ReceivingAudio, ProcessReply::Received(receipt)) => {
                match receipt {
                    Receipt::Sample(Ok(_)) => {
                        self.had_work = true;
                        self.phase = ProcessPhase::AddingAudio;
                    },
                    Receipt::Sample(Err(error)) => {
                        self.had_work = true;
                        self.phase = ProcessPhase::Finished(Err(error));
                    },
                    Receipt::Empty => {
                        self.go_to_microphone();
                    },
                    Receipt::Disconnected => {
                        self.audio_disconnected = true;
                        self.go_to_microphone();
                    },
                }
            },
            (ProcessPhase::AddingAudio, ProcessReply::Done(_)) => {
                self.go_to_microphone();
            },
            (ProcessPhase::ReceivingMicrophone, ProcessReply::Received(receipt)) => {
                match receipt {
                    Receipt::Sample(Ok(_)) => {
                        self.had_work = true;
                        self.phase = ProcessPhase::AddingMicrophone;
                    },
                    Receipt::Sample(Err(error)) => {
                        self.had_work = true;
                        self.phase = ProcessPhase::Finished(Err(error));
                    },
                    Receipt::Empty => {
                        self.go_to_mixing();
                    },
                    Receipt::Disconnected => {
                        self.microphone_disconnected = true;
                        if self.capture_audio {
                            self.phase = ProcessPhase::DroppingMicrophone;
                        } else {
                            self.go_to_mixing();
                        }
                    },
                }
            },
            (ProcessPhase::AddingMicrophone, ProcessReply::Done(_)) => {
                self.go_to_mixing();
            },
            (ProcessPhase::DroppingMicrophone, ProcessReply::Done(_)) => {
                self.go_to_mixing();
            },
            (ProcessPhase::Mixing, ProcessReply::Mixed(mixed)) => {
                match mixed {
                    None => {
                        self.go_to_idle();
                    },
                    Some(Ok(time)) => {
                        self.had_work = true;
                        self.phase = if self.has_replay {
                            ProcessPhase::Buffering(time)
                        } else {
                            ProcessPhase::Writing
                        };
                    },
                    Some(Err(_)) => {
                        self.had_work = true;
                    },
                }
            },
            (ProcessPhase::Buffering(_), ProcessReply::Done(result)) => {
                self.phase = go_on(result, ProcessPhase::Writing);
            },
            (ProcessPhase::Writing, ProcessReply::Done(result)) => {
                self.phase = go_on(result, ProcessPhase::Mixing);
            },
            (ProcessPhase::Sleeping, ProcessReply::Done(_)) => {
                self.phase = ProcessPhase::Checking;
            },
            (ProcessPhase::StoppingEncoder, ProcessReply::Done(result)) => {
                self.phase = go_on(result, ProcessPhase::Finalizing);
            },
            (ProcessPhase::Finalizing, ProcessReply::Done(result)) => {
                self.phase = go_on(result, ProcessPhase::Finished(Ok(())));
            },
            _ => {},
        }
    }
}

/// Whether every reply of a run answers the action at hand.
pub open spec fn is_run(p: ProcessLoop, replies: Seq<ProcessReply>) -> bool
    decreases replies.len(),
{
    replies.len() > 0 ==> p.expects(replies[0]) && is_run(p.next(replies[0]), replies.drop_first())
}

/// The processing after all replies of a run.
pub open spec fn after(p: ProcessLoop, replies: Seq<ProcessReply>) -> ProcessLoop
    decreases replies.len(),
{
    if replies.len() == 0 {
        p
    } else {
        after(p.next(replies[0]), replies.drop_first())
    }
}

/// The times of the mixed audio that a run comes across.
pub open spec fn mixed_times(p: ProcessLoop, replies: Seq<ProcessReply>) -> Seq<i64>
    decreases replies.len(),
{
    if replies.len() == 0 {
        Seq::empty()
    } else {
        let rest = mixed_times(p.next(replies[0]), replies.drop_first());
        match replies[0] {
            ProcessReply::Mixed(Some(Ok(time))) => seq![time] + rest,
            _ => rest,
        }
    }
}

/// The times of the mixed audio that a run puts in the replay buffer.
pub open spec fn buffered_times(p: ProcessLoop, replies: Seq<ProcessReply>) -> Seq<i64>
    decreases replies.len(),
{
    if replies.len() == 0 {
        Seq::empty()
    } else {
        let rest = buffered_times(p.next(replies[0]), replies.drop_first());
        match p.phase {
            ProcessPhase::Buffering(time) => seq![time] + rest,
            _ => rest,
        }
    }
}

/// How many times a run writes mixed audio to the file.
pub open spec fn writes(p: ProcessLoop, replies: Seq<ProcessReply>) -> nat
    decreases replies.len(),
{
    if replies.len() == 0 {
        0
    } else {
        let rest = writes(p.next(replies[0]), replies.drop_first());
        if p.phase is Writing {
            rest + 1
        } else {
            rest
        }
    }
}

/// Mixed audio that is still to be put in the replay buffer in a phase.
spec fn unbuffered(phase: ProcessPhase) -> Seq<i64> {
    match phase {
        ProcessPhase::Buffering(time) => seq![time],
        _ => Seq::empty(),
    }
}

/// How much mixed audio is still to be written in a phase.
spec fn unwritten(phase: ProcessPhase) -> nat {
    if phase is Buffering || phase is Writing {
        1
    } else {
        0
    }
}

/// What is held and what comes is buffered and written.
proof fn mixed_audio_is_used(p: ProcessLoop, replies: Seq<ProcessReply>)
    requires
        p.wf(),
        is_run(p, replies),
        after(p, replies).phase == ProcessPhase::Finished(Ok(())),
    ensures
        p.phase matches ProcessPhase::Finished(outcome) ==> outcome is Ok,
        writes(p, replies) == unwritten(p.phase) + mixed_times(p, replies).len(),
        p.has_replay ==> buffered_times(p, replies) == unbuffered(p.phase) + mixed_times(
            p,
            replies,
        ),
        !p.has_replay ==> buffered_times(p, replies) == Seq::<i64>::empty(),
    decreases replies.len(),
{
    if replies.len() > 0 {
        let q = p.next(replies[0]);
        mixed_audio_is_used(q, replies.drop_first());
    }
    if p.has_replay {
        assert(buffered_times(p, replies) =~= unbuffered(p.phase) + mixed_times(p, replies));
    } else {
        assert(buffered_times(p, replies) =~= Seq::<i64>::empty());
    }
}

/// All mixed audio is written to the file, and put in the replay buffer in its
/// order where there is one, where the processing ends well.
pub proof fn mixed_audio_is_recorded(p: ProcessLoop, replies: Seq<ProcessReply>)
    requires
        p.phase is Checking,
        is_run(p, replies),
        after(p, replies).phase == ProcessPhase::Finished(Ok(())),
    ensures
        writes(p, replies) == mixed_times(p, replies).len(),
        p.has_replay ==> buffered_times(p, replies) == mixed_times(p, replies),
        !p.has_replay ==> buffered_times(p, replies) == Seq::<i64>::empty(),
{
    mixed_audio_is_used(p, replies);
    if p.has_replay {
        assert(buffered_times(p, replies) =~= mixed_times(p, replies));
    }
}

/// The processing ends well only once the file was closed.
pub proof fn ends_after_the_file_is_closed(p: ProcessLoop, reply: ProcessReply)
    requires
        p.expects(reply),
        p.next(reply).phase == ProcessPhase::Finished(Ok(())),
    ensures
        p.phase is Finalizing,
        reply matches ProcessReply::Done(Ok(_)),
{
}

/// A source that nothing comes from any more is not asked again.
pub proof fn disconnection_is_final(p: ProcessLoop, reply: ProcessReply)
    requires
        p.expects(reply),
    ensures
        p.audio_disconnected ==> p.next(reply).audio_disconnected && !(p.next(
            reply,
        ).phase is ReceivingAudio),
        p.microphone_disconnected ==> p.next(reply).microphone_disconnected && !(p.next(
            reply,
        ).phase is ReceivingMicrophone),
{
}

/// How many times a run writes to the stream of the audio.
pub open spec fn audio_writes(p: ProcessLoop, replies: Seq<ProcessReply>) -> nat
    decreases replies.len(),
{
    if replies.len() == 0 {
        0
    } else {
        let rest = audio_writes(p.next(replies[0]), replies.drop_first());
        if process_action(p.phase) == ProcessAction::Write(1) {
            rest + 1
        } else {
            rest
        }
    }
}

/// The times at which a run puts audio in the replay buffer.
pub open spec fn buffer_actions(p: ProcessLoop, replies: Seq<ProcessReply>) -> Seq<i64>
    decreases replies.len(),
{
    if replies.len() == 0 {
        Seq::empty()
    } else {
        let rest = buffer_actions(p.next(replies[0]), replies.drop_first());
        match process_action(p.phase) {
            ProcessAction::Buffer(time) => seq![time] + rest,
            _ => rest,
        }
    }
}

/// What is done by phases is done by actions.
proof fn phases_are_actions(p: ProcessLoop, replies: Seq<ProcessReply>)
    ensures
        audio_writes(p, replies) == writes(p, replies),
        buffer_actions(p, replies) == buffered_times(p, replies),
    decreases replies.len(),
{
    if replies.len() > 0 {
        phases_are_actions(p.next(replies[0]), replies.drop_first());
    }
}

/// All mixed audio is written to the second stream of the file, and put in the
/// replay buffer at its time and in its order where there is one, where the
/// processing ends well.
pub proof fn mixed_audio_goes_to_file_and_buffer(p: ProcessLoop, replies: Seq<ProcessReply>)
    requires
        p.phase is Checking,
        is_run(p, replies),
        after(p, replies).phase == ProcessPhase::Finished(Ok(())),
    ensures
        audio_writes(p, replies) == mixed_times(p, replies).len(),
        p.has_replay ==> buffer_actions(p, replies) == mixed_times(p, replies),
        !p.has_replay ==> buffer_actions(p, replies).len() == 0,
{
    mixed_audio_is_recorded(p, replies);
    phases_are_actions(p, replies);
}

/// Mixed audio is buffered before it is written, and then the mixer is asked
/// again. A failure of either ends the processing with that failure.
pub proof fn buffering_comes_before_writing(
    p: ProcessLoop,
    time: i64,
    result: Result<(), WindowsError>,
)
    requires
        p.phase is Mixing,
    ensures
        ({
            let q = p.next(ProcessReply::Mixed(Some(Ok(time))));
            let r = if p.has_replay {
                q.next(ProcessReply::Done(Ok(())))
            } else {
                q
            };
            &&& p.has_replay ==> process_action(q.phase) == ProcessAction::Buffer(time)
            &&& process_action(r.phase) == ProcessAction::Write(1)
            &&& match result {
                Ok(_) => r.next(ProcessReply::Done(result)).phase is Mixing,
                Err(error) => {
                    &&& r.next(ProcessReply::Done(result)).phase == ProcessPhase::Finished(
                        Err(error),
                    )
                    &&& p.has_replay ==> q.next(ProcessReply::Done(result)).phase
                        == ProcessPhase::Finished(Err(error))
                },
            }
        }),
{
}

/// The first source of sound that is asked in a round: system audio where it is
/// recorded and may have something, else the microphone where it does, else the
/// mixer where any sound is recorded.
pub proof fn sources_are_asked_in_turn(p: ProcessLoop)
    requires
        p.phase is CheckingEncoder,
        !p.had_work,
    ensures
        ({
            let q = p.next(ProcessReply::EncoderFinished(false));
            let a = process_action(q.phase);
            if p.capture_audio && !p.audio_disconnected {
                a == ProcessAction::ReceiveAudio
            } else if p.capture_microphone && !p.microphone_disconnected {
                a == ProcessAction::ReceiveMicrophone
            } else if p.capture_audio || p.capture_microphone {
                a == ProcessAction::Mix
            } else {
                a matches ProcessAction::Sleep(time) && time@ == 1_000_000
            }
        }),
{
}

/// System audio that has come goes to the mixer. Then, and where there is none,
/// the microphone is asked where it may have something, and else the mixer.
pub proof fn microphone_is_asked_after_the_system(p: ProcessLoop)
    requires
        p.phase is ReceivingAudio,
        p.capture_audio,
    ensures
        ({
            let wanted = if p.capture_microphone && !p.microphone_disconnected {
                ProcessAction::ReceiveMicrophone
            } else {
                ProcessAction::Mix
            };
            let q = p.next(ProcessReply::Received(Receipt::Sample(Ok(()))));
            &&& process_action(q.phase) == ProcessAction::AddAudio
            &&& q.had_work
            &&& process_action(q.next(ProcessReply::Done(Ok(()))).phase) == wanted
            &&& process_action(p.next(ProcessReply::Received(Receipt::Empty)).phase) == wanted
            &&& process_action(p.next(ProcessReply::Received(Receipt::Disconnected)).phase)
                == wanted
            &&& p.next(ProcessReply::Received(Receipt::Disconnected)).audio_disconnected
            &&& !p.audio_disconnected ==> !p.next(
                ProcessReply::Received(Receipt::Empty),
            ).audio_disconnected
        }),
{
}

/// A sample of the microphone that has come goes to the mixer, and then the mixer
/// is asked. Where the microphone is gone, the mixer no longer waits for it.
pub proof fn mixer_is_asked_after_the_microphone(p: ProcessLoop)
    requires
        p.phase is ReceivingMicrophone,
        p.capture_microphone,
    ensures
        ({
            let q = p.next(ProcessReply::Received(Receipt::Sample(Ok(()))));
            let gone = p.next(ProcessReply::Received(Receipt::Disconnected));
            &&& process_action(q.phase) == ProcessAction::AddMicrophone
            &&& q.had_work
            &&& process_action(q.next(ProcessReply::Done(Ok(()))).phase) == ProcessAction::Mix
            &&& process_action(p.next(ProcessReply::Received(Receipt::Empty)).phase)
                == ProcessAction::Mix
            &&& gone.microphone_disconnected
            &&& p.capture_audio ==> process_action(gone.phase) == ProcessAction::DropMicrophone
                && process_action(gone.next(ProcessReply::Done(Ok(()))).phase)
                == ProcessAction::Mix
            &&& !p.capture_audio ==> process_action(gone.phase) == ProcessAction::Mix
        }),
{
}

/// A sample whose time stamp cannot be read ends the processing with that failure.
pub proof fn unreadable_sound_ends_the_processing(p: ProcessLoop, error: WindowsError)
    requires
        p.phase is ReceivingAudio || p.phase is ReceivingMicrophone,
    ensures
        p.next(ProcessReply::Received(Receipt::Sample(Err(error)))).phase
            == ProcessPhase::Finished(Err(error)),
{
}

/// Whether there was something to do since the last round began.
pub open spec fn has_worked(replies: Seq<ProcessReply>) -> bool
    decreases replies.len(),
{
    replies.len() > 0 && match replies.last() {
        ProcessReply::Recording(_) => false,
        ProcessReply::Received(Receipt::Sample(_)) => true,
        ProcessReply::Mixed(Some(_)) => true,
        _ => has_worked(replies.drop_last()),
    }
}

/// The processing after one more reply.
proof fn one_more_reply(p: ProcessLoop, replies: Seq<ProcessReply>)
    requires
        replies.len() > 0,
        is_run(p, replies),
    ensures
        is_run(p, replies.drop_last()),
        after(p, replies.drop_last()).expects(replies.last()),
        after(p, replies) == after(p, replies.drop_last()).next(replies.last()),
    decreases replies.len(),
{
    reveal_with_fuel(after, 2);
    reveal_with_fuel(is_run, 2);
    if replies.len() > 1 {
        let rest = replies.drop_first();
        one_more_reply(p.next(replies[0]), rest);
        assert(rest.drop_last() =~= replies.drop_last().drop_first());
        assert(replies.drop_last()[0] == replies[0]);
        assert(rest.last() == replies.last());
    } else {
        assert(replies.drop_last().len() == 0);
    }
}

/// There is a break only in a round in which no sound came and none was mixed, and
/// a round without either has one.
pub proof fn breaks_are_for_rounds_without_work(p: ProcessLoop, replies: Seq<ProcessReply>)
    requires
        p.phase is Checking,
        !p.had_work,
        is_run(p, replies),
    ensures
        ({
            let q = after(p, replies);
            &&& process_action(q.phase) is Sleep ==> !has_worked(replies)
            &&& q.phase is Mixing ==> (process_action(q.next(ProcessReply::Mixed(None)).phase)
                is Sleep <==> !has_worked(replies))
        }),
{
    work_is_noted(p, replies);
}

/// What was done in a round is noted.
proof fn work_is_noted(p: ProcessLoop, replies: Seq<ProcessReply>)
    requires
        p.phase is Checking,
        !p.had_work,
        is_run(p, replies),
    ensures
        ({
            let q = after(p, replies);
            &&& q.wf()
            &&& !(q.phase is Checking || q.phase is StoppingEncoder || q.phase is StoppingRecording
                || q.phase is Finalizing || q.phase is Finished) ==> q.had_work == has_worked(
                replies,
            )
        }),
    decreases replies.len(),
{
    if replies.len() > 0 {
        let before = replies.drop_last();
        one_more_reply(p, replies);
        work_is_noted(p, before);
    }
}

/// The processing goes on while the recording and the encoder do. Once either has
/// ended, the encoder is stopped and the file is closed, and a recording that goes
/// on is ended first.
pub proof fn processing_ends_with_the_recording(
    p: ProcessLoop,
    error: WindowsError,
)
    ensures
        p.phase is Checking ==> {
            &&& process_action(p.next(ProcessReply::Recording(true)).phase)
                == ProcessAction::CheckEncoder
            &&& process_action(p.next(ProcessReply::Recording(false)).phase)
                == ProcessAction::StopEncoder
        },
        p.phase is CheckingEncoder ==> process_action(
            p.next(ProcessReply::EncoderFinished(true)).phase,
        ) == ProcessAction::StopRecording,
        p.phase is StoppingRecording ==> process_action(p.next(ProcessReply::Done(Ok(()))).phase)
            == ProcessAction::StopEncoder,
        p.phase is StoppingEncoder ==> {
            &&& process_action(p.next(ProcessReply::Done(Ok(()))).phase) == ProcessAction::Finalize
            &&& p.next(ProcessReply::Done(Err(error))).phase == ProcessPhase::Finished(Err(error))
        },
        p.phase is Finalizing ==> {
            &&& process_action(p.next(ProcessReply::Done(Ok(()))).phase)
                == ProcessAction::Finish(true)
            &&& p.next(ProcessReply::Done(Err(error))).phase == ProcessPhase::Finished(Err(error))
        },
{
}

} // verus!
