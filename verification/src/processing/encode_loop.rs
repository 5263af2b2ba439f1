//! Encoding picture after picture: what to do next, given what came of the
//! last step.
use crate::error::WindowsError;
use crate::processing::video::MF_E_TRANSFORM_NEED_MORE_INPUT;
use vstd::prelude::*;

verus! {

/// A message to the encoder.
#[derive(Debug, Clone, Copy, PartialEq, Eq, Structural)]
pub enum EncoderMessage {
    /// Samples are about to come.
    BeginStreaming,
    /// The first sample is about to come.
    StartOfStream,
    /// Drop what is there.
    Flush,
    /// The last sample has come.
    EndOfStream,
    /// No more samples come.
    EndStreaming,
}

/// Where the encoding stands.
#[derive(Debug)]
pub enum EncodePhase {
    /// The encoder is to be told that samples are about to come.
    BeginningStreaming,
    /// The encoder is to be told that the first sample is about to come.
    StartingStream,
    /// The encoder is to be emptied before the first sample.
    FlushingFirst,
    /// Is the encoding to stop?
    Checking,
    /// Is there encoded video?
    GettingOutput,
    /// The encoded video is to be passed on.
    Delivering,
    /// Is there a picture?
    RequestingInput,
    /// The picture is to be handed to the encoder.
    Submitting,
    /// The encoder is to be told that there are no more pictures.
    EndingInput,
    /// The encoder is to be told that the last sample has come.
    ClosingStream,
    /// The encoder is to be told that no more samples come.
    EndingStreaming,
    /// The encoder is to be emptied for the last time.
    FlushingLast,
    /// The encoding is over.
    Finished(Result<(), WindowsError>),
}

/// What to do next.
#[derive(Debug, Clone, Copy, PartialEq, Eq, Structural)]
pub enum EncodeAction {
    /// Send a message to the encoder.
    Notify(EncoderMessage),
    /// Find out whether the encoding is to stop.
    CheckStop,
    /// Ask the encoder for encoded video.
    GetOutput,
    /// Pass the encoded video on.
    Deliver,
    /// Ask for the next picture.
    RequestInput,
    /// Hand the picture to the encoder.
    Submit,
    /// Stop: the encoding is over, and well or not.
    Finish(bool),
}

/// What came of an action.
#[derive(Debug)]
pub enum EncodeReply {
    /// It is done, or the system reported an error.
    Done(Result<(), WindowsError>),
    /// Whether the encoding is to stop.
    Stop(bool),
    /// Whether there is encoded video.
    Output(Result<bool, WindowsError>),
    /// Whether there is a picture.
    Input(Result<bool, WindowsError>),
}

/// The encoding of one stream.
#[derive(Debug)]
pub struct EncodeLoop {
    /// Where it stands.
    pub phase: EncodePhase,
    /// Whether the encoder needs a picture.
    pub needs_input: bool,
    /// Whether the encoder is at work on a picture.
    pub processing_input: bool,
    /// How many frames were encoded.
    pub frame_count: u64,
}

/// What to do in a phase.
pub open spec fn encode_action(phase: EncodePhase) -> EncodeAction {
    match phase {
        EncodePhase::BeginningStreaming => EncodeAction::Notify(EncoderMessage::BeginStreaming),
        EncodePhase::StartingStream => EncodeAction::Notify(EncoderMessage::StartOfStream),
        EncodePhase::FlushingFirst => EncodeAction::Notify(EncoderMessage::Flush),
        EncodePhase::Checking => EncodeAction::CheckStop,
        EncodePhase::GettingOutput => EncodeAction::GetOutput,
        EncodePhase::Delivering => EncodeAction::Deliver,
        EncodePhase::RequestingInput => EncodeAction::RequestInput,
        EncodePhase::Submitting => EncodeAction::Submit,
        EncodePhase::EndingInput => EncodeAction::Notify(EncoderMessage::EndOfStream),
        EncodePhase::ClosingStream => EncodeAction::Notify(EncoderMessage::EndOfStream),
        EncodePhase::EndingStreaming => EncodeAction::Notify(EncoderMessage::EndStreaming),
        EncodePhase::FlushingLast => EncodeAction::Notify(EncoderMessage::Flush),
        EncodePhase::Finished(outcome) => EncodeAction::Finish(outcome is Ok),
    }
}

/// The phase that follows a step that the system may refuse.
pub open spec fn unless_refused(result: Result<(), WindowsError>, next: EncodePhase) -> EncodePhase {
    match result {
        Ok(_) => next,
        Err(error) => EncodePhase::Finished(Err(error)),
    }
}

/// Computes `unless_refused`.
fn go_on(result: Result<(), WindowsError>, next: EncodePhase) -> (r: EncodePhase)
    ensures
        r == unless_refused(result, next),
{
    match result {
        Ok(_) => next,
        Err(error) => EncodePhase::Finished(Err(error)),
    }
}

impl EncodeLoop {
    /// Whether the encoder is not both at work on a picture and in need of one,
    /// and a picture is asked for only where it needs one.
    pub open spec fn wf(self) -> bool {
        &&& !(self.needs_input && self.processing_input)
        &&& self.phase is RequestingInput || self.phase is Submitting || self.phase is EndingInput
            ==> self.needs_input
        &&& self.phase is GettingOutput || self.phase is Delivering ==> !self.needs_input
    }

    /// The encoding before its first step.
    pub fn new() -> (r: Self)
        ensures
            r.wf(),
            r == (EncodeLoop {
                phase: EncodePhase::BeginningStreaming,
                needs_input: true,
                processing_input: false,
                frame_count: 0,
            }),
    {
        EncodeLoop {
            phase: EncodePhase::BeginningStreaming,
            needs_input: true,
            processing_input: false,
            frame_count: 0,
        }
    }

    /// How many frames were encoded.
    pub fn frame_count(&self) -> (r: u64)
        ensures
            r == self.frame_count,
    {
        self.frame_count
    }

    /// What to do next.
    pub fn action(&self) -> (r: EncodeAction)
        ensures
            r == encode_action(self.phase),
    {
        match &self.phase {
            EncodePhase::BeginningStreaming => EncodeAction::Notify(EncoderMessage::BeginStreaming),
            EncodePhase::StartingStream => EncodeAction::Notify(EncoderMessage::StartOfStream),
            EncodePhase::FlushingFirst => EncodeAction::Notify(EncoderMessage::Flush),
            EncodePhase::Checking => EncodeAction::CheckStop,
            EncodePhase::GettingOutput => EncodeAction::GetOutput,
            EncodePhase::Delivering => EncodeAction::Deliver,
            EncodePhase::RequestingInput => EncodeAction::RequestInput,
            EncodePhase::Submitting => EncodeAction::Submit,
            EncodePhase::EndingInput => EncodeAction::Notify(EncoderMessage::EndOfStream),
            EncodePhase::ClosingStream => EncodeAction::Notify(EncoderMessage::EndOfStream),
            EncodePhase::EndingStreaming => EncodeAction::Notify(EncoderMessage::EndStreaming),
            EncodePhase::FlushingLast => EncodeAction::Notify(EncoderMessage::Flush),
            EncodePhase::Finished(outcome) => EncodeAction::Finish(outcome.is_ok()),
        }
    }

    /// Whether a reply answers the action at hand, and the frames can be
    /// counted.
    pub open spec fn expects(self, reply: EncodeReply) -> bool {
        match (self.phase, reply) {
            (EncodePhase::Checking, EncodeReply::Stop(_)) => true,
            (EncodePhase::GettingOutput, EncodeReply::Output(_)) => true,
            (EncodePhase::RequestingInput, EncodeReply::Input(_)) => true,
            (EncodePhase::Delivering, EncodeReply::Done(_)) => self.frame_count < u64::MAX,
            (EncodePhase::BeginningStreaming, EncodeReply::Done(_)) => true,
            (EncodePhase::StartingStream, EncodeReply::Done(_)) => true,
            (EncodePhase::FlushingFirst, EncodeReply::Done(_)) => true,
            (EncodePhase::Submitting, EncodeReply::Done(_)) => true,
            (EncodePhase::EndingInput, EncodeReply::Done(_)) => true,
            (EncodePhase::ClosingStream, EncodeReply::Done(_)) => true,
            (EncodePhase::EndingStreaming, EncodeReply::Done(_)) => true,
            (EncodePhase::FlushingLast, EncodeReply::Done(_)) => true,
            _ => false,
        }
    }

    /// Computes `expects`.
    pub fn accepts(&self, reply: &EncodeReply) -> (r: bool)
        ensures
            r == self.expects(*reply),
    {
        match (&self.phase, reply) {
            (EncodePhase::Checking, EncodeReply::Stop(_)) => true,
            (EncodePhase::GettingOutput, EncodeReply::Output(_)) => true,
            (EncodePhase::RequestingInput, EncodeReply::Input(_)) => true,
            (EncodePhase::Delivering, EncodeReply::Done(_)) => self.frame_count < u64::MAX,
            (EncodePhase::BeginningStreaming, EncodeReply::Done(_)) => true,
            (EncodePhase::StartingStream, EncodeReply::Done(_)) => true,
            (EncodePhase::FlushingFirst, EncodeReply::Done(_)) => true,
            (EncodePhase::Submitting, EncodeReply::Done(_)) => true,
            (EncodePhase::EndingInput, EncodeReply::Done(_)) => true,
            (EncodePhase::ClosingStream, EncodeReply::Done(_)) => true,
            (EncodePhase::EndingStreaming, EncodeReply::Done(_)) => true,
            (EncodePhase::FlushingLast, EncodeReply::Done(_)) => true,
            _ => false,
        }
    }

    /// The encoding where it goes on to pictures: one is asked for where the
    /// encoder needs it.
    pub open spec fn to_input(self) -> EncodeLoop {
        EncodeLoop {
            phase: if self.needs_input && !self.processing_input {
                EncodePhase::RequestingInput
            } else {
                EncodePhase::Checking
            },
            ..self
        }
    }

    /// The encoding after encoded video failed to come or to be passed on. It
    /// is no failure that the encoder needs more pictures.
    pub open spec fn output_failed(self, error: WindowsError) -> EncodeLoop {
        if error.code == MF_E_TRANSFORM_NEED_MORE_INPUT {
            (EncodeLoop { needs_input: true, processing_input: false, ..self }).to_input()
        } else {
            EncodeLoop { phase: EncodePhase::Finished(Err(error)), ..self }
        }
    }

    /// The encoding after a reply.
    pub open spec fn next(self, reply: EncodeReply) -> EncodeLoop {
        match (self.phase, reply) {
            (EncodePhase::BeginningStreaming, EncodeReply::Done(result)) => EncodeLoop {
                phase: unless_refused(result, EncodePhase::StartingStream),
                ..self
            },
            (EncodePhase::StartingStream, EncodeReply::Done(result)) => EncodeLoop {
                phase: unless_refused(result, EncodePhase::FlushingFirst),
                ..self
            },
            (EncodePhase::FlushingFirst, EncodeReply::Done(result)) => EncodeLoop {
                phase: unless_refused(result, EncodePhase::Checking),
                ..self
            },
            (EncodePhase::Checking, EncodeReply::Stop(stop)) => if stop {
                EncodeLoop { phase: EncodePhase::ClosingStream, ..self }
            } else if !self.needs_input {
                EncodeLoop { phase: EncodePhase::GettingOutput, ..self }
            } else {
                self.to_input()
            },
            (EncodePhase::GettingOutput, EncodeReply::Output(Ok(given))) => if given {
                EncodeLoop { phase: EncodePhase::Delivering, ..self }
            } else {
                self.to_input()
            },
            (EncodePhase::GettingOutput, EncodeReply::Output(Err(error))) => self.output_failed(
                error,
            ),
            (EncodePhase::Delivering, EncodeReply::Done(Ok(_))) => EncodeLoop {
                phase: EncodePhase::Checking,
                frame_count: (self.frame_count + 1) as u64,
                ..self
            },
            (EncodePhase::Delivering, EncodeReply::Done(Err(error))) => self.output_failed(error),
            (EncodePhase::RequestingInput, EncodeReply::Input(Ok(given))) => EncodeLoop {
                phase: if given {
                    EncodePhase::Submitting
                } else {
                    EncodePhase::EndingInput
                },
                ..self
            },
            (EncodePhase::RequestingInput, EncodeReply::Input(Err(error))) => EncodeLoop {
                phase: EncodePhase::Finished(Err(error)),
                ..self
            },
            (EncodePhase::Submitting, EncodeReply::Done(Ok(_))) => EncodeLoop {
                phase: EncodePhase::Checking,
                needs_input: false,
                processing_input: true,
                ..self
            },
            (EncodePhase::Submitting, EncodeReply::Done(Err(error))) => EncodeLoop {
                phase: EncodePhase::Finished(Err(error)),
                ..self
            },
            (EncodePhase::EndingInput, EncodeReply::Done(Ok(_))) => EncodeLoop {
                phase: EncodePhase::Checking,
                needs_input: false,
                processing_input: false,
                ..self
            },
            (EncodePhase::EndingInput, EncodeReply::Done(Err(error))) => EncodeLoop {
                phase: EncodePhase::Finished(Err(error)),
                ..self
            },
            (EncodePhase::ClosingStream, EncodeReply::Done(_)) => EncodeLoop {
                phase: EncodePhase::EndingStreaming,
                ..self
            },
            (EncodePhase::EndingStreaming, EncodeReply::Done(result)) => EncodeLoop {
                phase: unless_refused(result, EncodePhase::FlushingLast),
                ..self
            },
            (EncodePhase::FlushingLast, EncodeReply::Done(result)) => EncodeLoop {
                phase: unless_refused(result, EncodePhase::Finished(Ok(()))),
                ..self
            },
            _ => self,
        }
    }

    /// Computes `to_input`.
    fn go_to_input(&mut self)
        ensures
            *final(self) == old(self).to_input(),
    {
        self.phase = if self.needs_input && !self.processing_input {
            EncodePhase::RequestingInput
        } else {
            EncodePhase::Checking
        };
    }

    /// Computes `output_failed`.
    fn fail_output(&mut self, error: WindowsError)
        ensures
            *final(self) == old(self).output_failed(error),
    {
        if error.code == MF_E_TRANSFORM_NEED_MORE_INPUT {
            self.needs_input = true;
            self.processing_input = false;
            self.go_to_input();
        } else {
            self.phase = EncodePhase::Finished(Err(error));
        }
    }

    /// Goes on after a reply.
    pub fn advance(&mut self, reply: EncodeReply)
        requires
            old(self).wf(),
            old(self).expects(reply),
        ensures
            final(self).wf(),
            *final(self) == old(self).next(reply),
    {
        match (&self.phase, reply) {
            (EncodePhase::BeginningStreaming, EncodeReply::Done(result)) => {
                self.phase = go_on(result, EncodePhase::StartingStream);
            },
            (EncodePhase::StartingStream, EncodeReply::Done(result)) => {
                self.phase = go_on(result, EncodePhase::FlushingFirst);
            },
            (EncodePhase::FlushingFirst, EncodeReply::Done(result)) => {
                self.phase = go_on(result, EncodePhase::Checking);
            },
            (EncodePhase::Checking, EncodeReply::Stop(stop)) => {
                if stop {
                    self.phase = EncodePhase::ClosingStream;
                } else if !self.needs_input {
                    self.phase = EncodePhase::GettingOutput;
                } else {
                    self.go_to_input();
                }
            },
            (EncodePhase::GettingOutput, EncodeReply::Output(Ok(given))) => {
                if given {
                    self.phase = EncodePhase::Delivering;
                } else {
                    self.go_to_input();
                }
            },
            (EncodePhase::GettingOutput, EncodeReply::Output(Err(error))) => {
                self.fail_output(error);
            },
            (EncodePhase::Delivering, EncodeReply::Done(Ok(_))) => {
                self.frame_count = self.frame_count + 1;
                self.phase = EncodePhase::Checking;
            },
            (EncodePhase::Delivering, EncodeReply::Done(Err(error))) => {
                self.fail_output(error);
            },
            (EncodePhase::RequestingInput, EncodeReply::Input(Ok(given))) => {
                self.phase = if given {
                    EncodePhase::Submitting
                } else {
                    EncodePhase::EndingInput
                };
            },
            (EncodePhase::RequestingInput, EncodeReply::Input(Err(error))) => {
                self.phase = EncodePhase::Finished(Err(error));
            },
            (EncodePhase::Submitting, EncodeReply::Done(Ok(_))) => {
                self.needs_input = false;
                self.processing_input = true;
                self.phase = EncodePhase::Checking;
            },
            (EncodePhase::Submitting, EncodeReply::Done(Err(error))) => {
                self.phase = EncodePhase::Finished(Err(error));
            },
            (EncodePhase::EndingInput, EncodeReply::Done(Ok(_))) => {
                self.needs_input = false;
                self.processing_input = false;
                self.phase = EncodePhase::Checking;
            },
            (EncodePhase::EndingInput, EncodeReply::Done(Err(error))) => {
                self.phase = EncodePhase::Finished(Err(error));
            },
            (EncodePhase::ClosingStream, EncodeReply::Done(_)) => {
                self.phase = EncodePhase::EndingStreaming;
            },
            (EncodePhase::EndingStreaming, EncodeReply::Done(result)) => {
                self.phase = go_on(result, EncodePhase::FlushingLast);
            },
            (EncodePhase::FlushingLast, EncodeReply::Done(result)) => {
                self.phase = go_on(result, EncodePhase::Finished(Ok(())));
            },
            _ => {},
        }
    }
}

/// Frames are counted one by one, and only those that were passed on.
pub proof fn frames_are_counted(e: EncodeLoop, reply: EncodeReply)
    requires
        e.expects(reply),
    ensures
        e.next(reply).frame_count == e.frame_count + 1 <==> e.phase is Delivering && (
        reply matches EncodeReply::Done(Ok(_))),
        e.next(reply).frame_count == e.frame_count + 1 || e.next(reply).frame_count
            == e.frame_count,
{
}

/// The encoding ends well only once the encoder took the last message.
pub proof fn ends_after_the_last_flush(e: EncodeLoop, reply: EncodeReply)
    requires
        e.expects(reply),
        e.next(reply).phase == EncodePhase::Finished(Ok(())),
    ensures
        e.phase is FlushingLast,
        reply matches EncodeReply::Done(Ok(_)),
{
}

/// Whether every reply of a run answers the action at hand.
pub open spec fn is_run(e: EncodeLoop, replies: Seq<EncodeReply>) -> bool
    decreases replies.len(),
{
    replies.len() > 0 ==> e.expects(replies[0]) && is_run(e.next(replies[0]), replies.drop_first())
}

/// The encoding after all replies of a run.
pub open spec fn after(e: EncodeLoop, replies: Seq<EncodeReply>) -> EncodeLoop
    decreases replies.len(),
{
    if replies.len() == 0 {
        e
    } else {
        after(e.next(replies[0]), replies.drop_first())
    }
}

/// How many times a run takes an action.
pub open spec fn times(e: EncodeLoop, replies: Seq<EncodeReply>, action: EncodeAction) -> nat
    decreases replies.len(),
{
    if replies.len() == 0 {
        0
    } else {
        let rest = times(e.next(replies[0]), replies.drop_first(), action);
        if encode_action(e.phase) == action {
            rest + 1
        } else {
            rest
        }
    }
}

/// How many pictures a run is given.
pub open spec fn pictures(replies: Seq<EncodeReply>) -> nat
    decreases replies.len(),
{
    if replies.len() == 0 {
        0
    } else {
        pictures(replies.drop_first()) + if replies[0] matches EncodeReply::Input(Ok(true)) {
            1nat
        } else {
            0nat
        }
    }
}

/// How often a run is told that there are no more pictures.
pub open spec fn ends_of_input(replies: Seq<EncodeReply>) -> nat
    decreases replies.len(),
{
    if replies.len() == 0 {
        0
    } else {
        ends_of_input(replies.drop_first()) + if replies[0] matches EncodeReply::Input(Ok(false)) {
            1nat
        } else {
            0nat
        }
    }
}

/// How often a run gets encoded video.
pub open spec fn outputs(replies: Seq<EncodeReply>) -> nat
    decreases replies.len(),
{
    if replies.len() == 0 {
        0
    } else {
        outputs(replies.drop_first()) + if replies[0] matches EncodeReply::Output(Ok(true)) {
            1nat
        } else {
            0nat
        }
    }
}

/// The messages that a run sends to the encoder.
pub open spec fn messages(e: EncodeLoop, replies: Seq<EncodeReply>) -> Seq<EncoderMessage>
    decreases replies.len(),
{
    if replies.len() == 0 {
        Seq::empty()
    } else {
        let rest = messages(e.next(replies[0]), replies.drop_first());
        match encode_action(e.phase) {
            EncodeAction::Notify(message) => seq![message] + rest,
            _ => rest,
        }
    }
}

/// One where it holds, and nothing otherwise.
spec fn one_if(b: bool) -> nat {
    if b {
        1
    } else {
        0
    }
}

/// What a run that ends well still does from a phase on.
proof fn work_from_here(e: EncodeLoop, replies: Seq<EncodeReply>)
    requires
        e.wf(),
        is_run(e, replies),
        after(e, replies).phase == EncodePhase::Finished(Ok(())),
    ensures
        times(e, replies, EncodeAction::Submit) == one_if(e.phase is Submitting) + pictures(
            replies,
        ),
        times(e, replies, EncodeAction::Deliver) == one_if(e.phase is Delivering) + outputs(
            replies,
        ),
        e.phase matches EncodePhase::Finished(outcome) ==> outcome is Ok,
    decreases replies.len(),
{
    if replies.len() > 0 {
        work_from_here(e.next(replies[0]), replies.drop_first());
    }
}

/// Every picture is handed to the encoder, and all encoded video is passed on,
/// once each, where the encoding ends well.
pub proof fn pictures_are_encoded(e: EncodeLoop, replies: Seq<EncodeReply>)
    requires
        e.wf(),
        e.phase is BeginningStreaming,
        is_run(e, replies),
        after(e, replies).phase == EncodePhase::Finished(Ok(())),
    ensures
        times(e, replies, EncodeAction::Submit) == pictures(replies),
        times(e, replies, EncodeAction::Deliver) == outputs(replies),
{
    work_from_here(e, replies);
}

/// So many messages that the last sample has come.
pub open spec fn ends(n: nat) -> Seq<EncoderMessage> {
    Seq::new(n, |i: int| EncoderMessage::EndOfStream)
}

/// The messages with which a run that ends well is closed.
pub open spec fn closing() -> Seq<EncoderMessage> {
    seq![EncoderMessage::EndOfStream, EncoderMessage::EndStreaming, EncoderMessage::Flush]
}

/// The messages that are still to be sent in a phase.
spec fn messages_ahead(e: EncodeLoop, replies: Seq<EncodeReply>) -> Seq<EncoderMessage> {
    match e.phase {
        EncodePhase::BeginningStreaming => seq![
            EncoderMessage::BeginStreaming,
            EncoderMessage::StartOfStream,
            EncoderMessage::Flush,
        ] + ends(ends_of_input(replies)) + closing(),
        EncodePhase::StartingStream => seq![EncoderMessage::StartOfStream, EncoderMessage::Flush]
            + ends(ends_of_input(replies)) + closing(),
        EncodePhase::FlushingFirst => seq![EncoderMessage::Flush] + ends(ends_of_input(replies))
            + closing(),
        EncodePhase::EndingInput => ends(ends_of_input(replies) + 1) + closing(),
        EncodePhase::ClosingStream => closing(),
        EncodePhase::EndingStreaming => closing().skip(1),
        EncodePhase::FlushingLast => closing().skip(2),
        EncodePhase::Finished(_) => Seq::empty(),
        _ => ends(ends_of_input(replies)) + closing(),
    }
}

/// What a run that ends well still sends from a phase on.
proof fn messages_from_here(e: EncodeLoop, replies: Seq<EncodeReply>)
    requires
        is_run(e, replies),
        after(e, replies).phase == EncodePhase::Finished(Ok(())),
    ensures
        messages(e, replies) == messages_ahead(e, replies),
        e.phase is ClosingStream || e.phase is EndingStreaming || e.phase is FlushingLast
            || e.phase is Finished ==> ends_of_input(replies) == 0,
        e.phase is Finished ==> replies.len() == 0,
    decreases replies.len(),
{
    reveal_with_fuel(is_run, 2);
    if replies.len() > 0 {
        let f = e.next(replies[0]);
        let rest = replies.drop_first();
        messages_from_here(f, rest);
        assert(closing().skip(1) =~= seq![EncoderMessage::EndStreaming, EncoderMessage::Flush]);
        assert(closing().skip(2) =~= seq![EncoderMessage::Flush]);
        let n = ends_of_input(rest);
        assert(ends(n + 1) =~= seq![EncoderMessage::EndOfStream] + ends(n));
        assert(ends(0) =~= Seq::<EncoderMessage>::empty());
    }
    assert(messages(e, replies) =~= messages_ahead(e, replies));
}

/// The encoder is told that the stream begins, and is emptied, before the first
/// picture. It is told of the end of the input as often as there are no more
/// pictures, and once more at the end, where it is emptied last.
pub proof fn encoder_is_told_of_start_and_end(e: EncodeLoop, replies: Seq<EncodeReply>)
    requires
        e.phase is BeginningStreaming,
        is_run(e, replies),
        after(e, replies).phase == EncodePhase::Finished(Ok(())),
    ensures
        messages(e, replies) == seq![
            EncoderMessage::BeginStreaming,
            EncoderMessage::StartOfStream,
            EncoderMessage::Flush,
        ] + ends(ends_of_input(replies)) + seq![
            EncoderMessage::EndOfStream,
            EncoderMessage::EndStreaming,
            EncoderMessage::Flush,
        ],
{
    messages_from_here(e, replies);
}

/// What the encoder is asked for in a round: a picture where it needs one, and
/// else encoded video. Once the encoding is to stop, neither is.
pub proof fn rounds_of_the_encoding(e: EncodeLoop)
    requires
        e.wf(),
        e.phase is Checking,
    ensures
        encode_action(e.next(EncodeReply::Stop(true)).phase) == EncodeAction::Notify(
            EncoderMessage::EndOfStream,
        ),
        e.next(EncodeReply::Stop(true)).phase is ClosingStream,
        e.needs_input ==> encode_action(e.next(EncodeReply::Stop(false)).phase)
            == EncodeAction::RequestInput,
        !e.needs_input ==> encode_action(e.next(EncodeReply::Stop(false)).phase)
            == EncodeAction::GetOutput,
{
}

/// An encoder that was given a picture is asked for encoded video. One that says
/// that it needs more is given a picture. Any other failure ends the encoding with
/// it.
pub proof fn encoder_gets_what_it_needs(e: EncodeLoop, error: WindowsError)
    requires
        e.wf(),
    ensures
        e.phase is Submitting ==> {
            let f = e.next(EncodeReply::Done(Ok(())));
            &&& f.phase is Checking
            &&& !f.needs_input
        },
        e.phase is GettingOutput ==> {
            &&& encode_action(e.next(EncodeReply::Output(Ok(true))).phase) == EncodeAction::Deliver
            &&& e.next(EncodeReply::Output(Ok(false))).phase is Checking
            &&& error.code == -1072861838 ==> encode_action(
                e.next(EncodeReply::Output(Err(error))).phase,
            ) == EncodeAction::RequestInput
            &&& error.code != -1072861838 ==> e.next(EncodeReply::Output(Err(error))).phase
                == EncodePhase::Finished(Err(error))
        },
        e.phase is Delivering ==> {
            let f = e.next(EncodeReply::Done(Ok(())));
            &&& f.phase is Checking
            &&& !f.needs_input
        },
        e.phase is RequestingInput ==> {
            &&& encode_action(e.next(EncodeReply::Input(Ok(true))).phase) == EncodeAction::Submit
            &&& encode_action(e.next(EncodeReply::Input(Ok(false))).phase) == EncodeAction::Notify(
                EncoderMessage::EndOfStream,
            )
            &&& e.next(EncodeReply::Input(Err(error))).phase == EncodePhase::Finished(Err(error))
        },
        e.phase is EndingInput ==> {
            let f = e.next(EncodeReply::Done(Ok(())));
            &&& f.phase is Checking
            &&& !f.needs_input
        },
        e.phase is Submitting || e.phase is EndingInput || e.phase is BeginningStreaming
            || e.phase is StartingStream || e.phase is FlushingFirst || e.phase is EndingStreaming
            || e.phase is FlushingLast ==> e.next(EncodeReply::Done(Err(error))).phase
            == EncodePhase::Finished(Err(error)),
        e.phase is ClosingStream ==> e.next(EncodeReply::Done(Err(error))).phase
            is EndingStreaming,
{
}

} // verus!
