//! Setting up a video encoder: what to do next, given what came of the last
//! step.
use crate::error::{HResult, WindowsError, E_NOTIMPL, E_UNEXPECTED};
use crate::processing::attributes::VIDEO_FORMAT_NV12;
use crate::types::Guid;
use vstd::prelude::*;

verus! {

/// There are no more formats.
pub const MF_E_NO_MORE_TYPES: HResult = -1072875847;

/// The format was not set.
pub const MF_E_TRANSFORM_TYPE_NOT_SET: HResult = -1072861856;

/// Why an encoder could not be set up.
#[derive(Debug)]
pub enum SetupFailure {
    /// The system reported an error.
    System(WindowsError),
    /// The encoder has no stream for pictures, or none for encoded video.
    NoStreams,
    /// The encoder takes no NV12 pictures.
    NoInputType,
}

impl SetupFailure {
    /// The failure as a system error.
    pub fn into_error(self) -> (r: WindowsError)
        ensures
            match self {
                SetupFailure::System(error) => r == error,
                SetupFailure::NoStreams => {
                    &&& r.code == E_UNEXPECTED
                    &&& r.message@ == "Encoder MFT has 0 streams"@
                },
                SetupFailure::NoInputType => {
                    &&& r.code == MF_E_TRANSFORM_TYPE_NOT_SET
                    &&& r.message@
                        == "Failed to find and set a compatible NV12 input type on the encoder MFT."@
                },
            },
    {
        match self {
            SetupFailure::System(error) => error,
            SetupFailure::NoStreams => WindowsError::new(
                E_UNEXPECTED,
                "Encoder MFT has 0 streams".to_owned(),
            ),
            SetupFailure::NoInputType => WindowsError::new(
                MF_E_TRANSFORM_TYPE_NOT_SET,
                "Failed to find and set a compatible NV12 input type on the encoder MFT.".to_owned(),
            ),
        }
    }
}

/// Where the set-up stands.
#[derive(Debug)]
pub enum SetupPhase {
    /// The encoder is to be made.
    MakingTransform,
    /// The streams are to be counted.
    CountingStreams,
    /// The identifiers of so many streams are to be read.
    ReadingStreamIds(u32, u32),
    /// The format of the encoded video is to be set.
    SettingOutput,
    /// A format for pictures is to be asked for, by its number.
    QueryingInput(u32),
    /// The format with this number is to be given its attributes.
    ConfiguringInput(u32),
    /// The format with this number is to be tried.
    TestingInput(u32),
    /// The format with this number is to be set.
    SettingInput(u32),
    /// The encoder is ready.
    Ready,
    /// The encoder could not be set up.
    Failed(SetupFailure),
}

/// What to do next.
#[derive(Debug, Clone, Copy, PartialEq, Eq, Structural)]
pub enum SetupAction {
    /// Make the encoder, and give it the graphics device where it takes it.
    MakeTransform,
    /// Count the streams.
    CountStreams,
    /// Read the identifiers of so many streams for pictures, and for encoded
    /// video.
    ReadStreamIds(u32, u32),
    /// Set the format of the encoded video on this stream.
    SetOutputType(u32),
    /// Ask for the format with this number, on the stream for pictures.
    QueryInputType(u32, u32),
    /// Give the format its attributes.
    ConfigureInputType,
    /// Find out whether the stream for pictures takes the format.
    TestInputType(u32),
    /// Set the format on the stream for pictures.
    SetInputType(u32),
    /// Stop: the encoder is ready, or could not be set up.
    Finish(bool),
}

/// What came of an action.
#[derive(Debug)]
pub enum SetupReply {
    /// It is done, or the system reported an error.
    Done(Result<(), WindowsError>),
    /// The number of streams for pictures, and for encoded video.
    Streams(Result<(u32, u32), WindowsError>),
    /// The identifiers of the first stream of each kind.
    StreamIds(Result<(u32, u32), WindowsError>),
    /// The identifier of the format, if it can be read.
    InputType(Result<Option<Guid>, WindowsError>),
    /// Whether the format was taken.
    Tested(bool),
}

/// The set-up of an encoder.
#[derive(Debug)]
pub struct EncoderSetup {
    /// Where it stands.
    pub phase: SetupPhase,
    /// The identifier of the stream for pictures, once it is known.
    pub input_stream_id: u32,
    /// The identifier of the stream for encoded video, once it is known.
    pub output_stream_id: u32,
}

/// What to do in a phase.
pub open spec fn setup_action(e: EncoderSetup) -> SetupAction {
    match e.phase {
        SetupPhase::MakingTransform => SetupAction::MakeTransform,
        SetupPhase::CountingStreams => SetupAction::CountStreams,
        SetupPhase::ReadingStreamIds(inputs, outputs) => SetupAction::ReadStreamIds(
            inputs,
            outputs,
        ),
        SetupPhase::SettingOutput => SetupAction::SetOutputType(e.output_stream_id),
        SetupPhase::QueryingInput(n) => SetupAction::QueryInputType(e.input_stream_id, n),
        SetupPhase::ConfiguringInput(_) => SetupAction::ConfigureInputType,
        SetupPhase::TestingInput(_) => SetupAction::TestInputType(e.input_stream_id),
        SetupPhase::SettingInput(_) => SetupAction::SetInputType(e.input_stream_id),
        SetupPhase::Ready => SetupAction::Finish(true),
        SetupPhase::Failed(_) => SetupAction::Finish(false),
    }
}

/// The phase that follows a step that the system may refuse.
pub open spec fn unless_refused(result: Result<(), WindowsError>, next: SetupPhase) -> SetupPhase {
    match result {
        Ok(_) => next,
        Err(error) => SetupPhase::Failed(SetupFailure::System(error)),
    }
}

/// Computes `unless_refused`.
fn go_on(result: Result<(), WindowsError>, next: SetupPhase) -> (r: SetupPhase)
    ensures
        r == unless_refused(result, next),
{
    match result {
        Ok(_) => next,
        Err(error) => SetupPhase::Failed(SetupFailure::System(error)),
    }
}

impl EncoderSetup {
    /// The set-up before its first step.
    pub fn new() -> (r: Self)
        ensures
            r == (EncoderSetup {
                phase: SetupPhase::MakingTransform,
                input_stream_id: 0,
                output_stream_id: 0,
            }),
    {
        EncoderSetup {
            phase: SetupPhase::MakingTransform,
            input_stream_id: 0,
            output_stream_id: 0,
        }
    }

    /// What to do next.
    pub fn action(&self) -> (r: SetupAction)
        ensures
            r == setup_action(*self),
    {
        match &self.phase {
            SetupPhase::MakingTransform => SetupAction::MakeTransform,
            SetupPhase::CountingStreams => SetupAction::CountStreams,
            SetupPhase::ReadingStreamIds(inputs, outputs) => SetupAction::ReadStreamIds(
                *inputs,
                *outputs,
            ),
            SetupPhase::SettingOutput => SetupAction::SetOutputType(self.output_stream_id),
            SetupPhase::QueryingInput(n) => SetupAction::QueryInputType(self.input_stream_id, *n),
            SetupPhase::ConfiguringInput(_) => SetupAction::ConfigureInputType,
            SetupPhase::TestingInput(_) => SetupAction::TestInputType(self.input_stream_id),
            SetupPhase::SettingInput(_) => SetupAction::SetInputType(self.input_stream_id),
            SetupPhase::Ready => SetupAction::Finish(true),
            SetupPhase::Failed(_) => SetupAction::Finish(false),
        }
    }

    /// Whether a reply answers the action at hand, and there are not too many
    /// formats to count.
    pub open spec fn expects(self, reply: SetupReply) -> bool {
        match (self.phase, reply) {
            (SetupPhase::MakingTransform, SetupReply::Done(_)) => true,
            (SetupPhase::CountingStreams, SetupReply::Streams(_)) => true,
            (SetupPhase::ReadingStreamIds(_, _), SetupReply::StreamIds(_)) => true,
            (SetupPhase::SettingOutput, SetupReply::Done(_)) => true,
            (SetupPhase::QueryingInput(n), SetupReply::InputType(_)) => n < u32::MAX,
            (SetupPhase::ConfiguringInput(_), SetupReply::Done(_)) => true,
            (SetupPhase::TestingInput(n), SetupReply::Tested(_)) => n < u32::MAX,
            (SetupPhase::SettingInput(_), SetupReply::Done(_)) => true,
            _ => false,
        }
    }

    /// Computes `expects`.
    pub fn accepts(&self, reply: &SetupReply) -> (r: bool)
        ensures
            r == self.expects(*reply),
    {
        match (&self.phase, reply) {
            (SetupPhase::MakingTransform, SetupReply::Done(_)) => true,
            (SetupPhase::CountingStreams, SetupReply::Streams(_)) => true,
            (SetupPhase::ReadingStreamIds(_, _), SetupReply::StreamIds(_)) => true,
            (SetupPhase::SettingOutput, SetupReply::Done(_)) => true,
            (SetupPhase::QueryingInput(n), SetupReply::InputType(_)) => *n < u32::MAX,
            (SetupPhase::ConfiguringInput(_), SetupReply::Done(_)) => true,
            (SetupPhase::TestingInput(n), SetupReply::Tested(_)) => *n < u32::MAX,
            (SetupPhase::SettingInput(_), SetupReply::Done(_)) => true,
            _ => false,
        }
    }

    /// The set-up after a reply.
    pub open spec fn next(self, reply: SetupReply) -> EncoderSetup {
        match (self.phase, reply) {
            (SetupPhase::MakingTransform, SetupReply::Done(result)) => EncoderSetup {
                phase: unless_refused(result, SetupPhase::CountingStreams),
                ..self
            },
            (SetupPhase::CountingStreams, SetupReply::Streams(Ok(counts))) => EncoderSetup {
                phase: if counts.0 == 0 || counts.1 == 0 {
                    SetupPhase::Failed(SetupFailure::NoStreams)
                } else {
                    SetupPhase::ReadingStreamIds(counts.0, counts.1)
                },
                ..self
            },
            (SetupPhase::CountingStreams, SetupReply::Streams(Err(error))) => EncoderSetup {
                phase: SetupPhase::Failed(SetupFailure::System(error)),
                ..self
            },
            (SetupPhase::ReadingStreamIds(_, _), SetupReply::StreamIds(Ok(ids))) => EncoderSetup {
                phase: SetupPhase::SettingOutput,
                input_stream_id: ids.0,
                output_stream_id: ids.1,
            },
            (SetupPhase::ReadingStreamIds(_, _), SetupReply::StreamIds(Err(error))) => if error.code
                == E_NOTIMPL {
                EncoderSetup {
                    phase: SetupPhase::SettingOutput,
                    input_stream_id: 0,
                    output_stream_id: 0,
                }
            } else {
                EncoderSetup { phase: SetupPhase::Failed(SetupFailure::System(error)), ..self }
            },
            (SetupPhase::SettingOutput, SetupReply::Done(result)) => EncoderSetup {
                phase: unless_refused(result, SetupPhase::QueryingInput(0)),
                ..self
            },
            (SetupPhase::QueryingInput(n), SetupReply::InputType(Ok(subtype))) => EncoderSetup {
                phase: if subtype matches Some(format) && format.value == VIDEO_FORMAT_NV12 {
                    SetupPhase::ConfiguringInput(n)
                } else {
                    SetupPhase::QueryingInput((n + 1) as u32)
                },
                ..self
            },
            (SetupPhase::QueryingInput(_), SetupReply::InputType(Err(error))) => EncoderSetup {
                phase: if error.code == MF_E_NO_MORE_TYPES {
                    SetupPhase::Failed(SetupFailure::NoInputType)
                } else {
                    SetupPhase::Failed(SetupFailure::System(error))
                },
                ..self
            },
            (SetupPhase::ConfiguringInput(n), SetupReply::Done(result)) => EncoderSetup {
                phase: unless_refused(result, SetupPhase::TestingInput(n)),
                ..self
            },
            (SetupPhase::TestingInput(n), SetupReply::Tested(taken)) => EncoderSetup {
                phase: if taken {
                    SetupPhase::SettingInput(n)
                } else {
                    SetupPhase::QueryingInput((n + 1) as u32)
                },
                ..self
            },
            (SetupPhase::SettingInput(_), SetupReply::Done(result)) => EncoderSetup {
                phase: unless_refused(result, SetupPhase::Ready),
                ..self
            },
            _ => self,
        }
    }

    /// Goes on after a reply.
    pub fn advance(&mut self, reply: SetupReply)
        requires
            old(self).expects(reply),
        ensures
            *final(self) == old(self).next(reply),
    {
        match (&self.phase, reply) {
            (SetupPhase::MakingTransform, SetupReply::Done(result)) => {
                self.phase = go_on(result, SetupPhase::CountingStreams);
            },
            (SetupPhase::CountingStreams, SetupReply::Streams(Ok(counts))) => {
                self.phase = if counts.0 == 0 || counts.1 == 0 {
                    SetupPhase::Failed(SetupFailure::NoStreams)
                } else {
                    SetupPhase::ReadingStreamIds(counts.0, counts.1)
                };
            },
            (SetupPhase::CountingStreams, SetupReply::Streams(Err(error))) => {
                self.phase = SetupPhase::Failed(SetupFailure::System(error));
            },
            (SetupPhase::ReadingStreamIds(_, _), SetupReply::StreamIds(Ok(ids))) => {
                self.phase = SetupPhase::SettingOutput;
                self.input_stream_id = ids.0;
                self.output_stream_id = ids.1;
            },
            (SetupPhase::ReadingStreamIds(_, _), SetupReply::StreamIds(Err(error))) => {
                if error.code == E_NOTIMPL {
                    self.phase = SetupPhase::SettingOutput;
                    self.input_stream_id = 0;
                    self.output_stream_id = 0;
                } else {
                    self.phase = SetupPhase::Failed(SetupFailure::System(error));
                }
            },
            (SetupPhase::SettingOutput, SetupReply::Done(result)) => {
                self.phase = go_on(result, SetupPhase::QueryingInput(0));
            },
            (SetupPhase::QueryingInput(n), SetupReply::InputType(Ok(subtype))) => {
                let n: u32 = *n;
                let is_nv12 = match subtype {
                    Some(format) => format.value == VIDEO_FORMAT_NV12,
                    None => false,
                };
                self.phase = if is_nv12 {
                    SetupPhase::ConfiguringInput(n)
                } else {
                    SetupPhase::QueryingInput(n + 1)
                };
            },
            (SetupPhase::QueryingInput(_), SetupReply::InputType(Err(error))) => {
                self.phase = if error.code == MF_E_NO_MORE_TYPES {
                    SetupPhase::Failed(SetupFailure::NoInputType)
                } else {
                    SetupPhase::Failed(SetupFailure::System(error))
                };
            },
            (SetupPhase::ConfiguringInput(n), SetupReply::Done(result)) => {
                let n: u32 = *n;
                self.phase = go_on(result, SetupPhase::TestingInput(n));
            },
            (SetupPhase::TestingInput(n), SetupReply::Tested(taken)) => {
                let n: u32 = *n;
                self.phase = if taken {
                    SetupPhase::SettingInput(n)
                } else {
                    SetupPhase::QueryingInput(n + 1)
                };
            },
            (SetupPhase::SettingInput(_), SetupReply::Done(result)) => {
                self.phase = go_on(result, SetupPhase::Ready);
            },
            _ => {},
        }
    }
}

/// Whether every reply of a run answers the action at hand.
pub open spec fn is_run(e: EncoderSetup, replies: Seq<SetupReply>) -> bool
    decreases replies.len(),
{
    replies.len() > 0 ==> e.expects(replies[0]) && is_run(e.next(replies[0]), replies.drop_first())
}

/// The set-up after all replies of a run.
pub open spec fn after(e: EncoderSetup, replies: Seq<SetupReply>) -> EncoderSetup
    decreases replies.len(),
{
    if replies.len() == 0 {
        e
    } else {
        after(e.next(replies[0]), replies.drop_first())
    }
}

/// Whether a reply says that the format is NV12.
pub open spec fn offers_nv12(reply: SetupReply) -> bool {
    reply matches SetupReply::InputType(Ok(Some(format))) && format.value == VIDEO_FORMAT_NV12
}

/// An encoder that is ready was offered an NV12 format, and took the one that
/// was tried last.
pub proof fn ready_encoder_takes_nv12(e: EncoderSetup, replies: Seq<SetupReply>)
    requires
        e.phase is MakingTransform,
        is_run(e, replies),
        after(e, replies).phase is Ready,
    ensures
        exists|i: int| 0 <= i < replies.len() && offers_nv12(#[trigger] replies[i]),
        exists|i: int|
            0 <= i < replies.len() && (#[trigger] replies[i]) == SetupReply::Tested(true),
{
    ready_needs_replies(e, replies);
}

/// Whether the NV12 format is at hand in a phase.
spec fn has_format(phase: SetupPhase) -> bool {
    phase is ConfiguringInput || phase is TestingInput || phase is SettingInput || phase is Ready
}

/// Whether the format was taken in a phase.
spec fn has_taken(phase: SetupPhase) -> bool {
    phase is SettingInput || phase is Ready
}

/// What is missing in a phase comes before the encoder is ready.
proof fn ready_needs_replies(e: EncoderSetup, replies: Seq<SetupReply>)
    requires
        is_run(e, replies),
        after(e, replies).phase is Ready,
    ensures
        !(e.phase is Failed),
        has_format(e.phase) || exists|i: int|
            0 <= i < replies.len() && offers_nv12(#[trigger] replies[i]),
        has_taken(e.phase) || exists|i: int|
            0 <= i < replies.len() && (#[trigger] replies[i]) == SetupReply::Tested(true),
    decreases replies.len(),
{
    if replies.len() > 0 {
        let rest = replies.drop_first();
        let f = e.next(replies[0]);
        ready_needs_replies(f, rest);
        if exists|i: int| 0 <= i < rest.len() && offers_nv12(#[trigger] rest[i]) {
            let i = choose|i: int| 0 <= i < rest.len() && offers_nv12(#[trigger] rest[i]);
            assert(offers_nv12(replies[i + 1]));
        }
        if exists|i: int| 0 <= i < rest.len() && (#[trigger] rest[i]) == SetupReply::Tested(true) {
            let i = choose|i: int|
                0 <= i < rest.len() && (#[trigger] rest[i]) == SetupReply::Tested(true);
            assert(replies[i + 1] == SetupReply::Tested(true));
        }
        if has_format(f.phase) && !has_format(e.phase) {
            assert(offers_nv12(replies[0]));
        }
        if has_taken(f.phase) && !has_taken(e.phase) {
            assert(replies[0] == SetupReply::Tested(true));
        }
    }
}

/// An encoder must have a stream of each kind. Where it has, as many identifiers
/// as there are streams are read.
pub proof fn encoder_needs_both_streams(e: EncoderSetup, inputs: u32, outputs: u32)
    requires
        e.phase is CountingStreams,
    ensures
        ({
            let f = e.next(SetupReply::Streams(Ok((inputs, outputs))));
            &&& inputs == 0 || outputs == 0 ==> f.phase == SetupPhase::Failed(
                SetupFailure::NoStreams,
            )
            &&& inputs > 0 && outputs > 0 ==> setup_action(f) == SetupAction::ReadStreamIds(
                inputs,
                outputs,
            )
        }),
{
}

/// The formats are set on the streams with the identifiers that were read. Where
/// the encoder does not number its streams, both are the first ones.
pub proof fn streams_go_by_their_identifiers(
    e: EncoderSetup,
    ids: (u32, u32),
    error: WindowsError,
)
    requires
        e.phase is ReadingStreamIds,
    ensures
        ({
            let f = e.next(SetupReply::StreamIds(Ok(ids)));
            &&& setup_action(f) == SetupAction::SetOutputType(ids.1)
            &&& setup_action(f.next(SetupReply::Done(Ok(())))) == SetupAction::QueryInputType(
                ids.0,
                0,
            )
        }),
        ({
            let f = e.next(SetupReply::StreamIds(Err(error)));
            &&& error.code == -2147467263 ==> setup_action(f) == SetupAction::SetOutputType(0)
                && setup_action(f.next(SetupReply::Done(Ok(())))) == SetupAction::QueryInputType(
                0,
                0,
            )
            &&& error.code != -2147467263 ==> f.phase == SetupPhase::Failed(
                SetupFailure::System(error),
            )
        }),
{
}

/// Formats are asked for one by one until one is NV12. There is none where the
/// encoder has no more.
pub proof fn formats_are_searched_for_nv12(
    e: EncoderSetup,
    n: u32,
    format: Option<Guid>,
    error: WindowsError,
)
    requires
        e.phase == SetupPhase::QueryingInput(n),
        n < u32::MAX,
    ensures
        setup_action(e) == SetupAction::QueryInputType(e.input_stream_id, n),
        ({
            let f = e.next(SetupReply::InputType(Ok(format)));
            let is_nv12 = format matches Some(g) && g.value
                == 0x3231564e_0000_0010_8000_00aa00389b71;
            &&& is_nv12 ==> setup_action(f) == SetupAction::ConfigureInputType
            &&& !is_nv12 ==> setup_action(f) == SetupAction::QueryInputType(
                e.input_stream_id,
                (n + 1) as u32,
            )
        }),
        error.code == -1072875847 ==> e.next(SetupReply::InputType(Err(error))).phase
            == SetupPhase::Failed(SetupFailure::NoInputType),
        error.code != -1072875847 ==> e.next(SetupReply::InputType(Err(error))).phase
            == SetupPhase::Failed(SetupFailure::System(error)),
{
}

/// An NV12 format is given its attributes, tried, and set where the encoder takes
/// it. Where it does not, the next format is asked for.
pub proof fn format_is_tried_before_it_is_set(e: EncoderSetup, n: u32)
    requires
        e.phase == SetupPhase::ConfiguringInput(n),
        n < u32::MAX,
    ensures
        ({
            let f = e.next(SetupReply::Done(Ok(())));
            let taken = f.next(SetupReply::Tested(true));
            let refused = f.next(SetupReply::Tested(false));
            &&& setup_action(f) == SetupAction::TestInputType(e.input_stream_id)
            &&& setup_action(taken) == SetupAction::SetInputType(e.input_stream_id)
            &&& setup_action(taken.next(SetupReply::Done(Ok(())))) == SetupAction::Finish(true)
            &&& setup_action(refused) == SetupAction::QueryInputType(
                e.input_stream_id,
                (n + 1) as u32,
            )
        }),
{
}

/// The identifiers of the streams stay what they are once they were read.
pub proof fn identifiers_are_kept(e: EncoderSetup, reply: SetupReply)
    requires
        !(e.phase is ReadingStreamIds),
    ensures
        e.next(reply).input_stream_id == e.input_stream_id,
        e.next(reply).output_stream_id == e.output_stream_id,
{
}

/// What the system refuses ends the set-up with that failure, and the first two
/// steps are to make the encoder and to count its streams.
pub proof fn refusals_end_the_set_up(e: EncoderSetup, error: WindowsError)
    ensures
        e.phase is MakingTransform ==> setup_action(e) == SetupAction::MakeTransform
            && setup_action(e.next(SetupReply::Done(Ok(())))) == SetupAction::CountStreams,
        e.phase is MakingTransform || e.phase is SettingOutput || e.phase is ConfiguringInput
            || e.phase is SettingInput ==> e.next(SetupReply::Done(Err(error))).phase
            == SetupPhase::Failed(SetupFailure::System(error)),
        e.phase is CountingStreams ==> e.next(SetupReply::Streams(Err(error))).phase
            == SetupPhase::Failed(SetupFailure::System(error)),
        e.phase is Failed ==> setup_action(e) == SetupAction::Finish(false),
{
}

} // verus!
