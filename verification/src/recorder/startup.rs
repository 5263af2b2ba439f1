//! Starting a recording: what to do next, given what came of the last step.
use crate::capture::monitor::{
    get_window_monitor_resolution, has_resolution, resolution_fits, window_resolution,
};
use crate::capture::window::{
    find_window, goes_by, recorded_window_goes_by_the_name, window_named, WindowCandidate,
    WindowHandle,
};
use crate::device::video::VideoEncoder;
use crate::error::{error_text, RecorderError, WindowsError, E_FAIL};
use crate::recorder::config::RecorderConfig;
use crate::types::{Guid, Rect};
use vstd::prelude::*;

verus! {

/// Audio packets per second that the replay buffer makes room for.
pub const AUDIO_PACKETS_PER_SEC: u64 = 10;

/// How many textures frames are processed with.
pub const PROCESSING_POOL_CAPACITY: usize = 3;

/// What a recording is started with.
#[derive(Debug)]
pub struct StartRequest {
    /// The name of the window.
    pub process_name: String,
    /// Whether the title of the window has to be the name.
    pub use_exact_match: bool,
    /// The width of the captured picture; without one it is found out.
    pub input_width: Option<u32>,
    /// The height of the captured picture; without one it is found out.
    pub input_height: Option<u32>,
    /// The name of the microphone, if one is asked for.
    pub microphone_device: Option<String>,
    /// How many seconds are kept at hand, if any are.
    pub replay_seconds: Option<u32>,
    /// The file that is recorded to, where its path is valid text.
    pub output_path: Option<String>,
    /// Whether system audio is recorded.
    pub capture_audio: bool,
    /// Whether the microphone is recorded.
    pub capture_microphone: bool,
}

impl StartRequest {
    /// What a recording of a window with these settings is started with.
    pub fn from_config(config: &RecorderConfig, process_name: &str, use_exact_match: bool) -> (r:
        Self)
        ensures
            r.process_name@ == process_name@,
            r.use_exact_match == use_exact_match,
            r.input_width == Some(config.input_width),
            r.input_height == Some(config.input_height),
            r.microphone_device == config.microphone_device,
            r.replay_seconds == if config.enable_replay_buffer {
                Some(config.replay_buffer_seconds)
            } else {
                None
            },
            r.output_path == Some(config.output_path),
            r.capture_audio == config.capture_audio,
            r.capture_microphone == config.capture_microphone,
    {
        let microphone_device = match &config.microphone_device {
            Some(name) => Some(name.clone()),
            None => None,
        };
        let replay_seconds = if config.enable_replay_buffer {
            Some(config.replay_buffer_seconds)
        } else {
            None
        };
        StartRequest {
            process_name: process_name.to_owned(),
            use_exact_match,
            input_width: Some(config.input_width),
            input_height: Some(config.input_height),
            microphone_device,
            replay_seconds,
            output_path: Some(config.output_path.clone()),
            capture_audio: config.capture_audio,
            capture_microphone: config.capture_microphone,
        }
    }

    /// The window that is to be recorded, if it is on the desktop.
    pub open spec fn window_in(self, candidates: Seq<WindowCandidate>) -> Option<WindowHandle> {
        window_named(candidates, self.process_name@, self.use_exact_match)
    }

    /// How many threads wait for each other before they capture: one for the
    /// video, and one for each kind of sound.
    pub open spec fn barrier_size(self) -> nat {
        1 + (if self.capture_audio {
            1nat
        } else {
            0nat
        }) + (if self.capture_microphone {
            1nat
        } else {
            0nat
        })
    }

    /// How many threads wait for each other before they capture.
    pub fn barrier_count(&self) -> (r: usize)
        ensures
            r == self.barrier_size(),
    {
        let audio: usize = if self.capture_audio {
            1
        } else {
            0
        };
        let microphone: usize = if self.capture_microphone {
            1
        } else {
            0
        };
        1 + audio + microphone
    }

    /// How many audio packets the replay buffer makes room for: ten per second,
    /// as far as they can be counted.
    pub open spec fn audio_room(self) -> int {
        match self.replay_seconds {
            Some(seconds) => if !(self.capture_audio || self.capture_microphone) {
                0
            } else if 10 * seconds <= usize::MAX {
                10 * seconds
            } else {
                usize::MAX as int
            },
            None => 0,
        }
    }

    /// Computes `audio_room`.
    fn audio_packets(&self) -> (r: usize)
        ensures
            r == self.audio_room(),
    {
        match self.replay_seconds {
            Some(seconds) => {
                if !(self.capture_audio || self.capture_microphone) {
                    return 0;
                }
                let room: u64 = AUDIO_PACKETS_PER_SEC * seconds as u64;
                if room <= usize::MAX as u64 {
                    room as usize
                } else {
                    usize::MAX
                }
            },
            None => 0,
        }
    }
}

/// Why a recording could not be started.
#[derive(Debug)]
pub enum StartFailure {
    /// There is no window to record.
    NoWindow,
    /// The path of the file is not valid text.
    InvalidPath,
    /// There is no encoder.
    NoEncoder(RecorderError),
    /// The system reported an error.
    System(WindowsError),
}

impl StartFailure {
    /// The failure as a system error.
    pub fn into_error(self) -> (r: WindowsError)
        ensures
            match self {
                StartFailure::System(error) => r == error,
                StartFailure::NoEncoder(RecorderError::Windows(error)) => r == error,
                StartFailure::NoEncoder(error) => r.code == E_FAIL && r.message@ == error_text(
                    error,
                ),
                StartFailure::NoWindow => {
                    &&& r.code == E_FAIL
                    &&& r.message@ == "Failed to Start the Recording Process, reason: "@
                        + "No window found"@
                },
                StartFailure::InvalidPath => {
                    &&& r.code == E_FAIL
                    &&& r.message@ == "Failed to Start the Recording Process, reason: "@
                        + "Invalid path string"@
                },
            },
    {
        match self {
            StartFailure::System(error) => error,
            StartFailure::NoEncoder(error) => WindowsError::from(error),
            StartFailure::NoWindow => WindowsError::from(
                RecorderError::FailedToStart("No window found".to_owned()),
            ),
            StartFailure::InvalidPath => WindowsError::from(
                RecorderError::FailedToStart("Invalid path string".to_owned()),
            ),
        }
    }
}

/// Where the start stands.
#[derive(Debug)]
pub enum StartPhase {
    /// The window is to be found.
    FindingWindow,
    /// The resolution of the window's monitor is to be found out.
    DetectingResolution,
    /// The microphone is to be found by its name.
    FindingMicrophone,
    /// The replay buffer is to be made.
    MakingReplayBuffer,
    /// The media library is to be started.
    StartingMedia,
    /// The video encoder is to be picked.
    PickingEncoder,
    /// The file is to be set up.
    MakingSink,
    /// Writing to the file is to begin.
    BeginningWriting,
    /// The graphics device is to be made.
    MakingDevice,
    /// The thread that captures video is to be started.
    StartingVideo,
    /// The thread that captures system audio is to be started.
    StartingAudio,
    /// The thread that captures the microphone is to be started.
    StartingMicrophone,
    /// The textures for processing are to be made.
    MakingPool,
    /// The thread that processes samples is to be started.
    StartingProcessing,
    /// The recording goes on.
    Started,
    /// The recording could not be started.
    Failed(StartFailure),
}

/// What to do next.
#[derive(Debug, Clone, Copy, PartialEq, Eq)]
pub enum StartAction {
    /// List the windows on the desktop.
    ListWindows,
    /// Find out what the window's monitor covers.
    ReadMonitors,
    /// Find the microphone by its name.
    FindMicrophone,
    /// Make a replay buffer for so many seconds, with room for so many audio
    /// packets.
    MakeReplayBuffer(u32, usize),
    /// Start the media library.
    StartMedia,
    /// Pick the video encoder.
    PickEncoder,
    /// Set up the file for a video format.
    MakeSink(Guid),
    /// Begin writing to the file.
    BeginWriting,
    /// Make the graphics device for the window.
    MakeDevice,
    /// Start the thread that captures video.
    StartVideo,
    /// Start the thread that captures system audio.
    StartAudio,
    /// Start the thread that captures the microphone.
    StartMicrophone,
    /// Make textures of this size for processing.
    MakePool(u32, u32),
    /// Start the thread that processes samples.
    StartProcessing,
    /// Stop: the recording goes on, or could not be started.
    Finish(bool),
}

/// What came of an action.
#[derive(Debug)]
pub enum StartReply {
    /// The windows on the desktop.
    Windows(Vec<WindowCandidate>),
    /// What the monitor of the window and the primary monitor cover, as far as
    /// that is known.
    Monitors(Option<Rect>, Option<Rect>),
    /// The identifier of the microphone, if it was found.
    Microphone(Option<String>),
    /// The encoder, or why there is none.
    Encoder(Result<VideoEncoder, RecorderError>),
    /// It is done, or the system reported an error.
    Done(Result<(), WindowsError>),
}

/// The start of a recording.
#[derive(Debug)]
pub struct StartRun {
    /// Where it stands.
    pub phase: StartPhase,
    /// What the recording is started with.
    pub request: StartRequest,
    /// The window, once it was found.
    pub hwnd: WindowHandle,
    /// The size of the captured picture, once it is known.
    pub input_size: (u32, u32),
    /// The identifier of the microphone, if it was found by its name.
    pub microphone_id: Option<String>,
    /// The video format, once the encoder was picked.
    pub format: Guid,
}

/// What comes after the replay buffer.
pub open spec fn after_replay(request: StartRequest) -> StartPhase {
    if request.output_path is Some {
        StartPhase::StartingMedia
    } else {
        StartPhase::Failed(StartFailure::InvalidPath)
    }
}

/// What comes after the microphone.
pub open spec fn after_microphone(request: StartRequest) -> StartPhase {
    if request.replay_seconds is Some {
        StartPhase::MakingReplayBuffer
    } else {
        after_replay(request)
    }
}

/// What comes after the resolution.
pub open spec fn after_resolution(request: StartRequest) -> StartPhase {
    if request.microphone_device is Some {
        StartPhase::FindingMicrophone
    } else {
        after_microphone(request)
    }
}

/// What comes after the thread that captures system audio.
pub open spec fn after_audio(request: StartRequest) -> StartPhase {
    if request.capture_microphone {
        StartPhase::StartingMicrophone
    } else {
        StartPhase::MakingPool
    }
}

/// What comes after the thread that captures video.
pub open spec fn after_video(request: StartRequest) -> StartPhase {
    if request.capture_audio {
        StartPhase::StartingAudio
    } else {
        after_audio(request)
    }
}

/// What to do in a phase.
pub open spec fn start_action(s: StartRun) -> StartAction {
    match s.phase {
        StartPhase::FindingWindow => StartAction::ListWindows,
        StartPhase::DetectingResolution => StartAction::ReadMonitors,
        StartPhase::FindingMicrophone => StartAction::FindMicrophone,
        StartPhase::MakingReplayBuffer => StartAction::MakeReplayBuffer(
            match s.request.replay_seconds {
                Some(seconds) => seconds,
                None => 0,
            },
            s.request.audio_room() as usize,
        ),
        StartPhase::StartingMedia => StartAction::StartMedia,
        StartPhase::PickingEncoder => StartAction::PickEncoder,
        StartPhase::MakingSink => StartAction::MakeSink(s.format),
        StartPhase::BeginningWriting => StartAction::BeginWriting,
        StartPhase::MakingDevice => StartAction::MakeDevice,
        StartPhase::StartingVideo => StartAction::StartVideo,
        StartPhase::StartingAudio => StartAction::StartAudio,
        StartPhase::StartingMicrophone => StartAction::StartMicrophone,
        StartPhase::MakingPool => StartAction::MakePool(s.input_size.0, s.input_size.1),
        StartPhase::StartingProcessing => StartAction::StartProcessing,
        StartPhase::Started => StartAction::Finish(true),
        StartPhase::Failed(_) => StartAction::Finish(false),
    }
}

/// The phase that follows a step that the system may refuse.
pub open spec fn unless_refused(result: Result<(), WindowsError>, next: StartPhase) -> StartPhase {
    match result {
        Ok(_) => next,
        Err(error) => StartPhase::Failed(StartFailure::System(error)),
    }
}

/// Computes `unless_refused`.
fn go_on(result: Result<(), WindowsError>, next: StartPhase) -> (r: StartPhase)
    ensures
        r == unless_refused(result, next),
{
    match result {
        Ok(_) => next,
        Err(error) => StartPhase::Failed(StartFailure::System(error)),
    }
}

impl StartRequest {
    /// Computes `after_replay`.
    fn phase_after_replay(&self) -> (r: StartPhase)
        ensures
            r == after_replay(*self),
    {
        match &self.output_path {
            Some(_) => StartPhase::StartingMedia,
            None => StartPhase::Failed(StartFailure::InvalidPath),
        }
    }

    /// Computes `after_microphone`.
    fn phase_after_microphone(&self) -> (r: StartPhase)
        ensures
            r == after_microphone(*self),
    {
        match self.replay_seconds {
            Some(_) => StartPhase::MakingReplayBuffer,
            None => self.phase_after_replay(),
        }
    }

    /// Computes `after_resolution`.
    fn phase_after_resolution(&self) -> (r: StartPhase)
        ensures
            r == after_resolution(*self),
    {
        match &self.microphone_device {
            Some(_) => StartPhase::FindingMicrophone,
            None => self.phase_after_microphone(),
        }
    }

    /// Computes `after_audio`.
    fn phase_after_audio(&self) -> (r: StartPhase)
        ensures
            r == after_audio(*self),
    {
        if self.capture_microphone {
            StartPhase::StartingMicrophone
        } else {
            StartPhase::MakingPool
        }
    }

    /// Computes `after_video`.
    fn phase_after_video(&self) -> (r: StartPhase)
        ensures
            r == after_video(*self),
    {
        if self.capture_audio {
            StartPhase::StartingAudio
        } else {
            self.phase_after_audio()
        }
    }
}

impl StartRun {
    /// The start of a recording before its first step.
    pub fn new(request: StartRequest) -> (r: Self)
        ensures
            r == (StartRun {
                phase: StartPhase::FindingWindow,
                request,
                hwnd: WindowHandle { raw: 0 },
                input_size: (0, 0),
                microphone_id: None,
                format: Guid { value: 0 },
            }),
    {
        StartRun {
            phase: StartPhase::FindingWindow,
            request,
            hwnd: WindowHandle { raw: 0 },
            input_size: (0, 0),
            microphone_id: None,
            format: Guid { value: 0 },
        }
    }

    /// What to do next.
    pub fn action(&self) -> (r: StartAction)
        ensures
            r == start_action(*self),
    {
        match &self.phase {
            StartPhase::FindingWindow => StartAction::ListWindows,
            StartPhase::DetectingResolution => StartAction::ReadMonitors,
            StartPhase::FindingMicrophone => StartAction::FindMicrophone,
            StartPhase::MakingReplayBuffer => {
                let seconds: u32 = match self.request.replay_seconds {
                    Some(seconds) => seconds,
                    None => 0,
                };
                StartAction::MakeReplayBuffer(seconds, self.request.audio_packets())
            },
            StartPhase::StartingMedia => StartAction::StartMedia,
            StartPhase::PickingEncoder => StartAction::PickEncoder,
            StartPhase::MakingSink => StartAction::MakeSink(self.format),
            StartPhase::BeginningWriting => StartAction::BeginWriting,
            StartPhase::MakingDevice => StartAction::MakeDevice,
            StartPhase::StartingVideo => StartAction::StartVideo,
            StartPhase::StartingAudio => StartAction::StartAudio,
            StartPhase::StartingMicrophone => StartAction::StartMicrophone,
            StartPhase::MakingPool => StartAction::MakePool(self.input_size.0, self.input_size.1),
            StartPhase::StartingProcessing => StartAction::StartProcessing,
            StartPhase::Started => StartAction::Finish(true),
            StartPhase::Failed(_) => StartAction::Finish(false),
        }
    }

    /// Whether a reply answers the action at hand. Making the replay buffer
    /// and starting a thread cannot fail, and a monitor has extents.
    pub open spec fn expects(self, reply: StartReply) -> bool {
        match (self.phase, reply) {
            (StartPhase::FindingWindow, StartReply::Windows(_)) => true,
            (StartPhase::DetectingResolution, StartReply::Monitors(own, primary)) =>
                resolution_fits(own, primary),
            (StartPhase::FindingMicrophone, StartReply::Microphone(_)) => true,
            (StartPhase::PickingEncoder, StartReply::Encoder(_)) => true,
            (StartPhase::MakingReplayBuffer, StartReply::Done(result)) => result is Ok,
            (StartPhase::StartingMedia, StartReply::Done(_)) => true,
            (StartPhase::MakingSink, StartReply::Done(_)) => true,
            (StartPhase::BeginningWriting, StartReply::Done(_)) => true,
            (StartPhase::MakingDevice, StartReply::Done(_)) => true,
            (StartPhase::StartingVideo, StartReply::Done(result)) => result is Ok,
            (StartPhase::StartingAudio, StartReply::Done(result)) => result is Ok,
            (StartPhase::StartingMicrophone, StartReply::Done(result)) => result is Ok,
            (StartPhase::MakingPool, StartReply::Done(_)) => true,
            (StartPhase::StartingProcessing, StartReply::Done(result)) => result is Ok,
            _ => false,
        }
    }

    /// Computes `expects`.
    pub fn accepts(&self, reply: &StartReply) -> (r: bool)
        ensures
            r == self.expects(*reply),
    {
        match (&self.phase, reply) {
            (StartPhase::FindingWindow, StartReply::Windows(_)) => true,
            (StartPhase::DetectingResolution, StartReply::Monitors(own, primary)) => {
                has_resolution(own, primary)
            },
            (StartPhase::FindingMicrophone, StartReply::Microphone(_)) => true,
            (StartPhase::PickingEncoder, StartReply::Encoder(_)) => true,
            (StartPhase::MakingReplayBuffer, StartReply::Done(result)) => result.is_ok(),
            (StartPhase::StartingMedia, StartReply::Done(_)) => true,
            (StartPhase::MakingSink, StartReply::Done(_)) => true,
            (StartPhase::BeginningWriting, StartReply::Done(_)) => true,
            (StartPhase::MakingDevice, StartReply::Done(_)) => true,
            (StartPhase::StartingVideo, StartReply::Done(result)) => result.is_ok(),
            (StartPhase::StartingAudio, StartReply::Done(result)) => result.is_ok(),
            (StartPhase::StartingMicrophone, StartReply::Done(result)) => result.is_ok(),
            (StartPhase::MakingPool, StartReply::Done(_)) => true,
            (StartPhase::StartingProcessing, StartReply::Done(result)) => result.is_ok(),
            _ => false,
        }
    }

    /// The start after a reply.
    pub open spec fn next(self, reply: StartReply) -> StartRun {
        match (self.phase, reply) {
            (StartPhase::FindingWindow, StartReply::Windows(list)) => match (
                self.request.window_in(list@),
                self.request.input_width,
                self.request.input_height,
            ) {
                (Some(hwnd), Some(width), Some(height)) => StartRun {
                    phase: after_resolution(self.request),
                    hwnd,
                    input_size: (width, height),
                    ..self
                },
                (Some(hwnd), _, _) => StartRun {
                    phase: StartPhase::DetectingResolution,
                    hwnd,
                    ..self
                },
                (None, _, _) => StartRun {
                    phase: StartPhase::Failed(StartFailure::NoWindow),
                    ..self
                },
            },
            (StartPhase::DetectingResolution, StartReply::Monitors(own, primary)) => StartRun {
                phase: after_resolution(self.request),
                input_size: (
                    window_resolution(own, primary).0 as u32,
                    window_resolution(own, primary).1 as u32,
                ),
                ..self
            },
            (StartPhase::FindingMicrophone, StartReply::Microphone(id)) => StartRun {
                phase: after_microphone(self.request),
                microphone_id: id,
                ..self
            },
            (StartPhase::MakingReplayBuffer, StartReply::Done(_)) => StartRun {
                phase: after_replay(self.request),
                ..self
            },
            (StartPhase::StartingMedia, StartReply::Done(result)) => StartRun {
                phase: unless_refused(result, StartPhase::PickingEncoder),
                ..self
            },
            (StartPhase::PickingEncoder, StartReply::Encoder(Ok(encoder))) => StartRun {
                phase: StartPhase::MakingSink,
                format: encoder.encoder_type.guid(),
                ..self
            },
            (StartPhase::PickingEncoder, StartReply::Encoder(Err(error))) => StartRun {
                phase: StartPhase::Failed(StartFailure::NoEncoder(error)),
                ..self
            },
            (StartPhase::MakingSink, StartReply::Done(result)) => StartRun {
                phase: unless_refused(result, StartPhase::BeginningWriting),
                ..self
            },
            (StartPhase::BeginningWriting, StartReply::Done(result)) => StartRun {
                phase: unless_refused(result, StartPhase::MakingDevice),
                ..self
            },
            (StartPhase::MakingDevice, StartReply::Done(result)) => StartRun {
                phase: unless_refused(result, StartPhase::StartingVideo),
                ..self
            },
            (StartPhase::StartingVideo, StartReply::Done(_)) => StartRun {
                phase: after_video(self.request),
                ..self
            },
            (StartPhase::StartingAudio, StartReply::Done(_)) => StartRun {
                phase: after_audio(self.request),
                ..self
            },
            (StartPhase::StartingMicrophone, StartReply::Done(_)) => StartRun {
                phase: StartPhase::MakingPool,
                ..self
            },
            (StartPhase::MakingPool, StartReply::Done(result)) => StartRun {
                phase: unless_refused(result, StartPhase::StartingProcessing),
                ..self
            },
            (StartPhase::StartingProcessing, StartReply::Done(_)) => StartRun {
                phase: StartPhase::Started,
                ..self
            },
            _ => self,
        }
    }

    /// Goes on after a reply.
    pub fn advance(&mut self, reply: StartReply)
        requires
            old(self).expects(reply),
        ensures
            *final(self) == old(self).next(reply),
    {
        match (&self.phase, reply) {
            (StartPhase::FindingWindow, StartReply::Windows(list)) => {
                let found = find_window(
                    self.request.process_name.as_str(),
                    self.request.use_exact_match,
                    &list,
                );
                match (found, self.request.input_width, self.request.input_height) {
                    (Some(hwnd), Some(width), Some(height)) => {
                        self.hwnd = hwnd;
                        self.input_size = (width, height);
                        self.phase = self.request.phase_after_resolution();
                    },
                    (Some(hwnd), _, _) => {
                        self.hwnd = hwnd;
                        self.phase = StartPhase::DetectingResolution;
                    },
                    (None, _, _) => {
                        self.phase = StartPhase::Failed(StartFailure::NoWindow);
                    },
                }
            },
            (StartPhase::DetectingResolution, StartReply::Monitors(own, primary)) => {
                self.input_size = get_window_monitor_resolution(own, primary);
                self.phase = self.request.phase_after_resolution();
            },
            (StartPhase::FindingMicrophone, StartReply::Microphone(id)) => {
                self.microphone_id = id;
                self.phase = self.request.phase_after_microphone();
            },
            (StartPhase::MakingReplayBuffer, StartReply::Done(_)) => {
                self.phase = self.request.phase_after_replay();
            },
            (StartPhase::StartingMedia, StartReply::Done(result)) => {
                self.phase = go_on(result, StartPhase::PickingEncoder);
            },
            (StartPhase::PickingEncoder, StartReply::Encoder(Ok(encoder))) => {
                self.format = encoder.encoder_type.get_guid();
                self.phase = StartPhase::MakingSink;
            },
            (StartPhase::PickingEncoder, StartReply::Encoder(Err(error))) => {
                self.phase = StartPhase::Failed(StartFailure::NoEncoder(error));
            },
            (StartPhase::MakingSink, StartReply::Done(result)) => {
                self.phase = go_on(result, StartPhase::BeginningWriting);
            },
            (StartPhase::BeginningWriting, StartReply::Done(result)) => {
                self.phase = go_on(result, StartPhase::MakingDevice);
            },
            (StartPhase::MakingDevice, StartReply::Done(result)) => {
                self.phase = go_on(result, StartPhase::StartingVideo);
            },
            (StartPhase::StartingVideo, StartReply::Done(_)) => {
                self.phase = self.request.phase_after_video();
            },
            (StartPhase::StartingAudio, StartReply::Done(_)) => {
                self.phase = self.request.phase_after_audio();
            },
            (StartPhase::StartingMicrophone, StartReply::Done(_)) => {
                self.phase = StartPhase::MakingPool;
            },
            (StartPhase::MakingPool, StartReply::Done(result)) => {
                self.phase = go_on(result, StartPhase::StartingProcessing);
            },
            (StartPhase::StartingProcessing, StartReply::Done(_)) => {
                self.phase = StartPhase::Started;
            },
            _ => {},
        }
    }
}

/// Whether every reply of a run answers the action at hand.
pub open spec fn is_run(s: StartRun, replies: Seq<StartReply>) -> bool
    decreases replies.len(),
{
    replies.len() > 0 ==> s.expects(replies[0]) && is_run(s.next(replies[0]), replies.drop_first())
}

/// The start after all replies of a run.
pub open spec fn after(s: StartRun, replies: Seq<StartReply>) -> StartRun
    decreases replies.len(),
{
    if replies.len() == 0 {
        s
    } else {
        after(s.next(replies[0]), replies.drop_first())
    }
}

/// Whether a phase starts a thread that waits for the others.
pub open spec fn starts_capture(phase: StartPhase) -> bool {
    phase is StartingVideo || phase is StartingAudio || phase is StartingMicrophone
}

/// How many threads that wait for each other a run starts.
pub open spec fn captures_started(s: StartRun, replies: Seq<StartReply>) -> nat
    decreases replies.len(),
{
    if replies.len() == 0 {
        0
    } else {
        let rest = captures_started(s.next(replies[0]), replies.drop_first());
        if starts_capture(s.phase) {
            rest + 1
        } else {
            rest
        }
    }
}

/// How many threads that wait for each other are still to be started in a
/// phase.
spec fn captures_ahead(s: StartRun) -> nat {
    let microphone = if s.request.capture_microphone {
        1nat
    } else {
        0nat
    };
    match s.phase {
        StartPhase::StartingAudio => 1 + microphone,
        StartPhase::StartingMicrophone => 1,
        StartPhase::MakingPool => 0,
        StartPhase::StartingProcessing => 0,
        StartPhase::Started => 0,
        StartPhase::Failed(_) => 0,
        _ => s.request.barrier_size(),
    }
}

/// A recording that was started has as many threads as wait for each other.
proof fn captures_match_ahead(s: StartRun, replies: Seq<StartReply>)
    requires
        is_run(s, replies),
        after(s, replies).phase is Started,
    ensures
        captures_started(s, replies) == captures_ahead(s),
        !(s.phase is Failed),
    decreases replies.len(),
{
    if replies.len() > 0 {
        captures_match_ahead(s.next(replies[0]), replies.drop_first());
    }
}

/// A recording that was started has started exactly as many threads as are to
/// wait for each other.
pub proof fn barrier_is_met(s: StartRun, replies: Seq<StartReply>)
    requires
        s.phase is FindingWindow,
        is_run(s, replies),
        after(s, replies).phase is Started,
    ensures
        captures_started(s, replies) == s.request.barrier_size(),
{
    captures_match_ahead(s, replies);
}

/// A recording that was started has a window and a valid path.
pub proof fn started_needs_a_window(s: StartRun, replies: Seq<StartReply>)
    requires
        s.phase is FindingWindow,
        is_run(s, replies),
        after(s, replies).phase is Started,
    ensures
        replies[0] matches StartReply::Windows(list) && s.request.window_in(list@) == Some(
            after(s, replies).hwnd,
        ),
        s.request.output_path is Some,
{
    assert(replies.len() > 0);
    window_is_kept(s.next(replies[0]), replies.drop_first());
}

/// The window stays the same once it was found.
proof fn window_is_kept(s: StartRun, replies: Seq<StartReply>)
    requires
        is_run(s, replies),
        !(s.phase is FindingWindow),
        after(s, replies).phase is Started,
    ensures
        after(s, replies).hwnd == s.hwnd,
        !(s.phase is Failed),
        s.phase is DetectingResolution || s.phase is FindingMicrophone
            || s.phase is MakingReplayBuffer ==> s.request.output_path is Some,
    decreases replies.len(),
{
    if replies.len() > 0 {
        window_is_kept(s.next(replies[0]), replies.drop_first());
    }
}

/// The actions that a run takes.
pub open spec fn actions(s: StartRun, replies: Seq<StartReply>) -> Seq<StartAction>
    decreases replies.len(),
{
    if replies.len() == 0 {
        Seq::empty()
    } else {
        seq![start_action(s)] + actions(s.next(replies[0]), replies.drop_first())
    }
}

/// One action where it is to be taken, and none otherwise.
pub open spec fn once(action: StartAction, wanted: bool) -> Seq<StartAction> {
    if wanted {
        seq![action]
    } else {
        seq![]
    }
}

/// The last actions of a start, from the threads that capture sound on.
pub open spec fn sound_and_processing(request: StartRequest, size: (u32, u32)) -> Seq<StartAction> {
    once(StartAction::StartAudio, request.capture_audio) + microphone_and_processing(request, size)
}

/// The last actions of a start, from the microphone on.
pub open spec fn microphone_and_processing(request: StartRequest, size: (u32, u32)) -> Seq<
    StartAction,
> {
    once(StartAction::StartMicrophone, request.capture_microphone) + seq![
        StartAction::MakePool(size.0, size.1),
        StartAction::StartProcessing,
    ]
}

/// The actions of a start from the media library on.
pub open spec fn media_and_threads(
    request: StartRequest,
    format: Guid,
    size: (u32, u32),
) -> Seq<StartAction> {
    seq![StartAction::StartMedia, StartAction::PickEncoder] + file_and_threads(
        request,
        format,
        size,
    )
}

/// The actions of a start from the file on.
pub open spec fn file_and_threads(
    request: StartRequest,
    format: Guid,
    size: (u32, u32),
) -> Seq<StartAction> {
    seq![
        StartAction::MakeSink(format),
        StartAction::BeginWriting,
        StartAction::MakeDevice,
        StartAction::StartVideo,
    ] + sound_and_processing(request, size)
}

/// How many packets of sound the replay buffer makes room for.
pub open spec fn sound_room(request: StartRequest, seconds: u32) -> usize {
    if !request.capture_audio && !request.capture_microphone {
        0
    } else if seconds * 10 > usize::MAX {
        usize::MAX
    } else {
        (seconds * 10) as usize
    }
}

/// The actions of a start once the picture's size is known.
pub open spec fn devices_media_and_threads(
    request: StartRequest,
    format: Guid,
    size: (u32, u32),
) -> Seq<StartAction> {
    once(StartAction::FindMicrophone, request.microphone_device is Some) + replay_media_and_threads(
        request,
        format,
        size,
    )
}

/// The actions of a start once the microphone is known.
pub open spec fn replay_media_and_threads(
    request: StartRequest,
    format: Guid,
    size: (u32, u32),
) -> Seq<StartAction> {
    (match request.replay_seconds {
        Some(seconds) => seq![
            StartAction::MakeReplayBuffer(seconds, sound_room(request, seconds)),
        ],
        None => seq![],
    }) + media_and_threads(request, format, size)
}

/// The actions that are still to be taken in a phase of a start that goes well.
spec fn ahead(s: StartRun, format: Guid, size: (u32, u32)) -> Seq<StartAction> {
    let all = file_and_threads(s.request, format, size);
    match s.phase {
        StartPhase::FindingWindow => Seq::empty(),
        StartPhase::DetectingResolution => seq![StartAction::ReadMonitors]
            + devices_media_and_threads(s.request, format, size),
        StartPhase::FindingMicrophone => seq![StartAction::FindMicrophone]
            + replay_media_and_threads(s.request, format, size),
        StartPhase::MakingReplayBuffer => replay_media_and_threads(s.request, format, size),
        StartPhase::StartingMedia => media_and_threads(s.request, format, size),
        StartPhase::PickingEncoder => media_and_threads(s.request, format, size).skip(1),
        StartPhase::MakingSink => all,
        StartPhase::BeginningWriting => all.skip(1),
        StartPhase::MakingDevice => all.skip(2),
        StartPhase::StartingVideo => all.skip(3),
        StartPhase::StartingAudio => sound_and_processing(s.request, size),
        StartPhase::StartingMicrophone => microphone_and_processing(s.request, size),
        StartPhase::MakingPool => seq![
            StartAction::MakePool(size.0, size.1),
            StartAction::StartProcessing,
        ],
        StartPhase::StartingProcessing => seq![StartAction::StartProcessing],
        StartPhase::Started => Seq::empty(),
        StartPhase::Failed(_) => Seq::empty(),
    }
}

/// Whether the size of the picture is settled in a phase.
spec fn has_size(phase: StartPhase) -> bool {
    !(phase is FindingWindow || phase is DetectingResolution)
}

/// Whether the video format is settled in a phase.
spec fn has_format(phase: StartPhase) -> bool {
    match phase {
        StartPhase::FindingWindow => false,
        StartPhase::DetectingResolution => false,
        StartPhase::FindingMicrophone => false,
        StartPhase::MakingReplayBuffer => false,
        StartPhase::StartingMedia => false,
        StartPhase::PickingEncoder => false,
        _ => true,
    }
}

/// What a start that goes well still does from a phase on.
proof fn actions_from_here(s: StartRun, replies: Seq<StartReply>)
    requires
        is_run(s, replies),
        after(s, replies).phase is Started,
        !(s.phase is FindingWindow),
        s.phase is FindingMicrophone ==> s.request.microphone_device is Some,
        s.phase is MakingReplayBuffer ==> s.request.replay_seconds is Some,
        s.phase is StartingAudio ==> s.request.capture_audio,
        s.phase is StartingMicrophone ==> s.request.capture_microphone,
    ensures
        ({
            let end = after(s, replies);
            &&& actions(s, replies) == ahead(s, end.format, end.input_size)
            &&& has_size(s.phase) ==> end.input_size == s.input_size
            &&& has_format(s.phase) ==> end.format == s.format
            &&& end.request == s.request
            &&& end.hwnd == s.hwnd
            &&& !(s.phase is Failed)
        }),
    decreases replies.len(),
{
    let end = after(s, replies);
    if replies.len() > 0 {
        let g = s.next(replies[0]);
        actions_from_here(g, replies.drop_first());
        assert(actions(s, replies) =~= ahead(s, end.format, end.input_size));
    } else {
        assert(actions(s, replies) =~= ahead(s, end.format, end.input_size));
    }
}

/// A recording is started step by step. The window is found first. Then its size,
/// the microphone and the replay buffer follow, as far as they are needed. Writing
/// begins before a thread is started, and a thread is started for each source that
/// is recorded, that for the processing last.
pub proof fn starts_go_in_order(s: StartRun, replies: Seq<StartReply>)
    requires
        s.phase is FindingWindow,
        is_run(s, replies),
        after(s, replies).phase is Started,
    ensures
        ({
            let end = after(s, replies);
            let request = s.request;
            &&& actions(s, replies) == seq![StartAction::ListWindows] + once(
                StartAction::ReadMonitors,
                request.input_width is None || request.input_height is None,
            ) + devices_media_and_threads(request, end.format, end.input_size)
            &&& request.input_width is Some && request.input_height is Some ==> end.input_size == (
                request.input_width->Some_0,
                request.input_height->Some_0,
            )
        }),
{
    assert(replies.len() > 0);
    let g = s.next(replies[0]);
    actions_from_here(g, replies.drop_first());
    let end = after(s, replies);
    assert(actions(s, replies) =~= seq![StartAction::ListWindows] + once(
        StartAction::ReadMonitors,
        s.request.input_width is None || s.request.input_height is None,
    ) + devices_media_and_threads(s.request, end.format, end.input_size));
}

/// The window that is recorded is the first one that goes by the name. Where there
/// is none, the recording is not started, and that is the reason.
pub proof fn window_is_the_one_asked_for(s: StartRun, list: Vec<WindowCandidate>)
    requires
        s.phase is FindingWindow,
    ensures
        ({
            let t = s.next(StartReply::Windows(list));
            let name = s.request.process_name@;
            let exact = s.request.use_exact_match;
            ||| {
                &&& !(t.phase matches StartPhase::Failed(StartFailure::NoWindow))
                &&& exists|i: int|
                    {
                        &&& 0 <= i < list@.len()
                        &&& (#[trigger] list@[i]).handle == t.hwnd
                        &&& goes_by(list@[i], name, exact)
                        &&& forall|k: int| 0 <= k < i ==> !goes_by(#[trigger] list@[k], name, exact)
                    }
            }
            ||| {
                &&& t.phase matches StartPhase::Failed(StartFailure::NoWindow)
                &&& forall|k: int|
                    0 <= k < list@.len() ==> !goes_by(#[trigger] list@[k], name, exact)
            }
        }),
{
    recorded_window_goes_by_the_name(
        list@,
        s.request.process_name@,
        s.request.use_exact_match,
    );
}

/// A picture whose size is not given is as large as the monitor of the window. The
/// microphone is the one that was found, and the video format that of the encoder
/// that was picked.
pub proof fn findings_are_kept(
    s: StartRun,
    monitor: Rect,
    primary: Option<Rect>,
    microphone: Option<String>,
    encoder: VideoEncoder,
)
    requires
        monitor.left <= monitor.right,
        monitor.top <= monitor.bottom,
        monitor.right - monitor.left <= i32::MAX,
        monitor.bottom - monitor.top <= i32::MAX,
    ensures
        s.phase is DetectingResolution ==> {
            let t = s.next(StartReply::Monitors(Some(monitor), primary));
            &&& t.input_size.0 == monitor.right - monitor.left
            &&& t.input_size.1 == monitor.bottom - monitor.top
        },
        s.phase is FindingMicrophone ==> s.next(StartReply::Microphone(microphone)).microphone_id
            == microphone,
        s.phase is PickingEncoder ==> s.next(StartReply::Encoder(Ok(encoder))).format
            == encoder.encoder_type.guid(),
{
}

/// A start fails with the reason that the system or the choice of an encoder
/// gives, and goes no further.
pub proof fn refusals_end_the_start(s: StartRun, error: WindowsError, reason: RecorderError)
    ensures
        s.phase is StartingMedia || s.phase is MakingSink || s.phase is BeginningWriting
            || s.phase is MakingDevice || s.phase is MakingPool ==> s.next(
            StartReply::Done(Err(error)),
        ).phase == StartPhase::Failed(StartFailure::System(error)),
        s.phase is PickingEncoder ==> s.next(StartReply::Encoder(Err(reason))).phase
            == StartPhase::Failed(StartFailure::NoEncoder(reason)),
        s.phase is Failed ==> start_action(s) == StartAction::Finish(false),
        s.phase is Started ==> start_action(s) == StartAction::Finish(true),
{
}

} // verus!
