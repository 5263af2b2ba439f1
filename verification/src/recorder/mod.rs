//! Recording a window.
use crate::error::{windows_error_text, RecorderError, Result, WindowsError};
use crate::recorder::inner::{can_join, were_joined, RecorderInner, RecorderThread, ThreadEnd};
use vstd::prelude::*;

pub mod config;
pub mod graphics;
pub mod history;
pub mod inner;
pub mod replay;
pub mod startup;
pub mod utils;

pub use config::{AudioSource, RecorderConfig, RecorderConfigBuilder, Volume};

verus! {

/// A recording that was started. `I` is what of it is outside: its threads and
/// its file.
pub struct Recording<I> {
    /// Whether it goes on, and which threads it has.
    pub control: RecorderInner,
    /// What of it is outside.
    pub outside: I,
}

/// Records a window. `I` is what of a recording is outside.
pub struct Recorder<I> {
    /// The recording, once it was started.
    pub rec_inner: Option<Recording<I>>,
    /// The settings.
    pub config: RecorderConfig,
    /// The name of the window, once it was set.
    pub process_name: Option<String>,
    /// Whether the whole title must match.
    pub use_exact_match: bool,
}

impl<I> Recorder<I> {
    /// A recorder with the given settings, which has no window yet.
    pub fn new(config: RecorderConfig) -> (r: Result<Self>)
        ensures
            r == Ok::<Recorder<I>, RecorderError>(
                (Recorder {
                    rec_inner: None,
                    config,
                    process_name: None,
                    use_exact_match: false,
                }),
            ),
    {
        Ok(Recorder { rec_inner: None, config, process_name: None, use_exact_match: false })
    }

    /// A builder for settings.
    pub fn builder() -> (r: RecorderConfigBuilder)
        ensures
            r.config.is_default(),
    {
        RecorderConfig::builder()
    }

    /// Sets the name of the window to record.
    pub fn with_process_name(self, proc_name: &str) -> (r: Self)
        ensures
            r == (Recorder { process_name: r.process_name, ..self }),
            r.process_name matches Some(name) && name@ == proc_name@,
    {
        Recorder { process_name: Some(proc_name.to_owned()), ..self }
    }

    /// Sets whether the title of the window must be the name, letter for
    /// letter. Otherwise it must hold the name.
    pub fn with_exact_match(self, use_exact: bool) -> (r: Self)
        ensures
            r == (Recorder { use_exact_match: use_exact, ..self }),
    {
        Recorder { use_exact_match: use_exact, ..self }
    }

    /// Whether `after` is the recorder once a recording was to be started, and
    /// `r` what is told of that. `started` is what came of the start.
    ///
    /// Nothing is started without a name, and a start that fails changes
    /// nothing.
    pub open spec fn starts_to(
        self,
        started: std::result::Result<I, WindowsError>,
        after: Recorder<I>,
        r: Result<()>,
    ) -> bool {
        match (self.process_name, started) {
            (None, _) => {
                &&& r matches Err(RecorderError::NoProcessSpecified)
                &&& after == self
            },
            (Some(_), Ok(outside)) => {
                &&& r is Ok
                &&& after == (Recorder {
                    rec_inner: Some(
                        Recording {
                            control: RecorderInner::fresh(
                                self.config.capture_audio,
                                self.config.capture_microphone,
                            ),
                            outside,
                        },
                    ),
                    ..self
                })
            },
            (Some(_), Err(error)) => {
                &&& r matches Err(RecorderError::FailedToStart(reason)) && reason@
                    == windows_error_text(error)
                &&& after == self
            },
        }
    }

    /// Starts to record. `init` starts a recording from the settings, the name
    /// of the window, and whether the whole title must match.
    ///
    /// It is not called without a name.
    pub fn start_recording<
        F: FnOnce(&RecorderConfig, &String, bool) -> std::result::Result<I, WindowsError>,
    >(&mut self, init: F) -> (r: Result<()>)
        requires
            old(self).process_name matches Some(name) ==> init.requires(
                (&old(self).config, &name, old(self).use_exact_match),
            ),
        ensures
            exists|started: std::result::Result<I, WindowsError>|
                {
                    &&& #[trigger] old(self).starts_to(started, *final(self), r)
                    &&& old(self).process_name matches Some(name) ==> init.ensures(
                        (&old(self).config, &name, old(self).use_exact_match),
                        started,
                    )
                },
    {
        let ghost before = *self;
        let started = match &self.process_name {
            None => {
                let r = Err(RecorderError::NoProcessSpecified);
                assert(before.starts_to(Err(arbitrary()), *self, r));
                return r;
            },
            Some(name) => init(&self.config, name, self.use_exact_match),
        };
        let ghost outcome = started;
        let r = match started {
            Ok(outside) => {
                let control = RecorderInner::new(
                    self.config.capture_audio,
                    self.config.capture_microphone,
                );
                self.rec_inner = Some(Recording { control, outside });
                Ok(())
            },
            Err(error) => Err(RecorderError::FailedToStart(error.to_text())),
        };
        assert(before.starts_to(outcome, *self, r));
        r
    }

    /// Whether there is a recording, and it was not ended.
    pub open spec fn goes_on(self) -> bool {
        self.rec_inner matches Some(recording) && recording.control.recording
    }

    /// Whether `after` is the recorder once its recording was to be ended, and
    /// `r` what is told of that. `went_on` tells whether the recording went on
    /// until then, and `ends` how its threads came to their ends.
    pub open spec fn stops_to(
        self,
        went_on: bool,
        ends: Seq<ThreadEnd>,
        after: Recorder<I>,
        r: Result<()>,
    ) -> bool {
        match (self.rec_inner, after.rec_inner) {
            (None, _) => {
                &&& r matches Err(RecorderError::NoRecorderBound)
                &&& after == self
            },
            (Some(recording), Some(stopped)) => {
                &&& recording.control.stops_to(went_on, ends, stopped.control, r)
                &&& stopped.outside == recording.outside
                &&& after == (Recorder { rec_inner: Some(stopped), ..self })
            },
            (Some(_), None) => false,
        }
    }

    /// Ends the recording and waits for its threads.
    ///
    /// `halt` tells the threads to end, and tells whether the recording went on
    /// until then. `join` waits for one thread. It is called only once `halt`
    /// has said yes, and neither is called where there is no recording, or
    /// where it was ended before.
    pub fn stop_recording<H: FnOnce(&I) -> bool, J: Fn(&I, RecorderThread) -> ThreadEnd>(
        &mut self,
        halt: H,
        join: J,
    ) -> (r: Result<()>)
        requires
            old(self).goes_on() ==> halt.requires((&old(self).rec_inner->Some_0.outside,)),
            old(self).goes_on() && halt.ensures((&old(self).rec_inner->Some_0.outside,), true)
                ==> can_join(
                join,
                &old(self).rec_inner->Some_0.outside,
                old(self).rec_inner->Some_0.control.threads(),
            ),
        ensures
            exists|went_on: bool, ends: Seq<ThreadEnd>|
                {
                    &&& #[trigger] old(self).stops_to(went_on, ends, *final(self), r)
                    &&& old(self).goes_on() ==> halt.ensures(
                        (&old(self).rec_inner->Some_0.outside,),
                        went_on,
                    )
                    &&& old(self).goes_on() && went_on ==> were_joined(
                        join,
                        &old(self).rec_inner->Some_0.outside,
                        old(self).rec_inner->Some_0.control.threads(),
                        ends,
                    )
                },
    {
        let ghost before = *self;
        let r = match &mut self.rec_inner {
            None => Err(RecorderError::NoRecorderBound),
            Some(recording) => recording.control.stop(&recording.outside, halt, join),
        };
        proof {
            match before.rec_inner {
                None => {
                    assert(before.stops_to(false, Seq::empty(), *self, r));
                },
                Some(recording) => {
                    let stopped = self.rec_inner->Some_0.control;
                    let (went_on, ends) = choose|went_on: bool, ends: Seq<ThreadEnd>|
                        {
                            &&& #[trigger] recording.control.stops_to(went_on, ends, stopped, r)
                            &&& before.goes_on() ==> halt.ensures((&recording.outside,), went_on)
                            &&& before.goes_on() && went_on ==> were_joined(
                                join,
                                &recording.outside,
                                recording.control.threads(),
                                ends,
                            )
                        };
                    assert(before.stops_to(went_on, ends, *self, r));
                },
            }
        }
        r
    }

    /// The settings.
    pub fn config(&self) -> (r: &RecorderConfig)
        ensures
            *r == self.config,
    {
        &self.config
    }

    /// Saves the replay buffer to a file. `save` saves that of a recording that
    /// was started.
    pub fn save_replay<F: FnOnce(&I, &str) -> Result<()>>(&self, output_path: &str, save: F) -> (r:
        Result<()>)
        requires
            self.config.enable_replay_buffer && (self.rec_inner is Some) ==> save.requires(
                (&self.rec_inner->Some_0.outside, output_path),
            ),
        ensures
            !self.config.enable_replay_buffer ==> (r matches Err(RecorderError::Generic(reason))
                && reason@ == "Replay buffer is not enabled"@),
            self.config.enable_replay_buffer ==> match self.rec_inner {
                None => r matches Err(RecorderError::NoRecorderBound),
                Some(recording) => save.ensures((&recording.outside, output_path), r),
            },
    {
        if !self.config.enable_replay_buffer {
            return Err(RecorderError::Generic("Replay buffer is not enabled".to_owned()));
        }
        match &self.rec_inner {
            None => Err(RecorderError::NoRecorderBound),
            Some(recording) => save(&recording.outside, output_path),
        }
    }
}

} // verus!
