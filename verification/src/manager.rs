//! The recording manager: the single controller of a session.
//!
//! The manager owns the session state machine: it validates a configuration,
//! resolves the output path, commits the transition into the running state,
//! and tears the session down on stop or on an encoder failure.  Opening
//! devices, spawning the stage workers and polling the error channel happen
//! outside the library; their decisions all pass through the transitions
//! defined here, so every reachable state satisfies the manager's invariant.

use vstd::prelude::*;

use crate::recording::{RecordingConfig, RecordingError, RecordingStatus};

verus! {

/// Orchestrates capture, compositing, mixing and encoding for one session.
pub struct RecordingManager {
    /// Configuration of the active session; `Some` exactly while one runs.
    pub config: Option<RecordingConfig>,
    /// Status surfaced to the outside.
    pub status: RecordingStatus,
}

impl RecordingManager {
    /// While a session runs, the manager holds its configuration and its
    /// output path.
    pub open spec fn wf(&self) -> bool {
        self.status.is_recording ==> self.status.output_path is Some && self.config is Some
    }

    /// What `start` does: a second start while a session runs is refused, a
    /// configuration with no video source is refused, and otherwise the
    /// manager enters the running state with a fresh status and the resolved
    /// output path — the configured path when one is given, the generated
    /// one otherwise.
    pub open spec fn spec_start(
        m: RecordingManager,
        config: RecordingConfig,
        generated_path: String,
    ) -> (RecordingManager, Result<(), RecordingError>) {
        if m.status.is_recording {
            (m, Err(RecordingError::AlreadyRecording))
        } else if !config.capture_screen && !config.capture_webcam {
            (m, Err(RecordingError::NoVideoSource))
        } else {
            let path = if config.output_path is Some {
                config.output_path.unwrap()
            } else {
                generated_path
            };
            (
                RecordingManager {
                    config: Some(config),
                    status: RecordingStatus {
                        is_recording: true,
                        duration_ms: 0,
                        frame_count: 0,
                        output_path: Some(path),
                        error: None,
                    },
                },
                Ok(()),
            )
        }
    }

    /// What `stop` does: without a running session it returns `NotRecording`
    /// and changes nothing; otherwise it leaves the running state, clears
    /// the held configuration, and returns the session's output path (a
    /// running session always holds one: see `wf`).
    pub open spec fn spec_stop(m: RecordingManager) -> (
        RecordingManager,
        Result<String, RecordingError>,
    ) {
        if !m.status.is_recording {
            (m, Err(RecordingError::NotRecording))
        } else {
            let cleared = RecordingManager {
                config: None,
                status: RecordingStatus {
                    is_recording: false,
                    duration_ms: m.status.duration_ms,
                    frame_count: m.status.frame_count,
                    output_path: m.status.output_path,
                    error: m.status.error,
                },
            };
            match m.status.output_path {
                Some(path) => (cleared, Ok(path)),
                None => (cleared, Err(RecordingError::NotRecording)),
            }
        }
    }

    /// A fresh manager: idle, with a default status.
    pub fn new() -> (r: Self)
        ensures
            r.wf(),
            r.config is None,
            !r.status.is_recording,
            r.status.duration_ms == 0u64,
            r.status.frame_count == 0u64,
            r.status.output_path is None,
            r.status.error is None,
    {
        RecordingManager { config: None, status: RecordingStatus::default() }
    }

    /// A snapshot of the current status.
    pub fn status(&self) -> (r: RecordingStatus)
        ensures
            r == self.status,
    {
        let output_path = match &self.status.output_path {
            Some(p) => Some(p.clone()),
            None => None,
        };
        let error = match &self.status.error {
            Some(e) => Some(e.clone()),
            None => None,
        };
        RecordingStatus {
            is_recording: self.status.is_recording,
            duration_ms: self.status.duration_ms,
            frame_count: self.status.frame_count,
            output_path,
            error,
        }
    }

    /// Start a session: validate the configuration and enter the running
    /// state.  `generated_path` is the clock-derived output path used when
    /// the configuration names none.
    pub fn start(&mut self, config: RecordingConfig, generated_path: String) -> (r: Result<
        (),
        RecordingError,
    >)
        requires
            old(self).wf(),
        ensures
            final(self).wf(),
            *final(self) == Self::spec_start(*old(self), config, generated_path).0,
            r == Self::spec_start(*old(self), config, generated_path).1,
    {
        if self.status.is_recording {
            return Err(RecordingError::AlreadyRecording);
        }
        if !config.capture_screen && !config.capture_webcam {
            return Err(RecordingError::NoVideoSource);
        }
        let path = match &config.output_path {
            Some(p) => p.clone(),
            None => generated_path,
        };
        self.status = RecordingStatus {
            is_recording: true,
            duration_ms: 0,
            frame_count: 0,
            output_path: Some(path),
            error: None,
        };
        self.config = Some(config);
        Ok(())
    }

    /// Undo a start whose device or worker setup failed outside: back to
    /// idle with nothing held, as if the start had been refused.
    pub fn cancel_start(&mut self)
        ensures
            final(self).wf(),
            final(self).config is None,
            !final(self).status.is_recording,
            final(self).status.output_path is None,
            final(self).status.duration_ms == old(self).status.duration_ms,
            final(self).status.frame_count == old(self).status.frame_count,
            final(self).status.error == old(self).status.error,
    {
        self.config = None;
        self.status.is_recording = false;
        self.status.output_path = None;
    }

    /// Progress report from the compositor: frames emitted so far and the
    /// session duration.
    pub fn record_progress(&mut self, frame_count: u64, duration_ms: u64)
        requires
            old(self).wf(),
        ensures
            final(self).wf(),
            final(self).config == old(self).config,
            final(self).status.is_recording == old(self).status.is_recording,
            final(self).status.output_path == old(self).status.output_path,
            final(self).status.error == old(self).status.error,
            final(self).status.frame_count == frame_count,
            final(self).status.duration_ms == duration_ms,
    {
        self.status.frame_count = frame_count;
        self.status.duration_ms = duration_ms;
    }

    /// Stop the session and return the output path; stopping without a
    /// running session returns `NotRecording`.
    pub fn stop(&mut self) -> (r: Result<String, RecordingError>)
        requires
            old(self).wf(),
        ensures
            final(self).wf(),
            *final(self) == Self::spec_stop(*old(self)).0,
            r == Self::spec_stop(*old(self)).1,
            old(self).status.is_recording ==> r is Ok,
            !old(self).status.is_recording ==> r == Err::<String, RecordingError>(
                RecordingError::NotRecording,
            ),
    {
        if !self.status.is_recording {
            return Err(RecordingError::NotRecording);
        }
        self.status.is_recording = false;
        self.config = None;
        match &self.status.output_path {
            Some(path) => Ok(path.clone()),
            None => Err(RecordingError::NotRecording),
        }
    }

    /// An encoder failure delivered while running: the session is torn down
    /// and the message is recorded in the status.
    pub fn handle_encoder_failure(&mut self, message: String)
        requires
            old(self).wf(),
        ensures
            final(self).wf(),
            final(self).config is None,
            !final(self).status.is_recording,
            final(self).status.error == Some(message),
            final(self).status.output_path == old(self).status.output_path,
            final(self).status.duration_ms == old(self).status.duration_ms,
            final(self).status.frame_count == old(self).status.frame_count,
    {
        let _ = self.stop();
        self.config = None;
        self.status.error = Some(message);
        self.status.is_recording = false;
    }
}

/// Stop is idempotent in its success then its refusal: stopping a running
/// session succeeds with its output path, and a second stop, with no start
/// between, returns `NotRecording` and changes nothing.
pub proof fn lemma_stop_then_stop(m: RecordingManager)
    requires
        m.wf(),
        m.status.is_recording,
    ensures
        RecordingManager::spec_stop(m).1 is Ok,
        RecordingManager::spec_stop(RecordingManager::spec_stop(m).0).1 == Err::<
            String,
            RecordingError,
        >(RecordingError::NotRecording),
        RecordingManager::spec_stop(RecordingManager::spec_stop(m).0).0
            == RecordingManager::spec_stop(m).0,
{
}

/// A start while a session runs is refused with `AlreadyRecording` and
/// changes nothing, whatever the configuration says.
pub proof fn lemma_start_while_running(
    m: RecordingManager,
    config: RecordingConfig,
    generated_path: String,
)
    requires
        m.status.is_recording,
    ensures
        RecordingManager::spec_start(m, config, generated_path).1 == Err::<(), RecordingError>(
            RecordingError::AlreadyRecording,
        ),
        RecordingManager::spec_start(m, config, generated_path).0 == m,
{
}

/// A configuration with neither screen nor webcam capture is refused with
/// `NoVideoSource` and changes nothing.
pub proof fn lemma_start_needs_video_source(
    m: RecordingManager,
    config: RecordingConfig,
    generated_path: String,
)
    requires
        !m.status.is_recording,
        !config.capture_screen,
        !config.capture_webcam,
    ensures
        RecordingManager::spec_start(m, config, generated_path).1 == Err::<(), RecordingError>(
            RecordingError::NoVideoSource,
        ),
        RecordingManager::spec_start(m, config, generated_path).0 == m,
{
}

} // verus!
