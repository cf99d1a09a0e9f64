//! Recording from pre-composited frames pushed in from outside.
//!
//! In this mode the capture sources and the compositor are bypassed: a
//! caller pushes finished RGBA frames, which are validated against the
//! configured dimensions and queued for the encoder over the bounded
//! composite queue, dropping on full as everywhere else in the pipeline.

use vstd::prelude::*;
use vstd::string::*;

use crate::compositor::CompositeFrame;
use crate::queue::{BoundedQueue, TryRecvResult, TrySendError, COMPOSITE_QUEUE_CAPACITY};
use crate::recording::{ExternalRecordingConfig, RecordingError, RecordingStatus};

verus! {

/// What the base64 crate's standard-alphabet decoder returns for a string:
/// a function of the input characters alone; `None` where the input is not
/// valid base64.
pub uninterp spec fn base64_decoded(s: Seq<char>) -> Option<Seq<u8>>;

/// Relies on base64's `Engine::decode` with the standard alphabet: whether
/// it succeeds and what it returns depend on the input characters alone.
#[verifier::external_body]
fn base64_decode_standard(s: &str) -> (r: Option<Vec<u8>>)
    ensures
        r is Some <==> base64_decoded(s@) is Some,
        r is Some ==> r.unwrap()@ == base64_decoded(s@).unwrap(),
{
    base64::Engine::decode(&base64::engine::general_purpose::STANDARD, s).ok()
}

/// Decode one externally pushed frame from its base64 transport form; an
/// input that is not base64 is refused with an `Encoding` error.
pub fn decode_external_frame(data_base64: &str) -> (r: Result<Vec<u8>, RecordingError>)
    ensures
        r is Ok <==> base64_decoded(data_base64@) is Some,
        r is Ok ==> r.unwrap()@ == base64_decoded(data_base64@).unwrap(),
        r is Err ==> (r matches Err(RecordingError::Encoding(m)) && m@
            == "invalid base64 frame data"@),
{
    match base64_decode_standard(data_base64) {
        Some(d) => Ok(d),
        None => Err(
            RecordingError::Encoding(String::from_str("invalid base64 frame data")),
        ),
    }
}

/// A pushed frame matches the session: configured dimensions, and exactly
/// four bytes for every pixel.
pub open spec fn frame_valid(
    cfg: ExternalRecordingConfig,
    data: Seq<u8>,
    width: u32,
    height: u32,
) -> bool {
    &&& width == cfg.output_width
    &&& height == cfg.output_height
    &&& data.len() == 4 * width * height
}

/// The queue grew by exactly the pushed frame: one more entry, the old
/// entries kept in order, and the new last entry carrying the pushed pixels,
/// dimensions and timestamp, tagged RGBA.
pub open spec fn pushed_frame(
    q0: Seq<CompositeFrame>,
    q1: Seq<CompositeFrame>,
    data: Seq<u8>,
    width: u32,
    height: u32,
    timestamp_ms: u64,
) -> bool {
    &&& q1.len() == q0.len() + 1
    &&& q1 == q0.push(q1.last())
    &&& q1.last().data@ == data
    &&& q1.last().width == width
    &&& q1.last().height == height
    &&& q1.last().timestamp_ms == timestamp_ms
    &&& !q1.last().is_bgra
}

/// Records video frames handed in from outside, with the audio pipeline and
/// the encoder around it.
pub struct ExternalRecorder {
    /// Configuration of the active session; `Some` exactly while one runs.
    pub config: Option<ExternalRecordingConfig>,
    /// Status surfaced to the outside.
    pub status: RecordingStatus,
    /// Frames accepted so far in this session.
    pub frame_count: u64,
    /// The queue towards the encoder; `Some` exactly while a session runs.
    pub frame_queue: Option<BoundedQueue<CompositeFrame>>,
}

impl ExternalRecorder {
    /// While a session runs, the recorder holds its configuration, its
    /// output path and its frame queue.
    pub open spec fn wf(&self) -> bool {
        self.status.is_recording ==> self.status.output_path is Some && self.config is Some
            && self.frame_queue is Some
    }

    /// A fresh recorder: idle, with a default status.
    pub fn new() -> (r: Self)
        ensures
            r.wf(),
            r.config is None,
            !r.status.is_recording,
            r.frame_count == 0u64,
            r.frame_queue is None,
    {
        ExternalRecorder {
            config: None,
            status: RecordingStatus::default(),
            frame_count: 0,
            frame_queue: None,
        }
    }

    /// Whether a session is running.
    pub fn is_recording(&self) -> (r: bool)
        ensures
            r == self.status.is_recording,
    {
        self.status.is_recording
    }

    /// A status snapshot; while recording, the duration comes from the
    /// session clock and the frame count from the frames accepted so far.
    pub fn status(&self, elapsed_ms: u64) -> (r: RecordingStatus)
        ensures
            r.is_recording == self.status.is_recording,
            r.output_path == self.status.output_path,
            r.error == self.status.error,
            self.status.is_recording ==> r.duration_ms == elapsed_ms && r.frame_count
                == self.frame_count,
            !self.status.is_recording ==> r.duration_ms == self.status.duration_ms
                && r.frame_count == self.status.frame_count,
    {
        let output_path = match &self.status.output_path {
            Some(p) => Some(p.clone()),
            None => None,
        };
        let error = match &self.status.error {
            Some(e) => Some(e.clone()),
            None => None,
        };
        if self.status.is_recording {
            RecordingStatus {
                is_recording: true,
                duration_ms: elapsed_ms,
                frame_count: self.frame_count,
                output_path,
                error,
            }
        } else {
            RecordingStatus {
                is_recording: false,
                duration_ms: self.status.duration_ms,
                frame_count: self.status.frame_count,
                output_path,
                error,
            }
        }
    }

    /// Start a session fed from outside.  `generated_path` is the
    /// clock-derived output path used when the configuration names none.
    pub fn start(&mut self, config: ExternalRecordingConfig, generated_path: String) -> (r: Result<
        (),
        RecordingError,
    >)
        requires
            old(self).wf(),
        ensures
            final(self).wf(),
            old(self).status.is_recording ==> r == Err::<(), RecordingError>(
                RecordingError::AlreadyRecording,
            ) && *final(self) == *old(self),
            !old(self).status.is_recording ==> {
                &&& r is Ok
                &&& final(self).config == Some(config)
                &&& final(self).status.is_recording
                &&& final(self).status.duration_ms == 0
                &&& final(self).status.frame_count == 0
                &&& final(self).status.output_path == Some(
                    if config.output_path is Some {
                        config.output_path.unwrap()
                    } else {
                        generated_path
                    },
                )
                &&& final(self).status.error is None
                &&& final(self).frame_count == 0
                &&& final(self).frame_queue is Some
                &&& final(self).frame_queue.unwrap()@.len() == 0
                &&& final(self).frame_queue.unwrap().spec_capacity() == COMPOSITE_QUEUE_CAPACITY
                &&& !final(self).frame_queue.unwrap().is_closed()
            },
    {
        if self.status.is_recording {
            return Err(RecordingError::AlreadyRecording);
        }
        let path = match &config.output_path {
            Some(p) => p.clone(),
            None => generated_path,
        };
        self.status = RecordingStatus {
            is_recording: true,
            duration_ms: 0,
            frame_count: 0,
            output_path: Some(path),
            error: None,
        };
        self.frame_count = 0;
        self.frame_queue = Some(BoundedQueue::new(COMPOSITE_QUEUE_CAPACITY));
        self.config = Some(config);
        Ok(())
    }

    /// Accept one frame from outside: refuse it without a session or when
    /// it does not match the configured dimensions; otherwise queue it for
    /// the encoder, dropping it silently when the queue is full.  Every 30th
    /// accepted frame refreshes the surfaced frame count.
    pub fn receive_frame(
        &mut self,
        data: Vec<u8>,
        width: u32,
        height: u32,
        timestamp_ms: u64,
    ) -> (r: Result<(), RecordingError>)
        requires
            old(self).wf(),
            old(self).frame_count < u64::MAX,
        ensures
            final(self).wf(),
            !old(self).status.is_recording ==> r == Err::<(), RecordingError>(
                RecordingError::NotRecording,
            ) && *final(self) == *old(self),
            old(self).status.is_recording && (width != old(self).config.unwrap().output_width
                || height != old(self).config.unwrap().output_height) ==> (r matches Err(
                RecordingError::Encoding(m),
            ) && m@ == "frame dimensions do not match the configuration"@) && *final(self) == *old(self),
            old(self).status.is_recording && width == old(self).config.unwrap().output_width
                && height == old(self).config.unwrap().output_height && data@.len() != 4 * width
                * height ==> (r matches Err(RecordingError::Encoding(m)) && m@
                == "frame data size does not match the dimensions"@) && *final(self) == *old(self),
            old(self).status.is_recording && frame_valid(old(self).config.unwrap(), data@, width, height)
                && old(self).frame_queue.unwrap().is_closed() ==> (r matches Err(
                RecordingError::Encoding(m),
            ) && m@ == "encoder disconnected"@) && final(self).frame_count == old(self).frame_count,
            old(self).status.is_recording && frame_valid(old(self).config.unwrap(), data@, width, height)
                && !old(self).frame_queue.unwrap().is_closed() && old(self).frame_queue.unwrap()@.len() == old(self).frame_queue.unwrap().spec_capacity() ==> {
                &&& r is Ok
                &&& final(self).frame_count == old(self).frame_count
                &&& final(self).status == old(self).status
                &&& final(self).config == old(self).config
                &&& final(self).frame_queue is Some
                &&& final(self).frame_queue.unwrap()@ == old(self).frame_queue.unwrap()@
                &&& final(self).frame_queue.unwrap().spec_capacity() == old(self).frame_queue.unwrap().spec_capacity()
                &&& final(self).frame_queue.unwrap().is_closed() == old(self).frame_queue.unwrap().is_closed()
            },
            old(self).status.is_recording && frame_valid(old(self).config.unwrap(), data@, width, height)
                && !old(self).frame_queue.unwrap().is_closed() && old(self).frame_queue.unwrap()@.len() < old(self).frame_queue.unwrap().spec_capacity() ==> {
                &&& r is Ok
                &&& final(self).frame_count == old(self).frame_count + 1
                &&& final(self).frame_queue is Some
                &&& pushed_frame(
                    old(self).frame_queue.unwrap()@,
                    final(self).frame_queue.unwrap()@,
                    data@,
                    width,
                    height,
                    timestamp_ms,
                )
                &&& final(self).status.frame_count == (if (old(self).frame_count + 1) % 30 == 0 {
                    old(self).frame_count + 1
                } else {
                    old(self).status.frame_count as int
                })
                &&& final(self).status.is_recording
                &&& final(self).status.output_path == old(self).status.output_path
                &&& final(self).status.error == old(self).status.error
                &&& final(self).config == old(self).config
            },
    {
        if !self.status.is_recording {
            return Err(RecordingError::NotRecording);
        }
        let (cfg_w, cfg_h) = match &self.config {
            Some(c) => (c.output_width, c.output_height),
            None => {
                return Err(RecordingError::NotRecording);
            },
        };
        if width != cfg_w || height != cfg_h {
            return Err(
                RecordingError::Encoding(
                    String::from_str("frame dimensions do not match the configuration"),
                ),
            );
        }
        proof {
            assert(4 * (width as int) * (height as int) <= u128::MAX) by (nonlinear_arith)
                requires
                    width <= u32::MAX,
                    height <= u32::MAX,
            ;
        }
        let expected: u128 = 4u128 * (width as u128) * (height as u128);
        if (data.len() as u128) != expected {
            return Err(
                RecordingError::Encoding(
                    String::from_str("frame data size does not match the dimensions"),
                ),
            );
        }
        let frame = CompositeFrame { data, width, height, timestamp_ms, is_bgra: false };
        let mut queue: Option<BoundedQueue<CompositeFrame>> = None;
        core::mem::swap(&mut queue, &mut self.frame_queue);
        match queue {
            Some(mut q) => {
                let res = q.try_send(frame);
                self.frame_queue = Some(q);
                match res {
                    Ok(()) => {
                        self.frame_count = self.frame_count + 1;
                        if self.frame_count % 30 == 0 {
                            self.status.frame_count = self.frame_count;
                        }
                        Ok(())
                    },
                    Err(TrySendError::Full(_)) => Ok(()),
                    Err(TrySendError::Disconnected(_)) => Err(
                        RecordingError::Encoding(String::from_str("encoder disconnected")),
                    ),
                }
            },
            None => Err(RecordingError::NotRecording),
        }
    }

    /// Hand the oldest queued frame to the encoder stage; `Disconnected`
    /// once no session holds a queue.
    pub fn next_frame(&mut self) -> (r: TryRecvResult<CompositeFrame>)
        ensures
            final(self).config == old(self).config,
            final(self).status == old(self).status,
            final(self).frame_count == old(self).frame_count,
            old(self).frame_queue is None ==> r is Disconnected && *final(self) == *old(self),
            old(self).frame_queue is Some ==> {
                &&& final(self).frame_queue is Some
                &&& final(self).frame_queue.unwrap().spec_capacity() == old(self).frame_queue.unwrap().spec_capacity()
                &&& final(self).frame_queue.unwrap().is_closed() == old(self).frame_queue.unwrap().is_closed()
                &&& (old(self).frame_queue.unwrap()@.len() > 0 ==> r == TryRecvResult::Item(
                    old(self).frame_queue.unwrap()@[0],
                ) && final(self).frame_queue.unwrap()@ == old(self).frame_queue.unwrap()@.drop_first())
                &&& (old(self).frame_queue.unwrap()@.len() == 0 ==> final(self).frame_queue.unwrap()@ == old(self).frame_queue.unwrap()@ && (if old(self).frame_queue.unwrap().is_closed() {
                    r is Disconnected
                } else {
                    r is Empty
                }))
            },
    {
        let mut queue: Option<BoundedQueue<CompositeFrame>> = None;
        core::mem::swap(&mut queue, &mut self.frame_queue);
        match queue {
            Some(mut q) => {
                let res = q.try_recv();
                self.frame_queue = Some(q);
                res
            },
            None => TryRecvResult::Disconnected,
        }
    }

    /// Stop the session: close the frame hand-off and return the output
    /// path; stopping without a session returns `NotRecording`.
    pub fn stop(&mut self) -> (r: Result<String, RecordingError>)
        requires
            old(self).wf(),
        ensures
            final(self).wf(),
            !old(self).status.is_recording ==> r == Err::<String, RecordingError>(
                RecordingError::NotRecording,
            ) && *final(self) == *old(self),
            old(self).status.is_recording ==> {
                &&& r == Ok::<String, RecordingError>(old(self).status.output_path.unwrap())
                &&& !final(self).status.is_recording
                &&& final(self).config is None
                &&& final(self).frame_queue is None
                &&& final(self).status.output_path == old(self).status.output_path
                &&& final(self).status.error == old(self).status.error
            },
    {
        if !self.status.is_recording {
            return Err(RecordingError::NotRecording);
        }
        self.status.is_recording = false;
        self.config = None;
        self.frame_queue = None;
        match &self.status.output_path {
            Some(path) => Ok(path.clone()),
            None => Err(RecordingError::NotRecording),
        }
    }

    /// An encoder failure delivered while running: the session is torn down
    /// and the message is recorded in the status.
    pub fn handle_encoder_failure(&mut self, message: String)
        requires
            old(self).wf(),
        ensures
            final(self).wf(),
            final(self).config is None,
            final(self).frame_queue is None,
            !final(self).status.is_recording,
            final(self).status.error == Some(message),
            final(self).status.output_path == old(self).status.output_path,
    {
        let _ = self.stop();
        self.config = None;
        self.frame_queue = None;
        self.status.error = Some(message);
        self.status.is_recording = false;
    }
}

} // verus!
