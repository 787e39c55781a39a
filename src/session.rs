use vstd::prelude::*;
use crate::config::RecordingConfig;
use crate::encoder::{non_decreasing, spec_drain_ok, spec_duration_ms, EncoderView, VideoEncoder};
use crate::error::CaptureError;

verus! {

/// The states of a capture session.
#[derive(Debug, Clone, Copy, PartialEq, Eq, Structural)]
pub enum RecordingState {
    Idle,
    PreInitializing,
    Ready,
    Recording,
    Stopping,
    Stopped,
    Failed,
}

/// Stopped and Failed sessions are never restarted.
pub open spec fn is_terminal(s: RecordingState) -> bool {
    s == RecordingState::Stopped || s == RecordingState::Failed
}

/// The abstract state of a session: its state, configuration, start time,
/// recorded duration, and the stream its encoder holds once the first frame
/// arrived.
pub struct RecorderView {
    pub state: RecordingState,
    pub output_path: Seq<char>,
    pub fps: u32,
    pub start_ms: Option<u64>,
    pub duration_ms: u64,
    pub stream: Option<EncoderView>,
}

impl RecorderView {
    /// Whether a container with a trailer was written.
    pub open spec fn finalized(self) -> bool {
        self.stream matches Some(e) && e.finished
    }

    /// How states, start time and stream fit together.
    pub open spec fn consistent(self) -> bool {
        &&& (self.state == RecordingState::Idle || self.state == RecordingState::PreInitializing
            || self.state == RecordingState::Ready) ==> self.stream is None && self.start_ms is None
        &&& self.state == RecordingState::Recording ==> self.start_ms is Some && (
            self.stream matches Some(e) ==> e.frames > 0 && !e.finished && !e.failed)
        &&& self.finalized() ==> self.state == RecordingState::Stopped || self.state == RecordingState::Failed
        &&& self.state == RecordingState::Stopped ==> self.finalized()
        &&& self.stream matches Some(e) ==> e.frames <= crate::encoder::MAX_FRAMES && crate::config::valid_fps(e.fps)
    }
}

/// What `start` does: a Ready session starts recording at `now_ms`; any
/// other session refuses with `AlreadyActive` and stays as it was.
pub open spec fn spec_start(v: RecorderView, now_ms: u64, w: RecorderView, r: Result<(), CaptureError>) -> bool {
    if v.state == RecordingState::Ready {
        r is Ok && w == (RecorderView { state: RecordingState::Recording, start_ms: Some(now_ms), ..v })
    } else {
        r == Err::<(), CaptureError>(CaptureError::AlreadyActive) && w == v
    }
}

/// Whether stopping a recording session with these drained packets succeeds.
pub open spec fn spec_stop_ok(v: RecorderView, drained: Seq<u64>) -> bool {
    &&& v.state == RecordingState::Recording
    &&& v.stream matches Some(e) && spec_drain_ok(e, drained) && e.packets.len() + drained.len() == e.frames
}

/// What `stop` does. A session that is not recording refuses with
/// `NotActive` and stays exactly as it was (nothing is written). A recording
/// session drains the packets, finalizes, and ends Stopped with the output
/// path and the duration of its frames; without any frame it ends Failed
/// with `NoFrames`; with a packet refused or missing it ends Failed with an
/// encoding error.
pub open spec fn spec_stop(v: RecorderView, drained: Seq<u64>, w: RecorderView, r: Result<(String, u64), CaptureError>) -> bool {
    if v.state != RecordingState::Recording {
        r == Err::<(String, u64), CaptureError>(CaptureError::NotActive) && w == v
    } else if v.stream is None {
        r == Err::<(String, u64), CaptureError>(CaptureError::NoFrames) && w == (RecorderView {
            state: RecordingState::Failed,
            ..v
        })
    } else if spec_stop_ok(v, drained) {
        let e = v.stream->0;
        let d = spec_duration_ms(e.frames as int, e.fps as int) as u64;
        &&& r matches Ok((p, dur)) && p@ == v.output_path && dur == d
        &&& w.state == RecordingState::Stopped
        &&& w.duration_ms == d
        &&& w.output_path == v.output_path && w.fps == v.fps && w.start_ms == v.start_ms
        &&& w.finalized()
        &&& w.stream->0.frames == e.frames
        &&& w.stream->0.packets.len() == e.frames
        &&& non_decreasing(w.stream->0.packets)
    } else {
        &&& r is Err && r->Err_0 is Encoding
        &&& w.state == RecordingState::Failed
        &&& !w.finalized()
        &&& w.output_path == v.output_path && w.fps == v.fps && w.start_ms == v.start_ms
    }
}

/// One capture session: owns the configuration and the encoder of one
/// recording, and enforces the recording state machine.
pub struct Recorder {
    config: RecordingConfig,
    state: RecordingState,
    start_ms: Option<u64>,
    duration_ms: u64,
    encoder: Option<VideoEncoder>,
}

impl View for Recorder {
    type V = RecorderView;

    closed spec fn view(&self) -> RecorderView {
        RecorderView {
            state: self.state,
            output_path: self.config.output_path@,
            fps: self.config.fps,
            start_ms: self.start_ms,
            duration_ms: self.duration_ms,
            stream: match self.encoder {
                Some(e) => Some(e@),
                None => None,
            },
        }
    }
}

impl Recorder {
    /// The session's invariant: a valid configuration, a well-formed
    /// encoder at the configured rate, and a consistent view.
    pub closed spec fn wf(&self) -> bool {
        &&& self.config.spec_valid()
        &&& self.encoder matches Some(e) ==> e.wf() && e@.fps == self.config.fps
        &&& self@.consistent()
    }

    /// Facts that hold of every well-formed session.
    pub proof fn lemma_wf(&self)
        requires
            self.wf(),
        ensures
            self@.consistent(),
            crate::config::valid_fps(self@.fps),
            self@.stream matches Some(e) ==> e.fps == self@.fps,
    {
    }

    /// A session in state Idle for a valid configuration; an invalid one is
    /// a configuration error.
    pub fn new(config: RecordingConfig) -> (r: Result<Recorder, CaptureError>)
        ensures
            r is Ok <==> config.spec_valid(),
            r matches Err(e) ==> e is Configuration,
            r matches Ok(rec) ==> rec.wf() && rec@ == (RecorderView {
                state: RecordingState::Idle,
                output_path: config.output_path@,
                fps: config.fps,
                start_ms: None,
                duration_ms: 0,
                stream: None,
            }),
    {
        match config.validate() {
            Err(e) => Err(e),
            Ok(()) => Ok(Recorder { config, state: RecordingState::Idle, start_ms: None, duration_ms: 0, encoder: None }),
        }
    }

    /// The configuration the session was built from.
    pub fn config(&self) -> (r: &RecordingConfig)
        ensures
            r.output_path@ == self@.output_path,
            r.fps == self@.fps,
    {
        &self.config
    }

    /// Current state.
    pub fn state(&self) -> (r: RecordingState)
        ensures
            r == self@.state,
    {
        self.state
    }

    /// Whether the session is recording.
    pub fn is_recording(&self) -> (r: bool)
        ensures
            r == (self@.state == RecordingState::Recording),
    {
        self.state == RecordingState::Recording
    }

    /// Recorded duration in milliseconds (zero until stopped).
    pub fn duration(&self) -> (r: u64)
        ensures
            r == self@.duration_ms,
    {
        self.duration_ms
    }

    /// Begins native setup: Idle becomes PreInitializing. Any other state
    /// refuses with `AlreadyActive` and is left as it was.
    pub fn pre_initialize(&mut self) -> (r: Result<(), CaptureError>)
        requires
            old(self).wf(),
        ensures
            final(self).wf(),
            old(self)@.state == RecordingState::Idle ==> r is Ok && final(self)@ == (RecorderView {
                state: RecordingState::PreInitializing,
                ..old(self)@
            }),
            old(self)@.state != RecordingState::Idle ==> r == Err::<(), CaptureError>(
                CaptureError::AlreadyActive) && final(self)@ == old(self)@,
    {
        if self.state != RecordingState::Idle {
            return Err(CaptureError::AlreadyActive);
        }
        self.state = RecordingState::PreInitializing;
        Ok(())
    }

    /// Reports the outcome of native setup. A PreInitializing session becomes
    /// Ready on success and Failed on failure, with the failure as an
    /// initialization error. In any other state nothing changes and the
    /// result is an initialization error.
    pub fn complete_setup(&mut self, outcome: Result<(), String>) -> (r: Result<(), CaptureError>)
        requires
            old(self).wf(),
        ensures
            final(self).wf(),
            old(self)@.state == RecordingState::PreInitializing && outcome is Ok ==> r is Ok
                && final(self)@ == (RecorderView { state: RecordingState::Ready, ..old(self)@ }),
            old(self)@.state == RecordingState::PreInitializing && outcome is Err ==> r is Err
                && r->Err_0 is Initialization && final(self)@ == (RecorderView {
                state: RecordingState::Failed,
                ..old(self)@
            }),
            old(self)@.state != RecordingState::PreInitializing ==> r is Err && r->Err_0 is Initialization
                && final(self)@ == old(self)@,
    {
        if self.state != RecordingState::PreInitializing {
            return Err(CaptureError::Initialization(String::from_str("no setup in progress")));
        }
        match outcome {
            Ok(()) => {
                self.state = RecordingState::Ready;
                Ok(())
            },
            Err(msg) => {
                self.state = RecordingState::Failed;
                Err(CaptureError::Initialization(msg))
            },
        }
    }

    /// Starts recording a Ready session at `now_ms`.
    pub fn start(&mut self, now_ms: u64) -> (r: Result<(), CaptureError>)
        requires
            old(self).wf(),
        ensures
            final(self).wf(),
            spec_start(old(self)@, now_ms, final(self)@, r),
    {
        if self.state != RecordingState::Ready {
            return Err(CaptureError::AlreadyActive);
        }
        self.state = RecordingState::Recording;
        self.start_ms = Some(now_ms);
        Ok(())
    }

    /// Whether a frame is accepted: the session is recording, and the frame
    /// is the first one (sequence number 0, with a supported size, which
    /// fixes the stream's dimensions) or the next one of the stream with the
    /// stream's dimensions.
    pub open spec fn spec_frame_ok(v: RecorderView, seq: u64, width: u32, height: u32) -> bool {
        &&& v.state == RecordingState::Recording
        &&& match v.stream {
            None => VideoEncoder::spec_supported(width, height, v.fps) && seq == 0,
            Some(e) => width == e.width && height == e.height && seq == e.frames
                && e.frames < crate::encoder::MAX_FRAMES,
        }
    }

    /// Whether a refused frame of a recording session is a configuration
    /// error (a size the codec cannot take, or one that differs from the
    /// stream's) rather than an encoding error.
    pub open spec fn spec_frame_size_refused(v: RecorderView, width: u32, height: u32) -> bool {
        match v.stream {
            None => !VideoEncoder::spec_supported(width, height, v.fps),
            Some(e) => width != e.width || height != e.height,
        }
    }

    /// Hands a captured frame to the encoder. The result is its presentation
    /// time in the codec time base. A session that is not recording refuses
    /// with `NotActive` and is unchanged; a refused frame fails the session.
    pub fn accept_frame(&mut self, seq: u64, width: u32, height: u32) -> (r: Result<u64, CaptureError>)
        requires
            old(self).wf(),
        ensures
            final(self).wf(),
            old(self)@.state != RecordingState::Recording ==> r == Err::<u64, CaptureError>(
                CaptureError::NotActive) && final(self)@ == old(self)@,
            r is Ok <==> Self::spec_frame_ok(old(self)@, seq, width, height),
            r is Ok ==> r == Ok::<u64, CaptureError>(seq) && final(self)@.state == RecordingState::Recording
                && (final(self)@.stream matches Some(e) && e.frames == seq + 1 && e.width == width
                && e.height == height),
            r is Ok && old(self)@.stream is Some ==> final(self)@.stream->0.packets
                == old(self)@.stream->0.packets,
            r is Ok && old(self)@.stream is None ==> final(self)@.stream->0.packets.len() == 0,
            r is Ok ==> final(self)@ == (RecorderView { stream: final(self)@.stream, ..old(self)@ }),
            old(self)@.state == RecordingState::Recording && r is Err ==> final(self)@.state
                == RecordingState::Failed && !final(self)@.finalized(),
            old(self)@.state == RecordingState::Recording && r is Err ==> (r->Err_0 is Configuration
                <==> Self::spec_frame_size_refused(old(self)@, width, height)),
            old(self)@.state == RecordingState::Recording && r is Err ==> (r->Err_0 is Configuration
                || r->Err_0 is Encoding),
    {
        if self.state != RecordingState::Recording {
            return Err(CaptureError::NotActive);
        }
        let mut enc = match self.encoder.take() {
            Some(e) => e,
            None => match VideoEncoder::new(width, height, self.config.fps) {
                Ok(e) => e,
                Err(err) => {
                    self.state = RecordingState::Failed;
                    return Err(err);
                },
            },
        };
        let res = enc.submit_frame(seq, width, height);
        self.encoder = Some(enc);
        if res.is_err() {
            self.state = RecordingState::Failed;
        }
        res
    }

    /// Writes a packet that the codec released for this session's stream.
    /// A session that is not recording refuses with `NotActive` and is
    /// unchanged; a refused packet fails the session.
    pub fn write_packet(&mut self, codec_pts: u64) -> (r: Result<u64, CaptureError>)
        requires
            old(self).wf(),
        ensures
            final(self).wf(),
            old(self)@.state != RecordingState::Recording ==> r == Err::<u64, CaptureError>(
                CaptureError::NotActive) && final(self)@ == old(self)@,
            old(self)@.state == RecordingState::Recording ==> (r is Ok <==> (old(self)@.stream is Some
                && spec_drain_ok(old(self)@.stream->0, seq![codec_pts]))),
            r is Ok ==> final(self)@ == (RecorderView {
                stream: Some(EncoderView {
                    packets: old(self)@.stream->0.packets.push(
                        crate::encoder::spec_rescale(codec_pts as int, old(self)@.fps as int) as u64),
                    ..old(self)@.stream->0
                }),
                ..old(self)@
            }),
            r is Ok ==> r == Ok::<u64, CaptureError>(
                crate::encoder::spec_rescale(codec_pts as int, old(self)@.fps as int) as u64),
            old(self)@.state == RecordingState::Recording && r is Err ==> final(self)@.state
                == RecordingState::Failed && !final(self)@.finalized() && r->Err_0 is Encoding,
    {
        if self.state != RecordingState::Recording {
            return Err(CaptureError::NotActive);
        }
        match self.encoder.take() {
            None => {
                self.state = RecordingState::Failed;
                Err(CaptureError::Encoding(String::from_str("packet before any frame")))
            },
            Some(mut enc) => {
                let ghost e0 = enc@;
                let res = enc.write_packet(codec_pts);
                proof {
                    let ts = crate::encoder::spec_rescale(codec_pts as int, e0.fps as int) as u64;
                    assert(crate::encoder::spec_rescaled(seq![codec_pts], e0.fps as int) =~= seq![ts]);
                    assert(e0.packets + seq![ts] =~= e0.packets.push(ts));
                    if res is Ok {
                        assert forall|k: int| 0 <= k < 1 implies #[trigger] seq![codec_pts][k] < e0.frames by {}
                        assert(enc@.packets == e0.packets.push(ts));
                        enc.lemma_wf();
                    } else if codec_pts >= e0.frames {
                        assert(seq![codec_pts][0] == codec_pts);
                    } else if e0.packets.len() < e0.frames && e0.packets.len() > 0 {
                        let all = e0.packets + seq![ts];
                        assert(all[e0.packets.len() - 1] > all[e0.packets.len() as int]);
                    }
                }
                self.encoder = Some(enc);
                if res.is_err() {
                    self.state = RecordingState::Failed;
                }
                res
            },
        }
    }

    /// Stops the session: see `spec_stop`. `drained` holds the codec
    /// timestamps of the packets the codec released after end of stream.
    pub fn stop(&mut self, drained: &Vec<u64>) -> (r: Result<(String, u64), CaptureError>)
        requires
            old(self).wf(),
        ensures
            final(self).wf(),
            spec_stop(old(self)@, drained@, final(self)@, r),
    {
        if self.state != RecordingState::Recording {
            return Err(CaptureError::NotActive);
        }
        self.state = RecordingState::Stopping;
        match self.encoder.take() {
            None => {
                self.state = RecordingState::Failed;
                Err(CaptureError::NoFrames)
            },
            Some(mut enc) => {
                let ghost e0 = enc@;
                let drain = enc.drain(drained);
                if drain.is_err() {
                    self.encoder = Some(enc);
                    self.state = RecordingState::Failed;
                    return Err(CaptureError::Encoding(String::from_str("draining the encoder failed")));
                }
                let fin = enc.finish();
                proof {
                    enc.lemma_wf();
                }
                self.encoder = Some(enc);
                match fin {
                    Ok((_packets, dur)) => {
                        self.state = RecordingState::Stopped;
                        self.duration_ms = dur;
                        Ok((self.config.output_path.clone(), dur))
                    },
                    Err(e) => {
                        self.state = RecordingState::Failed;
                        Err(e)
                    },
                }
            },
        }
    }

    /// Ends the session after a fatal delivery error. A recording session
    /// drains what was received and keeps the container only where that
    /// finalizes it with every frame written; the result says whether a
    /// finalized container stands for the session. Any session that is not
    /// terminal ends Failed.
    pub fn abort(&mut self, drained: &Vec<u64>) -> (r: bool)
        requires
            old(self).wf(),
        ensures
            final(self).wf(),
            r == final(self)@.finalized(),
            is_terminal(old(self)@.state) ==> final(self)@ == old(self)@,
            !is_terminal(old(self)@.state) ==> final(self)@.state == RecordingState::Failed,
            old(self)@.state == RecordingState::Recording ==> r == spec_stop_ok(old(self)@, drained@),
            old(self)@.state != RecordingState::Recording && !is_terminal(old(self)@.state) ==> !r,
    {
        if self.state == RecordingState::Stopped || self.state == RecordingState::Failed {
            return match &self.encoder {
                Some(e) => e.is_finished(),
                None => false,
            };
        }
        if self.state != RecordingState::Recording {
            self.state = RecordingState::Failed;
            return false;
        }
        let result = self.stop(drained);
        self.state = RecordingState::Failed;
        result.is_ok()
    }
}

/// A session that was never started refuses to stop with `NotActive`, stays
/// as it was, and has written no container.
pub proof fn lemma_stop_before_start(v: RecorderView, drained: Seq<u64>, w: RecorderView, r: Result<(String, u64), CaptureError>)
    requires
        v.consistent(),
        v.state == RecordingState::Idle || v.state == RecordingState::PreInitializing || v.state
            == RecordingState::Ready,
        spec_stop(v, drained, w, r),
    ensures
        r == Err::<(String, u64), CaptureError>(CaptureError::NotActive),
        w == v,
        !w.finalized(),
{
}

/// Stopping twice: whatever the first stop did, the second refuses with
/// `NotActive` and changes nothing, so the container is never finalized a
/// second time.
pub proof fn lemma_stop_twice(
    v: RecorderView,
    d1: Seq<u64>,
    w1: RecorderView,
    r1: Result<(String, u64), CaptureError>,
    d2: Seq<u64>,
    w2: RecorderView,
    r2: Result<(String, u64), CaptureError>,
)
    requires
        spec_stop(v, d1, w1, r1),
        spec_stop(w1, d2, w2, r2),
    ensures
        r2 == Err::<(String, u64), CaptureError>(CaptureError::NotActive),
        w2 == w1,
{
}

/// Two starts of one Ready session, in either order: the first succeeds,
/// the second refuses with `AlreadyActive`, and exactly one recording
/// session results.
pub proof fn lemma_two_starts(
    v: RecorderView,
    t1: u64,
    w1: RecorderView,
    r1: Result<(), CaptureError>,
    t2: u64,
    w2: RecorderView,
    r2: Result<(), CaptureError>,
)
    requires
        v.state == RecordingState::Ready,
        spec_start(v, t1, w1, r1),
        spec_start(w1, t2, w2, r2),
    ensures
        r1 is Ok,
        r2 == Err::<(), CaptureError>(CaptureError::AlreadyActive),
        w2 == w1,
        w2.state == RecordingState::Recording,
{
}

/// Stopped and Failed sessions are terminal: they refuse to start and to
/// stop and stay as they are.
pub proof fn lemma_terminal_is_final(
    v: RecorderView,
    t: u64,
    w1: RecorderView,
    r1: Result<(), CaptureError>,
    d: Seq<u64>,
    w2: RecorderView,
    r2: Result<(String, u64), CaptureError>,
)
    requires
        is_terminal(v.state),
        spec_start(v, t, w1, r1),
        spec_stop(v, d, w2, r2),
    ensures
        r1 == Err::<(), CaptureError>(CaptureError::AlreadyActive),
        r2 == Err::<(String, u64), CaptureError>(CaptureError::NotActive),
        w1 == v,
        w2 == v,
{
}

/// A session that accepted the frames with sequence numbers 0 to N-1 and
/// stopped successfully wrote a container with exactly N packets, in
/// non-decreasing timestamp order.
pub proof fn lemma_finalized_container(v: RecorderView, drained: Seq<u64>, w: RecorderView, r: Result<(String, u64), CaptureError>, n: nat)
    requires
        v.state == RecordingState::Recording,
        v.stream matches Some(e) && e.frames == n,
        spec_stop(v, drained, w, r),
        r is Ok,
    ensures
        w.finalized(),
        w.stream->0.packets.len() == n,
        non_decreasing(w.stream->0.packets),
{
}

/// A session fed frames at its rate for `secs` whole seconds reports, on a
/// successful stop, exactly `secs` seconds; any frame count reports its
/// duration rounded down to the millisecond, less than one frame interval
/// from the exact one.
pub proof fn lemma_recorded_duration(
    v: RecorderView,
    drained: Seq<u64>,
    w: RecorderView,
    r: Result<(String, u64), CaptureError>,
    secs: nat,
)
    requires
        v.consistent(),
        v.state == RecordingState::Recording,
        spec_stop(v, drained, w, r),
        r is Ok,
    ensures
        r->Ok_0.1 as int * v.stream->0.fps <= v.stream->0.frames * 1000 < (r->Ok_0.1 as int + 1)
            * v.stream->0.fps,
        v.stream->0.frames == v.stream->0.fps * secs ==> r->Ok_0.1 == 1000 * secs,
{
    let e = v.stream->0;
    crate::encoder::lemma_duration_rounding(e.frames as int, e.fps as int);
    if e.frames == e.fps * secs {
        crate::encoder::lemma_duration_whole_seconds(e.fps as int, secs as int);
    }
    let d = spec_duration_ms(e.frames as int, e.fps as int);
    assert(0 <= d <= e.frames * 1000) by (nonlinear_arith)
        requires
            d * e.fps <= e.frames * 1000,
            e.fps > 0,
            d == (e.frames as int) * 1000 / (e.fps as int),
            e.frames >= 0;
    assert(d < u64::MAX);
}

} // verus!
