use vstd::prelude::*;
use crate::error::CaptureError;
use crate::session::{spec_start, spec_stop, Recorder, RecorderView, RecordingState};

verus! {

/// Longest acceptable time from the start trigger to recording, in ms.
pub const HOTKEY_TO_RECORDING_THRESHOLD_MS: u64 = 250;
/// Interval of the idle check, in seconds.
pub const IDLE_POLL_INTERVAL_SECS: u64 = 60;
/// Idle timeout a new coordinator starts with, in minutes.
pub const DEFAULT_IDLE_TIMEOUT_MINS: u32 = 5;
/// Milliseconds per minute.
pub const MS_PER_MINUTE: u64 = 60000;

/// Status of the coordinator's background-prepared session.
#[derive(Debug, Clone, Copy, PartialEq, Eq, Structural)]
pub enum PreInitStatus {
    NotInitialized,
    Initializing,
    Ready,
    ShuttingDown,
}

impl PreInitStatus {
    pub open spec fn spec_name(self) -> Seq<char> {
        match self {
            PreInitStatus::NotInitialized => "not_initialized"@,
            PreInitStatus::Initializing => "initializing"@,
            PreInitStatus::Ready => "ready"@,
            PreInitStatus::ShuttingDown => "shutting_down"@,
        }
    }

    pub open spec fn spec_event_name(self) -> Seq<char> {
        match self {
            PreInitStatus::NotInitialized => "NotInitialized"@,
            PreInitStatus::Initializing => "Initializing"@,
            PreInitStatus::Ready => "Ready"@,
            PreInitStatus::ShuttingDown => "ShuttingDown"@,
        }
    }

    /// The name under which a change to this status is notified.
    pub fn event_name(&self) -> (r: String)
        ensures
            r@ == self.spec_event_name(),
    {
        match self {
            PreInitStatus::NotInitialized => String::from_str("NotInitialized"),
            PreInitStatus::Initializing => String::from_str("Initializing"),
            PreInitStatus::Ready => String::from_str("Ready"),
            PreInitStatus::ShuttingDown => String::from_str("ShuttingDown"),
        }
    }

    /// The name under which the status is reported.
    pub fn name(&self) -> (r: String)
        ensures
            r@ == self.spec_name(),
    {
        match self {
            PreInitStatus::NotInitialized => String::from_str("not_initialized"),
            PreInitStatus::Initializing => String::from_str("initializing"),
            PreInitStatus::Ready => String::from_str("ready"),
            PreInitStatus::ShuttingDown => String::from_str("shutting_down"),
        }
    }
}

/// Performance thresholds reported to collaborators.
#[derive(Debug, Clone, Copy, PartialEq, Eq)]
pub struct PerformanceSettings {
    /// Longest acceptable time from the start trigger to recording.
    pub hotkey_to_recording_threshold_ms: u128,
}

impl PerformanceSettings {
    pub fn current() -> (r: PerformanceSettings)
        ensures
            r.hotkey_to_recording_threshold_ms == HOTKEY_TO_RECORDING_THRESHOLD_MS,
    {
        PerformanceSettings { hotkey_to_recording_threshold_ms: HOTKEY_TO_RECORDING_THRESHOLD_MS as u128 }
    }
}

/// How a start trigger was served.
#[derive(Debug, Clone, Copy, PartialEq, Eq, Structural)]
pub enum StartPath {
    /// A prepared session was started at once.
    Fast,
    /// No session was prepared: one must be built and started on demand.
    Slow,
}

/// Whether a start must be reported as a warning: every slow start, and
/// any start that took longer than the threshold.
pub open spec fn spec_start_warning(path: StartPath, elapsed_ms: u64) -> bool {
    path == StartPath::Slow || elapsed_ms > HOTKEY_TO_RECORDING_THRESHOLD_MS
}

pub fn start_warning(path: StartPath, elapsed_ms: u64) -> (r: bool)
    ensures
        r == spec_start_warning(path, elapsed_ms),
{
    match path {
        StartPath::Slow => true,
        StartPath::Fast => elapsed_ms > HOTKEY_TO_RECORDING_THRESHOLD_MS,
    }
}

/// Milliseconds from `from` to `to`, zero where the clock went backwards.
pub open spec fn spec_elapsed(from: u64, to: u64) -> int {
    if to >= from { to - from } else { 0 }
}

/// Whether an idle check at `now_ms` finds the timeout exceeded; a timeout
/// of zero minutes never expires.
pub open spec fn spec_idle_expired(timeout_mins: u32, last_activity_ms: u64, now_ms: u64) -> bool {
    timeout_mins != 0 && spec_elapsed(last_activity_ms, now_ms) > timeout_mins as int * MS_PER_MINUTE
}

/// Where recordings go by default: `Videos/PushToHold` in the home folder,
/// or under `~` where the home folder is unknown.
pub open spec fn spec_default_output_folder(home: Option<Seq<char>>) -> Seq<char> {
    match home {
        Some(h) => h + "/Videos/PushToHold"@,
        None => "~/Videos/PushToHold"@,
    }
}

pub fn default_output_folder(home: Option<String>) -> (r: String)
    ensures
        r@ == spec_default_output_folder(match home {
            Some(h) => Some(h@),
            None => None,
        }),
{
    match home {
        Some(h) => {
            let mut s = h;
            s.append("/Videos/PushToHold");
            s
        },
        None => String::from_str("~/Videos/PushToHold"),
    }
}

/// The abstract state of the coordinator.
pub struct CoordinatorView {
    pub status: PreInitStatus,
    pub initializing: bool,
    pub prepared: Option<RecorderView>,
    pub active: Option<RecorderView>,
    pub slow_pending: bool,
    pub start_cancelled: bool,
    pub last_activity_ms: u64,
    pub idle_timeout_mins: u32,
    pub window_focused: bool,
    pub clip_count: u32,
    pub settings: CaptureSettings,
}

impl CoordinatorView {
    /// The coordinator's single-session discipline.
    pub open spec fn consistent(self) -> bool {
        &&& self.status == PreInitStatus::Ready <==> self.prepared is Some
        &&& self.status == PreInitStatus::Initializing <==> (self.initializing || self.slow_pending)
        &&& self.status != PreInitStatus::ShuttingDown
        &&& self.initializing ==> self.prepared is None
        &&& self.slow_pending ==> self.prepared is None && self.active is None
        &&& !(self.slow_pending && self.initializing)
        &&& self.prepared matches Some(p) ==> p.state == RecordingState::Ready && p.consistent()
        &&& self.active matches Some(a) ==> a.state == RecordingState::Recording && a.consistent()
        &&& self.start_cancelled ==> !self.slow_pending
    }

    /// Whether a start or a session build is under way or a session records.
    pub open spec fn busy(self) -> bool {
        self.active is Some || self.slow_pending
    }
}

/// What one idle check does: where the timeout expired while a session is
/// prepared, the session is torn down and the status is NotInitialized;
/// otherwise nothing changes.
pub open spec fn spec_poll_idle(v: CoordinatorView, now_ms: u64, w: CoordinatorView, r: bool) -> bool {
    &&& r == (spec_idle_expired(v.idle_timeout_mins, v.last_activity_ms, now_ms) && v.status
        == PreInitStatus::Ready)
    &&& r ==> w == (CoordinatorView {
        status: PreInitStatus::NotInitialized,
        prepared: None,
        initializing: false,
        ..v
    })
    &&& !r ==> w == v
}

/// What a start trigger does. While a recording is under way or being
/// started it refuses with `AlreadyActive`; while a session is being
/// prepared, or with no project, it refuses too; all refusals change
/// nothing. A prepared session is taken and started at once (fast path);
/// with none prepared, a start on demand is claimed (slow path).
pub open spec fn spec_trigger_start(v: CoordinatorView, now_ms: u64, w: CoordinatorView, r: Result<StartPath, CaptureError>) -> bool {
    if v.busy() {
        r == Err::<StartPath, CaptureError>(CaptureError::AlreadyActive) && w == v
    } else if v.initializing {
        r is Err && r->Err_0 is Initialization && w == v
    } else if v.settings.current_project is None {
        r is Err && r->Err_0 is Configuration && w == v
    } else if v.prepared is Some {
        &&& r == Ok::<StartPath, CaptureError>(StartPath::Fast)
        &&& w == (CoordinatorView {
            status: PreInitStatus::NotInitialized,
            prepared: None,
            active: Some(RecorderView {
                state: RecordingState::Recording,
                start_ms: Some(now_ms),
                ..v.prepared->0
            }),
            last_activity_ms: now_ms,
            start_cancelled: false,
            ..v
        })
    } else {
        &&& r == Ok::<StartPath, CaptureError>(StartPath::Slow)
        &&& w == (CoordinatorView {
            status: PreInitStatus::Initializing,
            slow_pending: true,
            start_cancelled: false,
            ..v
        })
    }
}

/// The user's recording settings.
#[derive(Debug, Clone)]
pub struct CaptureSettings {
    /// Folder the project folders live in.
    pub output_folder: String,
    /// Capture the microphone.
    pub mic_enabled: bool,
    /// Microphone device (None = chosen automatically).
    pub selected_audio_device: Option<String>,
    /// Capture region as x, y, width, height (None = full screen).
    pub capture_region: Option<(u32, u32, u32, u32)>,
    /// Project recordings go to.
    pub current_project: Option<String>,
}

/// Keeps one capture session prepared ahead of the start trigger, serves
/// start and stop triggers, tears the prepared session down when idle, and
/// holds the single recording session.
pub struct AppState {
    settings: CaptureSettings,
    clip_count: u32,
    pre_init_status: PreInitStatus,
    initializing: bool,
    prepared: Option<Recorder>,
    active: Option<Recorder>,
    slow_pending: bool,
    start_cancelled: bool,
    last_activity_ms: u64,
    idle_timeout_mins: u32,
    window_focused: bool,
}

impl View for AppState {
    type V = CoordinatorView;

    closed spec fn view(&self) -> CoordinatorView {
        CoordinatorView {
            status: self.pre_init_status,
            initializing: self.initializing,
            prepared: match self.prepared {
                Some(r) => Some(r@),
                None => None,
            },
            active: match self.active {
                Some(r) => Some(r@),
                None => None,
            },
            slow_pending: self.slow_pending,
            start_cancelled: self.start_cancelled,
            last_activity_ms: self.last_activity_ms,
            idle_timeout_mins: self.idle_timeout_mins,
            window_focused: self.window_focused,
            clip_count: self.clip_count,
            settings: self.settings,
        }
    }
}

impl AppState {
    /// The coordinator's invariant: a prepared session is Ready, the active
    /// session is the only one that may record, and the view is consistent.
    pub closed spec fn wf(&self) -> bool {
        &&& self.prepared matches Some(r) ==> r.wf()
        &&& self.active matches Some(r) ==> r.wf()
        &&& self@.consistent()
    }

    /// A coordinator with nothing prepared, writing under `output_folder`.
    pub fn new(output_folder: String, now_ms: u64) -> (r: AppState)
        ensures
            r.wf(),
            r@.settings.output_folder@ == output_folder@,
            r@.settings.mic_enabled,
            r@.settings.selected_audio_device is None,
            r@.settings.capture_region is None,
            r@.settings.current_project is None,
            r@ == (CoordinatorView {
                status: PreInitStatus::NotInitialized,
                initializing: false,
                prepared: None,
                active: None,
                slow_pending: false,
                start_cancelled: false,
                last_activity_ms: now_ms,
                idle_timeout_mins: DEFAULT_IDLE_TIMEOUT_MINS,
                window_focused: true,
                clip_count: 0,
                settings: r@.settings,
            }),
    {
        AppState {
            settings: CaptureSettings {
                output_folder,
                mic_enabled: true,
                selected_audio_device: None,
                capture_region: None,
                current_project: None,
            },
            clip_count: 0,
            pre_init_status: PreInitStatus::NotInitialized,
            initializing: false,
            prepared: None,
            active: None,
            slow_pending: false,
            start_cancelled: false,
            last_activity_ms: now_ms,
            idle_timeout_mins: DEFAULT_IDLE_TIMEOUT_MINS,
            window_focused: true,
        }
    }

    /// The recording settings.
    pub fn settings(&self) -> (r: &CaptureSettings)
        ensures
            *r == self@.settings,
    {
        &self.settings
    }

    /// Replaces the recording settings; the prepared session, if any, keeps
    /// the settings it was built with until it is prepared again.
    pub fn set_settings(&mut self, settings: CaptureSettings)
        requires
            old(self).wf(),
        ensures
            final(self).wf(),
            final(self)@ == (CoordinatorView { settings, ..old(self)@ }),
    {
        self.settings = settings;
    }

    pub fn pre_init_status(&self) -> (r: PreInitStatus)
        ensures
            r == self@.status,
    {
        self.pre_init_status
    }

    pub fn idle_timeout_mins(&self) -> (r: u32)
        ensures
            r == self@.idle_timeout_mins,
    {
        self.idle_timeout_mins
    }

    pub fn clip_count(&self) -> (r: u32)
        ensures
            r == self@.clip_count,
    {
        self.clip_count
    }

    /// Whether a recording is under way or being started.
    pub fn is_recording(&self) -> (r: bool)
        ensures
            r == self@.busy(),
    {
        self.active.is_some() || self.slow_pending
    }

    /// Whether a slow-path start waits for its session.
    pub fn is_start_pending(&self) -> (r: bool)
        ensures
            r == self@.slow_pending,
    {
        self.slow_pending
    }

    /// Sets the idle timeout; zero disables idle teardown.
    pub fn set_idle_timeout_mins(&mut self, timeout_mins: u32)
        requires
            old(self).wf(),
        ensures
            final(self).wf(),
            final(self)@ == (CoordinatorView { idle_timeout_mins: timeout_mins, ..old(self)@ }),
    {
        self.idle_timeout_mins = timeout_mins;
    }

    /// Records user activity at `now_ms`.
    pub fn update_activity(&mut self, now_ms: u64)
        requires
            old(self).wf(),
        ensures
            final(self).wf(),
            final(self)@ == (CoordinatorView { last_activity_ms: now_ms, ..old(self)@ }),
    {
        self.last_activity_ms = now_ms;
    }

    /// Claims the in-flight flag for a background preparation. Refused
    /// (false, nothing changed) while one is in flight or a session is being
    /// built on demand; otherwise the status becomes Initializing and the
    /// caller builds a session and reports it to `pre_initialize_done`.
    pub fn begin_pre_initialize(&mut self, now_ms: u64) -> (r: bool)
        requires
            old(self).wf(),
        ensures
            final(self).wf(),
            r == (!old(self)@.initializing && !old(self)@.slow_pending),
            r ==> final(self)@ == (CoordinatorView {
                initializing: true,
                status: PreInitStatus::Initializing,
                prepared: None,
                last_activity_ms: now_ms,
                ..old(self)@
            }),
            !r ==> final(self)@ == old(self)@,
    {
        if self.initializing || self.slow_pending {
            return false;
        }
        self.initializing = true;
        self.prepared = None;
        self.pre_init_status = PreInitStatus::Initializing;
        self.last_activity_ms = now_ms;
        true
    }

    /// Takes the outcome of a background preparation. A Ready session is
    /// stored and the status becomes Ready; anything else leaves the status
    /// NotInitialized and hands the error back. The in-flight flag is
    /// released either way. An outcome that nobody asked for (no
    /// preparation in flight) is dropped.
    pub fn pre_initialize_done(&mut self, outcome: Result<Recorder, CaptureError>) -> (r: Result<(), CaptureError>)
        requires
            old(self).wf(),
            outcome matches Ok(rec) ==> rec.wf(),
        ensures
            final(self).wf(),
            !final(self)@.initializing,
            !old(self)@.initializing ==> r is Err && final(self)@ == old(self)@,
            old(self)@.initializing ==> (r is Ok <==> (outcome matches Ok(rec) && rec@.state
                == RecordingState::Ready)),
            old(self)@.initializing && r is Ok ==> final(self)@ == (CoordinatorView {
                initializing: false,
                prepared: Some(outcome->Ok_0@),
                status: PreInitStatus::Ready,
                ..old(self)@
            }),
            old(self)@.initializing && r is Err ==> final(self)@ == (CoordinatorView {
                initializing: false,
                prepared: None,
                status: PreInitStatus::NotInitialized,
                ..old(self)@
            }),
            outcome is Err && old(self)@.initializing ==> r == Err::<(), CaptureError>(outcome->Err_0),
    {
        if !self.initializing {
            return Err(CaptureError::Initialization(String::from_str("no preparation in flight")));
        }
        self.initializing = false;
        match outcome {
            Ok(rec) => {
                proof {
                    rec.lemma_wf();
                }
                if rec.state() == RecordingState::Ready {
                    self.prepared = Some(rec);
                    self.pre_init_status = PreInitStatus::Ready;
                    Ok(())
                } else {
                    self.prepared = None;
                    self.pre_init_status = PreInitStatus::NotInitialized;
                    Err(CaptureError::Initialization(String::from_str("prepared session is not ready")))
                }
            },
            Err(e) => {
                self.prepared = None;
                self.pre_init_status = PreInitStatus::NotInitialized;
                Err(e)
            },
        }
    }

    /// Serves a start trigger: see `spec_trigger_start`. On the slow path
    /// the caller builds a session and reports it to `slow_start_done`.
    pub fn trigger_start(&mut self, now_ms: u64) -> (r: Result<StartPath, CaptureError>)
        requires
            old(self).wf(),
        ensures
            final(self).wf(),
            spec_trigger_start(old(self)@, now_ms, final(self)@, r),
    {
        if self.active.is_some() || self.slow_pending {
            return Err(CaptureError::AlreadyActive);
        }
        if self.initializing {
            return Err(CaptureError::Initialization(String::from_str("a session is still being prepared")));
        }
        if self.settings.current_project.is_none() {
            return Err(CaptureError::Configuration(String::from_str("no project selected")));
        }
        match self.prepared.take() {
            Some(mut rec) => {
                proof {
                    rec.lemma_wf();
                }
                let started = rec.start(now_ms);
                proof {
                    assert(started is Ok);
                }
                self.active = Some(rec);
                self.pre_init_status = PreInitStatus::NotInitialized;
                self.last_activity_ms = now_ms;
                self.start_cancelled = false;
                Ok(StartPath::Fast)
            },
            None => {
                self.slow_pending = true;
                self.pre_init_status = PreInitStatus::Initializing;
                self.start_cancelled = false;
                Ok(StartPath::Slow)
            },
        }
    }

    /// Takes the session built on demand for a slow-path start and starts
    /// it at `now_ms`. Where the start was cancelled meanwhile, the session
    /// is dropped unstarted and the result is `NotActive`. An outcome that
    /// no start waits for is refused and changes nothing.
    pub fn slow_start_done(&mut self, outcome: Result<Recorder, CaptureError>, now_ms: u64) -> (r: Result<(), CaptureError>)
        requires
            old(self).wf(),
            outcome matches Ok(rec) ==> rec.wf(),
        ensures
            final(self).wf(),
            !final(self)@.slow_pending,
            !old(self)@.slow_pending && old(self)@.start_cancelled ==> r == Err::<(), CaptureError>(
                CaptureError::NotActive) && final(self)@ == (CoordinatorView {
                start_cancelled: false,
                ..old(self)@
            }),
            !old(self)@.slow_pending && !old(self)@.start_cancelled ==> r is Err && final(self)@ == old(self)@,
            old(self)@.slow_pending ==> (r is Ok <==> (outcome matches Ok(rec) && rec@.state
                == RecordingState::Ready)),
            old(self)@.slow_pending && r is Ok ==> final(self)@ == (CoordinatorView {
                slow_pending: false,
                status: PreInitStatus::NotInitialized,
                active: Some(RecorderView {
                    state: RecordingState::Recording,
                    start_ms: Some(now_ms),
                    ..outcome->Ok_0@
                }),
                last_activity_ms: now_ms,
                ..old(self)@
            }),
            old(self)@.slow_pending && r is Err ==> final(self)@ == (CoordinatorView {
                slow_pending: false,
                status: PreInitStatus::NotInitialized,
                ..old(self)@
            }),
    {
        if !self.slow_pending {
            if self.start_cancelled {
                self.start_cancelled = false;
                return Err(CaptureError::NotActive);
            }
            return Err(CaptureError::Initialization(String::from_str("no start is waiting for a session")));
        }
        self.slow_pending = false;
        self.pre_init_status = PreInitStatus::NotInitialized;
        match outcome {
            Ok(mut rec) => {
                proof {
                    rec.lemma_wf();
                }
                if rec.state() != RecordingState::Ready {
                    return Err(CaptureError::Initialization(String::from_str("session built on demand is not ready")));
                }
                let started = rec.start(now_ms);
                proof {
                    assert(started is Ok);
                }
                self.active = Some(rec);
                self.last_activity_ms = now_ms;
                Ok(())
            },
            Err(e) => Err(e),
        }
    }

    /// Hands a captured frame to the recording session. Without one the
    /// result is `NotActive`; a refused frame ends the session (it is
    /// dropped and the error is handed back).
    pub fn deliver_frame(&mut self, seq: u64, width: u32, height: u32) -> (r: Result<u64, CaptureError>)
        requires
            old(self).wf(),
        ensures
            final(self).wf(),
            old(self)@.active is None ==> r == Err::<u64, CaptureError>(CaptureError::NotActive)
                && final(self)@ == old(self)@,
            old(self)@.active is Some ==> (r is Ok <==> Recorder::spec_frame_ok(old(self)@.active->0, seq, width, height)),
            r is Ok ==> r == Ok::<u64, CaptureError>(seq),
            r is Ok ==> final(self)@ == (CoordinatorView { active: final(self)@.active, ..old(self)@ })
                && final(self)@.active is Some && final(self)@.active->0.stream is Some
                && final(self)@.active->0.stream->0.frames == seq + 1,
            old(self)@.active is Some && r is Err ==> final(self)@ == (CoordinatorView { active: None, ..old(self)@ }),
    {
        match self.active.take() {
            None => Err(CaptureError::NotActive),
            Some(mut rec) => {
                let res = rec.accept_frame(seq, width, height);
                proof {
                    rec.lemma_wf();
                }
                if res.is_ok() {
                    self.active = Some(rec);
                }
                res
            },
        }
    }

    /// Writes a packet of the recording session's stream. Without a
    /// recording session the result is `NotActive`; a refused packet ends
    /// the session (it is dropped and the error is handed back).
    pub fn deliver_packet(&mut self, codec_pts: u64) -> (r: Result<u64, CaptureError>)
        requires
            old(self).wf(),
        ensures
            final(self).wf(),
            old(self)@.active is None ==> r == Err::<u64, CaptureError>(CaptureError::NotActive)
                && final(self)@ == old(self)@,
            old(self)@.active is Some ==> (r is Ok <==> (old(self)@.active->0.stream is Some
                && crate::encoder::spec_drain_ok(old(self)@.active->0.stream->0, seq![codec_pts]))),
            r is Ok ==> final(self)@ == (CoordinatorView { active: final(self)@.active, ..old(self)@ })
                && final(self)@.active is Some,
            old(self)@.active is Some && r is Err ==> final(self)@ == (CoordinatorView { active: None, ..old(self)@ }),
    {
        match self.active.take() {
            None => Err(CaptureError::NotActive),
            Some(mut rec) => {
                let res = rec.write_packet(codec_pts);
                proof {
                    rec.lemma_wf();
                }
                if res.is_ok() {
                    self.active = Some(rec);
                }
                res
            },
        }
    }

    /// Serves a stop trigger. A start still waiting for its session is
    /// cancelled (`NotActive`; the session is dropped when it arrives).
    /// Without a recording session the result is `NotActive` and nothing
    /// changes. Otherwise the session is stopped (see `spec_stop`) and
    /// released; on success the clip count grows and, where a project is set
    /// and nothing is prepared or being prepared, a new preparation is
    /// claimed: the second result says so.
    pub fn trigger_stop(&mut self, drained: &Vec<u64>, now_ms: u64) -> (r: (Result<(String, u64), CaptureError>, bool))
        requires
            old(self).wf(),
        ensures
            final(self).wf(),
            final(self)@.active is None,
            !final(self)@.slow_pending,
            old(self)@.slow_pending ==> r.0 == Err::<(String, u64), CaptureError>(CaptureError::NotActive)
                && !r.1 && final(self)@ == (CoordinatorView {
                slow_pending: false,
                start_cancelled: true,
                status: PreInitStatus::NotInitialized,
                ..old(self)@
            }),
            !old(self)@.slow_pending && old(self)@.active is None ==> r.0 == Err::<(String, u64), CaptureError>(
                CaptureError::NotActive) && !r.1 && final(self)@ == old(self)@,
            old(self)@.active is Some ==> exists|w: RecorderView| spec_stop(old(self)@.active->0, drained@, w, r.0),
            old(self)@.active is Some && r.0 is Err ==> !r.1 && final(self)@ == (CoordinatorView {
                active: None,
                ..old(self)@
            }),
            old(self)@.active is Some && r.0 is Ok ==> {
                let reinit = old(self)@.settings.current_project is Some && !old(self)@.initializing
                    && old(self)@.prepared is None;
                &&& r.1 == reinit
                &&& final(self)@.active is None
                &&& final(self)@.clip_count == if old(self)@.clip_count < u32::MAX {
                    (old(self)@.clip_count + 1) as u32
                } else {
                    old(self)@.clip_count
                }
                &&& final(self)@.last_activity_ms == now_ms
                &&& reinit ==> final(self)@.initializing && final(self)@.status == PreInitStatus::Initializing
                &&& !reinit ==> final(self)@.initializing == old(self)@.initializing && final(self)@.status
                    == old(self)@.status
                &&& final(self)@.prepared == old(self)@.prepared
                &&& final(self)@.settings == old(self)@.settings
            },
    {
        if self.slow_pending {
            self.slow_pending = false;
            self.start_cancelled = true;
            self.pre_init_status = PreInitStatus::NotInitialized;
            return (Err(CaptureError::NotActive), false);
        }
        match self.active.take() {
            None => (Err(CaptureError::NotActive), false),
            Some(mut rec) => {
                let res = rec.stop(drained);
                if res.is_err() {
                    return (res, false);
                }
                if self.clip_count < u32::MAX {
                    self.clip_count = self.clip_count + 1;
                }
                self.last_activity_ms = now_ms;
                let reinit = self.settings.current_project.is_some() && !self.initializing
                    && self.prepared.is_none();
                if reinit {
                    self.initializing = true;
                    self.pre_init_status = PreInitStatus::Initializing;
                }
                (res, reinit)
            },
        }
    }

    /// The periodic idle check at `now_ms`: see `spec_poll_idle`.
    pub fn poll_idle(&mut self, now_ms: u64) -> (r: bool)
        requires
            old(self).wf(),
        ensures
            final(self).wf(),
            spec_poll_idle(old(self)@, now_ms, final(self)@, r),
    {
        if self.idle_timeout_mins == 0 || self.pre_init_status != PreInitStatus::Ready {
            return false;
        }
        let idle: u64 = if now_ms >= self.last_activity_ms {
            now_ms - self.last_activity_ms
        } else {
            0
        };
        let limit: u64 = self.idle_timeout_mins as u64 * MS_PER_MINUTE;
        if idle > limit {
            self.shutdown_idle_capturer();
            true
        } else {
            false
        }
    }

    /// Tears the prepared session down and releases the in-flight flag;
    /// the next start pays the slow path.
    pub fn shutdown_idle_capturer(&mut self)
        requires
            old(self).wf(),
            !old(self)@.slow_pending,
        ensures
            final(self).wf(),
            final(self)@ == (CoordinatorView {
                status: PreInitStatus::NotInitialized,
                prepared: None,
                initializing: false,
                ..old(self)@
            }),
    {
        self.pre_init_status = PreInitStatus::ShuttingDown;
        self.prepared = None;
        self.pre_init_status = PreInitStatus::NotInitialized;
        self.initializing = false;
    }

    /// Manual toggle of the prepared session at `now_ms`: prepares one where
    /// none is (this needs a project), tears a prepared one down, and leaves
    /// a preparation under way alone. The result is the new status.
    pub fn toggle_pre_init(&mut self, now_ms: u64) -> (r: Result<PreInitStatus, CaptureError>)
        requires
            old(self).wf(),
        ensures
            final(self).wf(),
            r matches Ok(st) ==> st == final(self)@.status,
            final(self)@.last_activity_ms == now_ms,
            old(self)@.status == PreInitStatus::NotInitialized && old(self)@.settings.current_project is None
                ==> r is Err && r->Err_0 is Configuration && final(self)@ == (CoordinatorView {
                last_activity_ms: now_ms,
                ..old(self)@
            }),
            old(self)@.status == PreInitStatus::NotInitialized && old(self)@.settings.current_project is Some
                ==> r == Ok::<PreInitStatus, CaptureError>(PreInitStatus::Initializing) && final(self)@ == (CoordinatorView {
                initializing: true,
                status: PreInitStatus::Initializing,
                last_activity_ms: now_ms,
                ..old(self)@
            }),
            old(self)@.status == PreInitStatus::Initializing ==> r == Ok::<PreInitStatus, CaptureError>(
                PreInitStatus::Initializing) && final(self)@ == (CoordinatorView { last_activity_ms: now_ms, ..old(self)@ }),
            old(self)@.status == PreInitStatus::Ready ==> r == Ok::<PreInitStatus, CaptureError>(
                PreInitStatus::NotInitialized) && final(self)@ == (CoordinatorView {
                status: PreInitStatus::NotInitialized,
                prepared: None,
                initializing: false,
                last_activity_ms: now_ms,
                ..old(self)@
            }),
    {
        self.last_activity_ms = now_ms;
        match self.pre_init_status {
            PreInitStatus::NotInitialized => {
                if self.settings.current_project.is_none() {
                    return Err(CaptureError::Configuration(String::from_str("no current project set")));
                }
                self.begin_pre_initialize(now_ms);
                Ok(PreInitStatus::Initializing)
            },
            PreInitStatus::Initializing => Ok(PreInitStatus::Initializing),
            PreInitStatus::Ready => {
                self.shutdown_idle_capturer();
                Ok(PreInitStatus::NotInitialized)
            },
            PreInitStatus::ShuttingDown => Ok(PreInitStatus::ShuttingDown),
        }
    }

    /// The window gained input focus at `now_ms`. Coming back from
    /// unfocused with a project set and nothing prepared or being prepared,
    /// a new preparation is claimed (result true). Focus that was already
    /// there changes nothing.
    pub fn focus_gained(&mut self, now_ms: u64) -> (r: bool)
        requires
            old(self).wf(),
        ensures
            final(self).wf(),
            old(self)@.window_focused ==> !r && final(self)@ == old(self)@,
            !old(self)@.window_focused ==> {
                let restart = old(self)@.settings.current_project is Some && old(self)@.status
                    == PreInitStatus::NotInitialized;
                &&& r == restart
                &&& restart ==> final(self)@ == (CoordinatorView {
                    window_focused: true,
                    initializing: true,
                    status: PreInitStatus::Initializing,
                    last_activity_ms: now_ms,
                    ..old(self)@
                })
                &&& !restart ==> final(self)@ == (CoordinatorView {
                    window_focused: true,
                    last_activity_ms: now_ms,
                    ..old(self)@
                })
            },
    {
        if self.window_focused {
            return false;
        }
        self.window_focused = true;
        self.last_activity_ms = now_ms;
        if self.settings.current_project.is_some() && (self.pre_init_status == PreInitStatus::NotInitialized
            || self.pre_init_status == PreInitStatus::ShuttingDown) {
            self.begin_pre_initialize(now_ms)
        } else {
            false
        }
    }

    /// The window lost input focus: this alone tears nothing down.
    pub fn focus_lost(&mut self)
        requires
            old(self).wf(),
        ensures
            final(self).wf(),
            final(self)@ == (CoordinatorView { window_focused: false, ..old(self)@ }),
    {
        self.window_focused = false;
    }
}

/// Idle teardown: with a one-minute timeout and no activity for more than a
/// minute, the next check tears the prepared session down and the status
/// becomes NotInitialized.
pub proof fn lemma_idle_teardown(v: CoordinatorView, now_ms: u64, w: CoordinatorView, r: bool)
    requires
        v.consistent(),
        v.status == PreInitStatus::Ready,
        v.idle_timeout_mins == 1,
        now_ms > v.last_activity_ms + MS_PER_MINUTE,
        spec_poll_idle(v, now_ms, w, r),
    ensures
        r,
        w.status == PreInitStatus::NotInitialized,
        w.prepared is None,
        w.consistent(),
{
}

/// A timeout of zero disables idle teardown: no check, at any time, changes
/// anything.
pub proof fn lemma_idle_disabled(v: CoordinatorView, now_ms: u64, w: CoordinatorView, r: bool)
    requires
        v.idle_timeout_mins == 0,
        spec_poll_idle(v, now_ms, w, r),
    ensures
        !r,
        w == v,
{
}

/// With a prepared session, a start trigger takes the fast path: the
/// prepared session records at once, without any session being built, and
/// no warning is due unless the start was slower than the threshold. The
/// slow path always warns.
pub proof fn lemma_fast_path(v: CoordinatorView, now_ms: u64, w: CoordinatorView, r: Result<StartPath, CaptureError>, elapsed_ms: u64)
    requires
        v.consistent(),
        v.prepared is Some,
        v.active is None,
        v.settings.current_project is Some,
        spec_trigger_start(v, now_ms, w, r),
    ensures
        r == Ok::<StartPath, CaptureError>(StartPath::Fast),
        w.active is Some,
        w.active->0.state == RecordingState::Recording,
        !w.slow_pending,
        spec_start_warning(StartPath::Fast, elapsed_ms) == (elapsed_ms > HOTKEY_TO_RECORDING_THRESHOLD_MS),
        spec_start_warning(StartPath::Slow, elapsed_ms),
{
}

/// Two start triggers on a coordinator with a prepared session: the first
/// starts it, the second refuses with `AlreadyActive` and changes nothing,
/// so exactly one session records.
pub proof fn lemma_two_start_triggers(
    v: CoordinatorView,
    t1: u64,
    w1: CoordinatorView,
    r1: Result<StartPath, CaptureError>,
    t2: u64,
    w2: CoordinatorView,
    r2: Result<StartPath, CaptureError>,
)
    requires
        v.consistent(),
        v.prepared is Some,
        v.active is None,
        v.settings.current_project is Some,
        spec_trigger_start(v, t1, w1, r1),
        spec_trigger_start(w1, t2, w2, r2),
    ensures
        r1 is Ok,
        r2 == Err::<StartPath, CaptureError>(CaptureError::AlreadyActive),
        w2 == w1,
        w2.active is Some,
        w2.prepared is None,
{
}

} // verus!
