use screen_capture::config::RecordingConfig;
use screen_capture::error::CaptureError;
use screen_capture::lifecycle::{start_warning, AppState, PerformanceSettings, PreInitStatus, StartPath};
use screen_capture::session::{Recorder, RecordingState};

fn ready_session() -> Recorder {
    let mut rec = Recorder::new(RecordingConfig::default()).unwrap();
    rec.pre_initialize().unwrap();
    rec.complete_setup(Ok(())).unwrap();
    rec
}

fn with_project(now: u64) -> AppState {
    let mut app = AppState::new(String::from("/videos"), now);
    let mut settings = app.settings().clone();
    settings.current_project = Some(String::from("Default"));
    app.set_settings(settings);
    app
}

fn prepared(now: u64) -> AppState {
    let mut app = with_project(now);
    assert!(app.begin_pre_initialize(now));
    assert_eq!(app.pre_init_status(), PreInitStatus::Initializing);
    app.pre_initialize_done(Ok(ready_session())).unwrap();
    assert_eq!(app.pre_init_status(), PreInitStatus::Ready);
    app
}

#[test]
fn new_state_defaults() {
    let app = AppState::new(String::from("/videos"), 7);
    assert_eq!(app.pre_init_status(), PreInitStatus::NotInitialized);
    assert_eq!(app.idle_timeout_mins(), 5);
    assert!(app.settings().mic_enabled);
    assert!(!app.is_recording());
    assert_eq!(PerformanceSettings::current().hotkey_to_recording_threshold_ms, 250);
}

#[test]
fn status_names() {
    assert_eq!(PreInitStatus::NotInitialized.name(), "not_initialized");
    assert_eq!(PreInitStatus::Initializing.name(), "initializing");
    assert_eq!(PreInitStatus::Ready.name(), "ready");
    assert_eq!(PreInitStatus::ShuttingDown.name(), "shutting_down");
}

#[test]
fn preparation_is_not_reentrant() {
    let mut app = with_project(0);
    assert!(app.begin_pre_initialize(0));
    assert!(!app.begin_pre_initialize(1));
}

#[test]
fn failed_preparation_releases_the_flag() {
    let mut app = with_project(0);
    assert!(app.begin_pre_initialize(0));
    let err = CaptureError::Initialization(String::from("denied"));
    assert_eq!(app.pre_initialize_done(Err(err.clone())), Err(err));
    assert_eq!(app.pre_init_status(), PreInitStatus::NotInitialized);
    assert!(app.begin_pre_initialize(1));
}

#[test]
fn fast_path_start() {
    let mut app = prepared(0);
    assert_eq!(app.trigger_start(10), Ok(StartPath::Fast));
    assert!(app.is_recording());
    assert_eq!(app.pre_init_status(), PreInitStatus::NotInitialized);
    assert!(!start_warning(StartPath::Fast, 120));
    assert!(start_warning(StartPath::Fast, 251));
    assert!(start_warning(StartPath::Slow, 0));
}

#[test]
fn two_start_triggers() {
    let mut app = prepared(0);
    assert!(app.trigger_start(10).is_ok());
    assert_eq!(app.trigger_start(11), Err(CaptureError::AlreadyActive));
    assert!(app.is_recording());
}

#[test]
fn slow_path_start() {
    let mut app = with_project(0);
    assert_eq!(app.trigger_start(5), Ok(StartPath::Slow));
    assert_eq!(app.pre_init_status(), PreInitStatus::Initializing);
    assert_eq!(app.trigger_start(6), Err(CaptureError::AlreadyActive));
    assert!(app.slow_start_done(Ok(ready_session()), 2500).is_ok());
    assert!(app.is_recording());
    assert_eq!(app.pre_init_status(), PreInitStatus::NotInitialized);
}

#[test]
fn start_without_project_is_refused() {
    let mut app = AppState::new(String::from("/videos"), 0);
    assert!(matches!(app.trigger_start(1), Err(CaptureError::Configuration(_))));
    assert!(!app.is_recording());
}

#[test]
fn stop_before_start_is_cancelled() {
    let mut app = with_project(0);
    assert_eq!(app.trigger_start(5), Ok(StartPath::Slow));
    let (r, reinit) = app.trigger_stop(&vec![], 10);
    assert_eq!(r, Err(CaptureError::NotActive));
    assert!(!reinit);
    assert!(!app.is_recording());
    assert_eq!(app.slow_start_done(Ok(ready_session()), 20), Err(CaptureError::NotActive));
    assert!(!app.is_recording());
}

#[test]
fn full_recording_cycle() {
    let mut app = prepared(0);
    app.trigger_start(10).unwrap();
    for seq in 0..90u64 {
        assert_eq!(app.deliver_frame(seq, 1920, 1080), Ok(seq));
        app.deliver_packet(seq).unwrap();
    }
    let (r, reinit) = app.trigger_stop(&vec![], 3100);
    assert_eq!(r, Ok((String::from("recording.mp4"), 3000)));
    assert!(reinit);
    assert_eq!(app.clip_count(), 1);
    assert_eq!(app.pre_init_status(), PreInitStatus::Initializing);
    let (r, _) = app.trigger_stop(&vec![], 3200);
    assert_eq!(r, Err(CaptureError::NotActive));
}

#[test]
fn refused_frame_ends_the_recording() {
    let mut app = prepared(0);
    app.trigger_start(10).unwrap();
    assert!(app.deliver_frame(3, 1920, 1080).is_err());
    assert!(!app.is_recording());
    assert_eq!(app.deliver_frame(0, 1920, 1080), Err(CaptureError::NotActive));
}

#[test]
fn idle_teardown_after_timeout() {
    let mut app = prepared(0);
    app.set_idle_timeout_mins(1);
    assert!(!app.poll_idle(60_000));
    assert_eq!(app.pre_init_status(), PreInitStatus::Ready);
    assert!(app.poll_idle(120_000));
    assert_eq!(app.pre_init_status(), PreInitStatus::NotInitialized);
    assert_eq!(app.trigger_start(130_000), Ok(StartPath::Slow));
}

#[test]
fn zero_timeout_never_tears_down() {
    let mut app = prepared(0);
    app.set_idle_timeout_mins(0);
    assert!(!app.poll_idle(u64::MAX));
    assert_eq!(app.pre_init_status(), PreInitStatus::Ready);
}

#[test]
fn activity_postpones_teardown() {
    let mut app = prepared(0);
    app.set_idle_timeout_mins(1);
    app.update_activity(100_000);
    assert!(!app.poll_idle(120_000));
    assert_eq!(app.pre_init_status(), PreInitStatus::Ready);
}

#[test]
fn focus_regained_restarts_preparation() {
    let mut app = with_project(0);
    app.focus_lost();
    assert_eq!(app.pre_init_status(), PreInitStatus::NotInitialized);
    assert!(app.focus_gained(10));
    assert_eq!(app.pre_init_status(), PreInitStatus::Initializing);
    assert!(!app.focus_gained(20));
}

#[test]
fn focus_regained_with_ready_session_does_nothing() {
    let mut app = prepared(0);
    app.focus_lost();
    assert!(!app.focus_gained(10));
    assert_eq!(app.pre_init_status(), PreInitStatus::Ready);
}

#[test]
fn toggle_prepares_and_tears_down() {
    let mut app = AppState::new(String::from("/videos"), 0);
    assert!(matches!(app.toggle_pre_init(1), Err(CaptureError::Configuration(_))));
    let mut app = with_project(0);
    assert_eq!(app.toggle_pre_init(1), Ok(PreInitStatus::Initializing));
    assert_eq!(app.toggle_pre_init(2), Ok(PreInitStatus::Initializing));
    app.pre_initialize_done(Ok(ready_session())).unwrap();
    assert_eq!(app.toggle_pre_init(3), Ok(PreInitStatus::NotInitialized));
}

#[test]
fn unready_session_is_not_stored() {
    let mut app = with_project(0);
    assert!(app.begin_pre_initialize(0));
    let rec = Recorder::new(RecordingConfig::default()).unwrap();
    assert_eq!(rec.state(), RecordingState::Idle);
    assert!(matches!(app.pre_initialize_done(Ok(rec)), Err(CaptureError::Initialization(_))));
    assert_eq!(app.pre_init_status(), PreInitStatus::NotInitialized);
}

#[test]
fn status_event_names() {
    assert_eq!(PreInitStatus::NotInitialized.event_name(), "NotInitialized");
    assert_eq!(PreInitStatus::Initializing.event_name(), "Initializing");
    assert_eq!(PreInitStatus::Ready.event_name(), "Ready");
    assert_eq!(PreInitStatus::ShuttingDown.event_name(), "ShuttingDown");
}
