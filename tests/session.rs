use screen_capture::config::RecordingConfig;
use screen_capture::error::CaptureError;
use screen_capture::session::{Recorder, RecordingState};

fn ready_session() -> Recorder {
    let mut rec = Recorder::new(RecordingConfig::default()).unwrap();
    rec.pre_initialize().unwrap();
    rec.complete_setup(Ok(())).unwrap();
    assert_eq!(rec.state(), RecordingState::Ready);
    rec
}

#[test]
fn stop_without_start_is_not_active() {
    let mut rec = Recorder::new(RecordingConfig::default()).unwrap();
    assert_eq!(rec.stop(&vec![]), Err(CaptureError::NotActive));
    assert_eq!(rec.state(), RecordingState::Idle);
    let mut rec = ready_session();
    assert_eq!(rec.stop(&vec![]), Err(CaptureError::NotActive));
    assert_eq!(rec.state(), RecordingState::Ready);
}

#[test]
fn second_stop_is_not_active() {
    let mut rec = ready_session();
    rec.start(0).unwrap();
    rec.accept_frame(0, 1920, 1080).unwrap();
    rec.write_packet(0).unwrap();
    assert_eq!(rec.stop(&vec![]), Ok((String::from("recording.mp4"), 33)));
    assert_eq!(rec.state(), RecordingState::Stopped);
    assert_eq!(rec.stop(&vec![]), Err(CaptureError::NotActive));
    assert_eq!(rec.state(), RecordingState::Stopped);
    assert_eq!(rec.duration(), 33);
}

#[test]
fn two_seconds_at_thirty_fps() {
    let mut rec = ready_session();
    rec.start(1000).unwrap();
    for seq in 0..60u64 {
        rec.accept_frame(seq, 1920, 1080).unwrap();
        rec.write_packet(seq).unwrap();
    }
    let (_, d) = rec.stop(&vec![]).unwrap();
    assert!((d as i64 - 2000).abs() <= 33);
    assert_eq!(d, 2000);
}

#[test]
fn scenario_ninety_frames() {
    let mut rec = ready_session();
    rec.start(0).unwrap();
    for seq in 0..90u64 {
        assert_eq!(rec.accept_frame(seq, 1920, 1080), Ok(seq));
    }
    let drained: Vec<u64> = (0..90).collect();
    let (path, d) = rec.stop(&drained).unwrap();
    assert_eq!(path, "recording.mp4");
    assert_eq!(d, 3000);
    assert_eq!(rec.state(), RecordingState::Stopped);
}

#[test]
fn two_starts_one_wins() {
    let mut rec = ready_session();
    assert!(rec.start(5).is_ok());
    assert_eq!(rec.start(6), Err(CaptureError::AlreadyActive));
    assert_eq!(rec.state(), RecordingState::Recording);
}

#[test]
fn start_requires_ready() {
    let mut rec = Recorder::new(RecordingConfig::default()).unwrap();
    assert_eq!(rec.start(0), Err(CaptureError::AlreadyActive));
    assert_eq!(rec.state(), RecordingState::Idle);
}

#[test]
fn stop_without_frames_fails() {
    let mut rec = ready_session();
    rec.start(0).unwrap();
    assert_eq!(rec.stop(&vec![]), Err(CaptureError::NoFrames));
    assert_eq!(rec.state(), RecordingState::Failed);
}

#[test]
fn setup_failure_fails_the_session() {
    let mut rec = Recorder::new(RecordingConfig::default()).unwrap();
    rec.pre_initialize().unwrap();
    assert_eq!(rec.pre_initialize(), Err(CaptureError::AlreadyActive));
    let r = rec.complete_setup(Err(String::from("permission denied")));
    assert_eq!(r, Err(CaptureError::Initialization(String::from("permission denied"))));
    assert_eq!(rec.state(), RecordingState::Failed);
    assert_eq!(rec.start(0), Err(CaptureError::AlreadyActive));
}

#[test]
fn frame_before_start_is_not_active() {
    let mut rec = ready_session();
    assert_eq!(rec.accept_frame(0, 1920, 1080), Err(CaptureError::NotActive));
    assert_eq!(rec.write_packet(0), Err(CaptureError::NotActive));
}

#[test]
fn changed_frame_size_fails_the_session() {
    let mut rec = ready_session();
    rec.start(0).unwrap();
    rec.accept_frame(0, 1280, 720).unwrap();
    assert!(matches!(rec.accept_frame(1, 1920, 1080), Err(CaptureError::Configuration(_))));
    assert_eq!(rec.state(), RecordingState::Failed);
}

#[test]
fn gap_in_sequence_fails_the_session() {
    let mut rec = ready_session();
    rec.start(0).unwrap();
    rec.accept_frame(0, 1280, 720).unwrap();
    assert!(matches!(rec.accept_frame(2, 1280, 720), Err(CaptureError::Encoding(_))));
    assert_eq!(rec.state(), RecordingState::Failed);
}

#[test]
fn abort_keeps_a_complete_container() {
    let mut rec = ready_session();
    rec.start(0).unwrap();
    rec.accept_frame(0, 1280, 720).unwrap();
    rec.accept_frame(1, 1280, 720).unwrap();
    rec.write_packet(0).unwrap();
    assert!(rec.abort(&vec![1]));
    assert_eq!(rec.state(), RecordingState::Failed);

    let mut rec = ready_session();
    rec.start(0).unwrap();
    assert!(!rec.abort(&vec![]));
    assert_eq!(rec.state(), RecordingState::Failed);
}

#[test]
fn invalid_config_is_refused() {
    let mut config = RecordingConfig::default();
    config.fps = 0;
    assert!(matches!(Recorder::new(config), Err(CaptureError::Configuration(_))));
}
