use screen_capture::config::{CaptureRegion, RecordingConfig};
use screen_capture::error::CaptureError;

#[test]
fn test_config_default() {
    let config = RecordingConfig::default();
    assert_eq!(config.fps, 30);
    assert_eq!(config.quality, 80);
    assert!(config.capture_cursor);
}

#[test]
fn default_config_is_valid_full_screen() {
    let config = RecordingConfig::default();
    assert_eq!(config.output_path, "recording.mp4");
    assert!(config.region.is_none());
    assert_eq!(config.capture_size(), (1920, 1080));
    assert!(config.validate().is_ok());
}

#[test]
fn region_sets_capture_size() {
    let mut config = RecordingConfig::default();
    config.region = Some(CaptureRegion { x: 10, y: 20, width: 640, height: 480 });
    assert_eq!(config.capture_size(), (640, 480));
    assert!(config.validate().is_ok());
}

#[test]
fn invalid_configs_are_configuration_errors() {
    let mut c = RecordingConfig::default();
    c.fps = 0;
    assert!(matches!(c.validate(), Err(CaptureError::Configuration(_))));
    let mut c = RecordingConfig::default();
    c.quality = 101;
    assert!(matches!(c.validate(), Err(CaptureError::Configuration(_))));
    let mut c = RecordingConfig::default();
    c.output_path = String::new();
    assert!(matches!(c.validate(), Err(CaptureError::Configuration(_))));
    let mut c = RecordingConfig::default();
    c.region = Some(CaptureRegion { x: 0, y: 0, width: 641, height: 480 });
    assert!(matches!(c.validate(), Err(CaptureError::Configuration(_))));
}

#[test]
fn error_codes() {
    assert_eq!(CaptureError::NotActive.code(), "NOT_ACTIVE");
    assert_eq!(CaptureError::AlreadyActive.code(), "ALREADY_ACTIVE");
    assert_eq!(CaptureError::NoFrames.code(), "NO_FRAMES");
    assert_eq!(CaptureError::Encoding(String::from("x")).code(), "ENCODING_ERROR");
    assert_eq!(CaptureError::Configuration(String::from("x")).code(), "CONFIGURATION_ERROR");
    assert_eq!(CaptureError::Initialization(String::from("x")).code(), "INITIALIZATION_ERROR");
    assert_eq!(CaptureError::Io(String::from("x")).code(), "IO_ERROR");
}
