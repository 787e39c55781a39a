use screen_capture::capturer::{decimal, ScreenCapturer};
use screen_capture::events::{CaptureRegion, ErrorEvent};
use screen_capture::error::CaptureError;
use screen_capture::session::RecordingState;
use screen_capture::timeline::{
    detect_video_properties_from_filename, estimate_duration_from_file_size, expand_home_path,
    new_timeline_entry, video_properties_of_lowered, Project, ProjectTimeline,
};
use screen_capture::text::contains_text;
use screen_capture::watcher::{is_video_extension, is_video_file, WatcherControl};

#[test]
fn next_output_path_skips_taken_names() {
    let cap = ScreenCapturer::new(String::from("/v/P"), true, None);
    assert_eq!(cap.get_next_output_path(&vec![]), Some(String::from("/v/P/recording-1.mp4")));
    let taken = vec![String::from("recording-1.mp4"), String::from("notes.txt"), String::from("recording-2.mp4")];
    assert_eq!(cap.get_next_output_path(&taken), Some(String::from("/v/P/recording-3.mp4")));
    assert_eq!(cap.get_last_created_path(&taken), Some(String::from("/v/P/recording-2.mp4")));
    assert_eq!(cap.get_last_created_path(&vec![]), Some(String::from("/v/P/recording-1.mp4")));
}

#[test]
fn capturer_prepares_a_session() {
    let cap = ScreenCapturer::new(String::from("/v/P"), false, Some(String::from("mic-1")));
    let rec = cap.pre_initialize(Some((0, 0, 1280, 720)), &vec![String::from("recording-1.mp4")]).unwrap();
    assert_eq!(rec.state(), RecordingState::PreInitializing);
    assert_eq!(rec.config().output_path, "/v/P/recording-2.mp4");
    assert_eq!(rec.config().fps, 30);
    assert_eq!(rec.config().quality, 80);
    assert_eq!(rec.config().microphone_device_id, Some(String::from("mic-1")));
    assert!(matches!(cap.pre_initialize(Some((0, 0, 0, 720)), &vec![]), Err(CaptureError::Configuration(_))));
}

#[test]
fn decimal_digits() {
    assert_eq!(decimal(0), "0");
    assert_eq!(decimal(42), "42");
    assert_eq!(decimal(18446744073709551615), "18446744073709551615");
}

#[test]
fn video_files_by_extension() {
    assert!(is_video_file("/a/b/clip.MP4"));
    assert!(is_video_file("movie.webm"));
    assert!(!is_video_file("/a/b.mp4/notes.txt"));
    assert!(!is_video_file("/a/.mp4"));
    assert!(!is_video_file("noext"));
    assert!(is_video_extension("m4v"));
    assert!(!is_video_extension("MP4"));
}

#[test]
fn watcher_pause_and_resume() {
    let mut w = WatcherControl::new();
    assert!(w.is_enabled());
    let paths = vec![String::from("/x/a.txt"), String::from("/x/clip.mov")];
    assert!(w.should_notify(true, &paths, &vec![false, false]));
    assert!(!w.should_notify(false, &paths, &vec![false, false]));
    assert!(!w.should_notify(true, &vec![String::from("/x/a.txt")], &vec![false]));
    assert!(w.should_notify(true, &vec![String::from("/x/dir")], &vec![true]));
    w.pause();
    assert!(!w.is_enabled());
    assert!(!w.should_notify(true, &paths, &vec![false, false]));
    w.resume();
    assert!(w.is_enabled());
}

#[test]
fn video_properties_from_names() {
    assert_eq!(detect_video_properties_from_filename("Demo_4K.mov"), (String::from("16:9"), 3840, 2160));
    assert_eq!(detect_video_properties_from_filename("clip-PORTRAIT.mp4"), (String::from("9:16"), 1080, 1920));
    assert_eq!(detect_video_properties_from_filename("x_1440x2560.mp4"), (String::from("9:16"), 1440, 2560));
    assert_eq!(detect_video_properties_from_filename("recording-1.mp4"), (String::from("16:9"), 1920, 1080));
    assert_eq!(video_properties_of_lowered("a_qhd"), (String::from("16:9"), 2560, 1440));
    assert!(contains_text("abcdef", "cde"));
    assert!(!contains_text("abc", "abcd"));
}

#[test]
fn duration_estimate_from_size() {
    assert_eq!(estimate_duration_from_file_size(0), 1000);
    assert_eq!(estimate_duration_from_file_size(5 * 1024 * 1024 + 7), 5000);
}

#[test]
fn home_expansion() {
    assert_eq!(expand_home_path("~/Videos", Some(String::from("/home/u"))), "/home/u/Videos");
    assert_eq!(expand_home_path("~/Videos", None), "~/Videos");
    assert_eq!(expand_home_path("/abs", Some(String::from("/home/u"))), "/abs");
}

#[test]
fn timeline_totals() {
    let mut t = ProjectTimeline::new(String::from("Default"), String::from("t0"));
    assert_eq!(t.metadata.total_videos, 0);
    let e1 = new_timeline_entry(String::from("recording-1.mp4"), String::from("t1"), 3000, String::from("16:9"), 1920, 1080, true, None);
    assert_eq!(e1.id.len(), 36);
    t.add_entry(e1, String::from("t1"));
    let e2 = new_timeline_entry(String::from("recording-2.mp4"), String::from("t2"), 1500, String::from("16:9"), 1920, 1080, false, None);
    t.add_entry(e2, String::from("t2"));
    assert_eq!(t.metadata.total_videos, 2);
    assert_eq!(t.metadata.total_duration, 4500);
    assert_eq!(t.last_modified, "t2");
    let p = Project::from_timeline(String::from("Default"), &t);
    assert_eq!(p.video_count, 2);
    assert_eq!(p.created_at, "t0");
    let e = Project::empty(String::from("X"), String::from("now"));
    assert_eq!(e.video_count, 0);
}

#[test]
fn events() {
    let ev = ErrorEvent::from_error(&CaptureError::NotActive, String::from("nothing to stop"));
    assert_eq!(ev.code, "NOT_ACTIVE");
    assert_eq!(CaptureRegion { x: 1, y: 2, width: 3, height: 4 }.to_capture(), Some((1, 2, 3, 4)));
    assert_eq!(CaptureRegion { x: -1, y: 2, width: 3, height: 4 }.to_capture(), None);
}

#[test]
fn capturer_refuses_unsupported_region_only() {
    let cap = ScreenCapturer::new(String::from("/v"), true, None);
    assert!(cap.pre_initialize(None, &vec![]).is_ok());
    assert!(cap.pre_initialize(Some((5, 5, 640, 480)), &vec![]).is_ok());
    assert!(matches!(cap.pre_initialize(Some((5, 5, 641, 480)), &vec![]), Err(CaptureError::Configuration(_))));
}
