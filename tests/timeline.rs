use screen_capture::error::CaptureError;
use screen_capture::lifecycle::default_output_folder;
use screen_capture::text::text_le;
use screen_capture::timeline::{
    check_project_name, entry_for_found_file, new_timeline_entry, recorded_at_for, sort_projects_newest_first,
    validate_project_name, Project, ProjectTimeline, TimelineEntry,
};

fn entry(name: &str, at: &str, ms: u64) -> TimelineEntry {
    new_timeline_entry(String::from(name), String::from(at), ms, String::from("16:9"), 1920, 1080, true, None)
}

#[test]
fn project_names() {
    assert_eq!(validate_project_name("  Demo  "), Ok(String::from("Demo")));
    assert!(matches!(validate_project_name("   "), Err(CaptureError::Configuration(_))));
    assert!(matches!(validate_project_name("a/b"), Err(CaptureError::Configuration(_))));
    assert!(matches!(validate_project_name("what?"), Err(CaptureError::Configuration(_))));
    assert!(check_project_name("ok name").is_ok());
    assert!(check_project_name("").is_err());
}

#[test]
fn default_folder() {
    assert_eq!(default_output_folder(Some(String::from("/home/u"))), "/home/u/Videos/PushToHold");
    assert_eq!(default_output_folder(None), "~/Videos/PushToHold");
}

#[test]
fn text_order() {
    assert!(text_le("2024-01-01", "2024-01-02"));
    assert!(!text_le("2024-01-02", "2024-01-01"));
    assert!(text_le("abc", "abc"));
    assert!(text_le("ab", "abc"));
    assert!(!text_le("abc", "ab"));
}

#[test]
fn reconcile_drops_missing_and_adds_found() {
    let mut t = ProjectTimeline::new(String::from("P"), String::from("t0"));
    t.add_entry(entry("recording-1.mp4", "2024-01-02", 1000), String::from("t1"));
    t.add_entry(entry("gone.mp4", "2024-01-03", 2000), String::from("t2"));
    t.add_entry(entry("recording-2.mp4", "2024-01-01", 3000), String::from("t3"));
    let files = vec![
        (String::from("recording-1.mp4"), String::from("c1")),
        (String::from("recording-2.mp4"), String::from("c2")),
        (String::from("new_4k.mov"), String::from("c3")),
    ];
    let removed = t.retain_existing(&files);
    assert_eq!(removed, 1);
    assert_eq!(t.entries.len(), 2);
    assert_eq!(t.entries[0].checksum, Some(String::from("c1")));
    assert_eq!(t.entries[1].checksum, Some(String::from("c2")));
    let fresh = t.new_files(&files);
    assert_eq!(fresh, vec![2]);
    let found = entry_for_found_file(String::from("new_4k.mov"), String::from("c3"), Some(0), 3 * 1024 * 1024, None, String::from("now"));
    assert_eq!(found.recorded_at, "1970-01-01T00:00:00+00:00");
    assert_eq!(found.duration_ms, 3000);
    assert_eq!((found.resolution.width, found.resolution.height), (3840, 2160));
    assert_eq!(found.notes, Some(String::from("Added during timeline reconciliation")));
    let changes = t.finish_reconcile(vec![found], removed, String::from("t9"));
    assert_eq!(changes, 2);
    let order: Vec<&str> = t.entries.iter().map(|e| e.filename.as_str()).collect();
    assert_eq!(order, vec!["new_4k.mov", "recording-2.mp4", "recording-1.mp4"]);
    assert_eq!(t.metadata.total_videos, 3);
    assert_eq!(t.metadata.total_duration, 7000);
    assert_eq!(t.last_modified, "t9");
}

#[test]
fn recorded_at_falls_back_to_now() {
    assert_eq!(recorded_at_for(None, String::from("now")), "now");
    assert_eq!(recorded_at_for(Some(i64::MAX), String::from("now")), "now");
    assert_eq!(recorded_at_for(Some(86400), String::from("now")), "1970-01-02T00:00:00+00:00");
}

#[test]
fn sort_keeps_equal_times_in_order() {
    let mut t = ProjectTimeline::new(String::from("P"), String::from("t0"));
    t.add_entry(entry("b", "2", 1), String::from("x"));
    t.add_entry(entry("a", "1", 1), String::from("x"));
    t.add_entry(entry("c", "2", 1), String::from("x"));
    t.sort_entries();
    let order: Vec<&str> = t.entries.iter().map(|e| e.filename.as_str()).collect();
    assert_eq!(order, vec!["a", "b", "c"]);
}

#[test]
fn projects_newest_first() {
    let mut ps = vec![
        Project::empty(String::from("old"), String::from("2023-01-01")),
        Project::empty(String::from("new"), String::from("2025-01-01")),
        Project::empty(String::from("mid"), String::from("2024-01-01")),
    ];
    sort_projects_newest_first(&mut ps);
    let order: Vec<&str> = ps.iter().map(|p| p.name.as_str()).collect();
    assert_eq!(order, vec!["new", "mid", "old"]);
}
