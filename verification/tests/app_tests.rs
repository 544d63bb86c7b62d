use fluxfox_web::app::{App, DroppedFile, IntakeStep, RunMode};
use fluxfox_web::persist::PersistentState;
use fluxfox_web::status::{outcome_message, Progress, ThreadLoadStatus, PROGRESS_SCALE};

type TestApp = App<u32, String>;
type TestStatus = ThreadLoadStatus<u32, String>;

fn file_named(name: &str, bytes: Option<Vec<u8>>) -> DroppedFile {
    DroppedFile { path: None, name: name.to_string(), mime: String::new(), bytes }
}

#[test]
fn new_without_storage_uses_greeting() {
    let app = TestApp::new(None);
    assert_eq!(app.p_state.label, "Hello World!");
    assert_eq!(app.run_mode, RunMode::Reactive);
    assert!(!app.ctx_init);
    assert!(app.dropped_files.is_empty());
    assert!(matches!(app.load_status, ThreadLoadStatus::Inactive));
    assert!(app.disk_image_name.is_none());
    assert!(app.disk_image.is_none());
}

#[test]
fn new_restores_persisted_label() {
    let app = TestApp::new(Some(PersistentState { label: "saved".to_string() }));
    assert_eq!(app.p_state.label, "saved");
}

#[test]
fn progress_bar_reflects_most_recent_drained_value() {
    let mut app = TestApp::new(None);
    let msgs: Vec<TestStatus> = vec![
        ThreadLoadStatus::Loading(Progress::from_ppm(250000)),
        ThreadLoadStatus::Loading(Progress::from_ppm(500000)),
        ThreadLoadStatus::Loading(Progress::from_ppm(750000)),
    ];
    let fx = app.drain_load_messages(msgs);
    assert_eq!(app.current_progress(), Some(750000));
    assert!(fx.repaint);
    assert!(!fx.render);
}

#[test]
fn progress_clamps_to_one_whole() {
    let p = Progress::from_ppm(PROGRESS_SCALE + 5);
    assert_eq!(p.ppm, PROGRESS_SCALE);
}

#[test]
fn success_drain_stores_handle_and_goes_reactive() {
    let mut app = TestApp::new(None);
    app.note_spawn_result(true);
    assert_eq!(app.run_mode, RunMode::Continuous);
    let msgs: Vec<TestStatus> = vec![
        ThreadLoadStatus::Loading(Progress::from_ppm(900000)),
        ThreadLoadStatus::Success(7),
    ];
    let fx = app.drain_load_messages(msgs);
    assert_eq!(app.run_mode, RunMode::Reactive);
    assert_eq!(app.disk_image, Some(7));
    assert!(matches!(app.load_status, ThreadLoadStatus::Inactive));
    assert_eq!(app.current_progress(), None);
    assert!(fx.repaint);
    assert!(fx.render);
}

#[test]
fn success_drain_replaces_old_handle() {
    let mut app = TestApp::new(None);
    app.disk_image = Some(1);
    let msgs: Vec<TestStatus> = vec![ThreadLoadStatus::Success(2)];
    app.drain_load_messages(msgs);
    assert_eq!(app.disk_image, Some(2));
}

#[test]
fn error_drain_goes_reactive_and_keeps_prior_handle() {
    let mut app = TestApp::new(None);
    app.disk_image = Some(7);
    app.note_spawn_result(true);
    let msgs: Vec<TestStatus> = vec![ThreadLoadStatus::Error("bad format".to_string())];
    let fx = app.drain_load_messages(msgs);
    assert_eq!(app.run_mode, RunMode::Reactive);
    assert_eq!(app.disk_image, Some(7));
    assert!(matches!(&app.load_status, ThreadLoadStatus::Error(e) if e == "bad format"));
    assert!(fx.repaint);
    assert!(!fx.render);
}

#[test]
fn dispatch_clears_old_handle_before_terminal_message() {
    let mut app = TestApp::new(None);
    app.disk_image = Some(7);
    app.note_dropped_file(file_named("next.img", Some(vec![1, 2, 3])));
    let step = app.begin_pending_load();
    assert!(matches!(step, IntakeStep::Dispatch(b) if b == vec![1, 2, 3]));
    assert!(app.disk_image.is_none());
    assert_eq!(app.disk_image_name.as_deref(), Some("next.img"));
    assert!(app.dropped_files.is_empty());
    let msgs: Vec<TestStatus> = vec![ThreadLoadStatus::Error("corrupt".to_string())];
    app.drain_load_messages(msgs);
    assert!(app.disk_image.is_none());
}

#[test]
fn second_drop_while_pending_is_ignored() {
    let mut app = TestApp::new(None);
    app.note_dropped_file(file_named("first.img", None));
    app.note_dropped_file(file_named("second.img", Some(vec![9])));
    assert_eq!(app.dropped_files.len(), 1);
    assert_eq!(app.dropped_files[0].name, "first.img");
    assert!(app.dropped_files[0].bytes.is_none());
}

#[test]
fn drop_while_loading_is_ignored() {
    let mut app = TestApp::new(None);
    app.note_dropped_file(file_named("first.img", Some(vec![1])));
    let step = app.begin_pending_load();
    assert!(matches!(step, IntakeStep::Dispatch(_)));
    app.note_spawn_result(true);
    app.note_dropped_file(file_named("second.img", Some(vec![2])));
    assert!(app.dropped_files.is_empty());
    assert_eq!(app.run_mode, RunMode::Continuous);
    assert_eq!(app.disk_image_name.as_deref(), Some("first.img"));
}

#[test]
fn intake_waits_until_bytes_arrive() {
    let mut app = TestApp::new(None);
    app.note_dropped_file(file_named("slow.img", None));
    assert!(matches!(app.begin_pending_load(), IntakeStep::AwaitBytes));
    assert_eq!(app.dropped_files.len(), 1);
    app.dropped_files[0].bytes = Some(vec![4, 5]);
    let step = app.begin_pending_load();
    assert!(matches!(step, IntakeStep::Dispatch(b) if b == vec![4, 5]));
}

#[test]
fn intake_is_idle_without_a_drop() {
    let mut app = TestApp::new(None);
    assert!(matches!(app.begin_pending_load(), IntakeStep::Idle));
}

#[test]
fn spawn_failure_stays_reactive() {
    let mut app = TestApp::new(None);
    app.note_spawn_result(false);
    assert_eq!(app.run_mode, RunMode::Reactive);
}

#[test]
fn inactive_message_changes_nothing() {
    let mut app = TestApp::new(None);
    let fx = app.apply_load_message(ThreadLoadStatus::Inactive);
    assert!(!fx.repaint);
    assert!(!fx.render);
    assert!(matches!(app.load_status, ThreadLoadStatus::Inactive));
}

#[test]
fn outcome_message_maps_both_cases() {
    let ok: Result<u32, String> = Ok(3);
    assert!(matches!(outcome_message(ok), ThreadLoadStatus::Success(3)));
    let err: Result<u32, String> = Err("no".to_string());
    assert!(matches!(outcome_message(err), ThreadLoadStatus::Error(e) if e == "no"));
}

#[test]
fn ctx_init_is_recorded_once_asked() {
    let mut app = TestApp::new(None);
    assert!(app.needs_ctx_init());
    app.ctx_init();
    assert!(!app.needs_ctx_init());
}

#[test]
fn continuous_mode_tracks_run_mode() {
    let mut app = TestApp::new(None);
    assert!(!app.continuous_mode());
    app.note_spawn_result(true);
    assert!(app.continuous_mode());
}

#[test]
fn clear_dropped_files_empties_slot() {
    let mut app = TestApp::new(None);
    app.note_dropped_file(file_named("a.img", None));
    app.clear_dropped_files();
    assert!(app.dropped_files.is_empty());
}

#[test]
fn image_display_name_defaults_to_unknown() {
    let mut app = TestApp::new(None);
    assert_eq!(app.image_display_name(), "unknown");
    app.disk_image_name = Some("disk.img".to_string());
    assert_eq!(app.image_display_name(), "disk.img");
}

#[test]
fn snapshot_copies_persistent_state() {
    let app = TestApp::new(Some(PersistentState { label: "kept".to_string() }));
    let snap = app.snapshot();
    assert_eq!(snap.label, "kept");
}

#[test]
fn summary_shows_name_and_pending_bytes() {
    let f = file_named("disk.img", None);
    assert_eq!(f.summary(), "disk.img (loading...)");
}

#[test]
fn summary_shows_path_type_and_byte_count() {
    let f = DroppedFile {
        path: Some("/tmp/x.img".to_string()),
        name: "x.img".to_string(),
        mime: "application/octet-stream".to_string(),
        bytes: Some(vec![0; 512]),
    };
    assert_eq!(f.summary(), "/tmp/x.img (type: application/octet-stream, 512 bytes)");
}

#[test]
fn summary_falls_back_to_placeholder() {
    let f = DroppedFile {
        path: None,
        name: String::new(),
        mime: String::new(),
        bytes: Some(vec![1, 2, 3]),
    };
    assert_eq!(f.summary(), "??? (3 bytes)");
}
