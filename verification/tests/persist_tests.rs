use fluxfox_web::persist::PersistentState;

#[test]
fn default_label_is_empty() {
    let p = PersistentState::default();
    assert_eq!(p.label, "");
}

#[test]
fn label_round_trips_through_snapshot() {
    let p = PersistentState { label: "my disk shelf".to_string() };
    let written = p.to_snapshot();
    let restored = PersistentState::from_snapshot(written);
    assert_eq!(restored.label, "my disk shelf");
}

#[test]
fn missing_field_defaults_instead_of_failing() {
    let restored = PersistentState::from_snapshot(None);
    assert_eq!(restored.label, "");
}
