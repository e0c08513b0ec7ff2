use inline_completion::testbench::{ThemeTestbench, ThemeTestbenchState};

#[test]
fn fresh_testbench_has_no_saved_record() {
    let t = ThemeTestbench::new();
    assert_eq!(t.record_to_reuse(), None);
}

#[test]
fn saved_testbench_reuses_its_record() {
    let mut t = ThemeTestbench::new();
    t.record_created(7);
    assert_eq!(t.record_to_reuse(), Some(7));
    t.record_created(9);
    assert_eq!(t.record_to_reuse(), Some(9));
}

#[test]
fn testbench_state_schema() {
    assert_eq!(ThemeTestbenchState::namespace(), "ThemeTestbenchState");
    assert_eq!(ThemeTestbenchState::schema_version(), 0);
}
