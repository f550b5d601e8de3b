use voxta::config::InsertionMode;
use voxta::error::AppError;
use voxta::focus::FocusSnapshot;
use voxta::text_injection::{plan_insertion, ClipboardSnapshot, InsertionPlan};

#[test]
fn snapshot_keeps_previous_text_for_restore() {
    let snapshot = ClipboardSnapshot::from_text(Some("before".to_string()));
    assert_eq!(snapshot.text().map(|t| t.as_str()), Some("before"));
}

#[test]
fn empty_snapshot_represents_clear_clipboard() {
    let snapshot = ClipboardSnapshot::from_text(None);
    assert!(snapshot.text().is_none());
}

// Further cases.

#[test]
fn insertion_plan_follows_mode_and_refuses_secure_fields() {
    let focus = FocusSnapshot::default();
    assert_eq!(plan_insertion("  ", &focus, InsertionMode::Direct).unwrap(), InsertionPlan::Nothing);
    assert_eq!(plan_insertion("hi", &focus, InsertionMode::Auto).unwrap(), InsertionPlan::DirectThenClipboard);
    assert_eq!(plan_insertion("hi", &focus, InsertionMode::Clipboard).unwrap(), InsertionPlan::Clipboard);
    let secure = FocusSnapshot { secure_input: true, ..FocusSnapshot::default() };
    match plan_insertion("hi", &secure, InsertionMode::Direct) {
        Err(AppError::TextInsertion(m)) => assert_eq!(m, "refusing to insert dictation into a secure input field"),
        other => panic!("unexpected {other:?}"),
    }
    assert_eq!(plan_insertion("", &secure, InsertionMode::Direct).unwrap(), InsertionPlan::Nothing);
}
