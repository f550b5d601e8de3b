use voxta::config::ShortcutBehavior;
use voxta::hotkeys::{
    letter_key, macos_keycode_to_key, process_shortcut_event, KeyCode, KeyEvent, Modifier, Shortcut,
    ShortcutEvent, ShortcutState,
};
use voxta::hotkeys::{macos_key_event, process_macos_shortcut_event, ModifierFlags, TapEventKind};

#[test]
fn parses_shortcut() {
    let shortcut = Shortcut::parse("Ctrl+Alt+Space").unwrap();
    assert_eq!(shortcut.trigger(), KeyCode::Space);
}

#[test]
fn emits_start_once_and_stop_on_release() {
    let shortcut = Shortcut::parse("Ctrl+Alt+Space").unwrap();
    let mut state = ShortcutState::new();
    assert_eq!(state.handle(KeyEvent::Press(KeyCode::ControlLeft), &shortcut, ShortcutBehavior::Hold), None);
    assert_eq!(state.handle(KeyEvent::Press(KeyCode::Alt), &shortcut, ShortcutBehavior::Hold), None);
    assert_eq!(
        state.handle(KeyEvent::Press(KeyCode::Space), &shortcut, ShortcutBehavior::Hold),
        Some(ShortcutEvent::Start)
    );
    assert_eq!(state.handle(KeyEvent::Press(KeyCode::Space), &shortcut, ShortcutBehavior::Hold), None);
    assert_eq!(
        state.handle(KeyEvent::Release(KeyCode::Space), &shortcut, ShortcutBehavior::Hold),
        Some(ShortcutEvent::Stop)
    );
}

#[test]
fn toggle_mode_starts_and_stops_on_shortcut_presses() {
    let shortcut = Shortcut::parse("Ctrl+Alt+Space").unwrap();
    let mut state = ShortcutState::new();
    assert_eq!(state.handle(KeyEvent::Press(KeyCode::ControlLeft), &shortcut, ShortcutBehavior::Toggle), None);
    assert_eq!(state.handle(KeyEvent::Press(KeyCode::Alt), &shortcut, ShortcutBehavior::Toggle), None);
    assert_eq!(
        state.handle(KeyEvent::Press(KeyCode::Space), &shortcut, ShortcutBehavior::Toggle),
        Some(ShortcutEvent::Start)
    );
    assert_eq!(state.handle(KeyEvent::Release(KeyCode::Space), &shortcut, ShortcutBehavior::Toggle), None);
    assert_eq!(
        state.handle(KeyEvent::Press(KeyCode::Space), &shortcut, ShortcutBehavior::Toggle),
        Some(ShortcutEvent::Stop)
    );
}

#[test]
fn toggle_mode_ignores_key_repeat_until_released() {
    let shortcut = Shortcut::parse("Ctrl+Alt+Space").unwrap();
    let mut state = ShortcutState::new();
    state.handle(KeyEvent::Press(KeyCode::ControlLeft), &shortcut, ShortcutBehavior::Toggle);
    state.handle(KeyEvent::Press(KeyCode::Alt), &shortcut, ShortcutBehavior::Toggle);
    assert_eq!(
        state.handle(KeyEvent::Press(KeyCode::Space), &shortcut, ShortcutBehavior::Toggle),
        Some(ShortcutEvent::Start)
    );
    assert_eq!(state.handle(KeyEvent::Press(KeyCode::Space), &shortcut, ShortcutBehavior::Toggle), None);
}

#[test]
fn escape_cancels_active_recording() {
    let shortcut = Shortcut::parse("Ctrl+Alt+Space").unwrap();
    let mut state = ShortcutState::new();
    state.handle(KeyEvent::Press(KeyCode::ControlLeft), &shortcut, ShortcutBehavior::Hold);
    state.handle(KeyEvent::Press(KeyCode::Alt), &shortcut, ShortcutBehavior::Hold);
    state.handle(KeyEvent::Press(KeyCode::Space), &shortcut, ShortcutBehavior::Hold);
    assert_eq!(
        state.handle(KeyEvent::Press(KeyCode::Escape), &shortcut, ShortcutBehavior::Hold),
        Some(ShortcutEvent::Cancel)
    );
}

#[test]
fn stale_modifiers_do_not_trigger_without_the_shortcut_trigger() {
    let shortcut = Shortcut::parse("Ctrl+Alt+Space").unwrap();
    let mut state = ShortcutState::new();
    state.press_key(KeyCode::ControlLeft);
    state.press_key(KeyCode::Alt);
    assert_eq!(state.handle(KeyEvent::Press(KeyCode::KeyA), &shortcut, ShortcutBehavior::Hold), None);
    assert_eq!(state.handle(KeyEvent::Release(KeyCode::KeyA), &shortcut, ShortcutBehavior::Hold), None);
}

// Further cases.

#[test]
fn parse_orders_and_dedups_modifiers() {
    let shortcut = Shortcut::parse(" shift + CMD+ctrl+Shift+d").unwrap();
    assert_eq!(shortcut.modifiers(), &vec![Modifier::Ctrl, Modifier::Shift, Modifier::Meta]);
    assert_eq!(shortcut.trigger(), KeyCode::KeyD);
}

#[test]
fn parse_errors() {
    let err = Shortcut::parse("Ctrl+F13").unwrap_err();
    assert_eq!(err.detail(), "unsupported shortcut key: F13");
    assert_eq!(err.to_string(), "shortcut error: unsupported shortcut key: F13");
    let err = Shortcut::parse("Ctrl+Alt").unwrap_err();
    assert_eq!(err.detail(), "shortcut must include a non-modifier key");
    let err = Shortcut::parse("Space").unwrap_err();
    assert_eq!(err.detail(), "shortcut must include at least one modifier");
    let err = Shortcut::parse("Ctrl++Space").unwrap_err();
    assert_eq!(err.detail(), "unsupported shortcut key: ");
    // A single punctuation character names no key.
    let err = Shortcut::parse("Ctrl+!").unwrap_err();
    assert_eq!(err.detail(), "shortcut must include a non-modifier key");
}

#[test]
fn hold_release_of_other_key_does_not_stop() {
    let shortcut = Shortcut::parse("Ctrl+Alt+Space").unwrap();
    let mut state = ShortcutState::new();
    for key in [KeyCode::ControlLeft, KeyCode::Alt, KeyCode::Space] {
        state.handle(KeyEvent::Press(key), &shortcut, ShortcutBehavior::Hold);
    }
    assert!(state.is_active());
    assert_eq!(state.handle(KeyEvent::Release(KeyCode::Alt), &shortcut, ShortcutBehavior::Hold), None);
    assert!(state.is_active());
    assert!(state.should_swallow(KeyEvent::Release(KeyCode::Alt), &shortcut));
    assert!(!state.should_swallow(KeyEvent::Press(KeyCode::KeyB), &shortcut));
    assert_eq!(
        state.handle(KeyEvent::Release(KeyCode::Space), &shortcut, ShortcutBehavior::Hold),
        Some(ShortcutEvent::Stop)
    );
    assert!(!state.should_swallow(KeyEvent::Press(KeyCode::Escape), &shortcut));
}

#[test]
fn right_hand_modifiers_count() {
    let shortcut = Shortcut::parse("Control+Option+K").unwrap();
    let mut state = ShortcutState::new();
    state.handle(KeyEvent::Press(KeyCode::ControlRight), &shortcut, ShortcutBehavior::Hold);
    state.handle(KeyEvent::Press(KeyCode::AltGr), &shortcut, ShortcutBehavior::Hold);
    assert_eq!(
        state.handle(KeyEvent::Press(KeyCode::KeyK), &shortcut, ShortcutBehavior::Hold),
        Some(ShortcutEvent::Start)
    );
}

#[test]
fn process_event_reports_bad_shortcut() {
    let mut state = ShortcutState::new();
    let (event, swallow) =
        process_shortcut_event(KeyEvent::Press(KeyCode::Space), "Ctrl+Nope", ShortcutBehavior::Hold, &mut state);
    assert_eq!(
        event,
        Some(ShortcutEvent::Error("shortcut error: unsupported shortcut key: Nope".to_string()))
    );
    assert!(!swallow);
}

#[test]
fn process_event_swallows_shortcut_keys() {
    let mut state = ShortcutState::new();
    let text = "Ctrl+Space";
    let (e, s) = process_shortcut_event(KeyEvent::Press(KeyCode::ControlLeft), text, ShortcutBehavior::Hold, &mut state);
    assert_eq!((e, s), (None, false));
    let (e, s) = process_shortcut_event(KeyEvent::Press(KeyCode::Space), text, ShortcutBehavior::Hold, &mut state);
    assert_eq!((e, s), (Some(ShortcutEvent::Start), true));
    let (e, s) = process_shortcut_event(KeyEvent::Press(KeyCode::Space), text, ShortcutBehavior::Hold, &mut state);
    assert_eq!((e, s), (None, true));
}

#[test]
fn sync_modifiers_marks_and_clears_groups() {
    let mut state = ShortcutState::new();
    state.press_key(KeyCode::ShiftRight);
    state.sync_modifiers(true, false, false, false);
    assert!(state.is_pressed(KeyCode::ControlLeft));
    assert!(state.is_pressed(KeyCode::ShiftRight) == false);
}

#[test]
fn key_tables() {
    assert_eq!(letter_key('Q'), Some(KeyCode::KeyQ));
    assert_eq!(letter_key('1'), None);
    assert_eq!(macos_keycode_to_key(49), Some(KeyCode::Space));
    assert_eq!(macos_keycode_to_key(22), Some(KeyCode::Num6));
    assert_eq!(macos_keycode_to_key(10), None);
}

#[test]
fn macos_flags_drive_modifiers_before_the_key() {
    let mut state = ShortcutState::new();
    let flags = ModifierFlags { control: true, alternate: true, shift: false, command: false };
    // A flags-only event presses the modifiers and reports nothing.
    let (event, swallow) =
        process_macos_shortcut_event(None, flags, "Ctrl+Alt+Space", ShortcutBehavior::Hold, &mut state);
    assert!(event.is_none() && !swallow);
    assert!(state.is_pressed(KeyCode::ControlLeft) && state.is_pressed(KeyCode::Alt));
    let (event, swallow) = process_macos_shortcut_event(
        Some(KeyEvent::Press(KeyCode::Space)),
        flags,
        "Ctrl+Alt+Space",
        ShortcutBehavior::Hold,
        &mut state,
    );
    assert_eq!(event, Some(ShortcutEvent::Start));
    assert!(swallow);
    // Releasing the modifiers clears both keys of each group.
    let none = ModifierFlags { control: false, alternate: false, shift: false, command: false };
    process_macos_shortcut_event(None, none, "Ctrl+Alt+Space", ShortcutBehavior::Hold, &mut state);
    assert!(!state.is_pressed(KeyCode::ControlLeft) && !state.is_pressed(KeyCode::Alt));
    // A bad shortcut text leaves the keys alone.
    let (event, swallow) = process_macos_shortcut_event(None, flags, "Ctrl+", ShortcutBehavior::Hold, &mut state);
    assert!(matches!(event, Some(ShortcutEvent::Error(_))));
    assert!(!swallow);
    assert!(!state.is_pressed(KeyCode::ControlLeft));
}

#[test]
fn macos_tap_events() {
    assert_eq!(macos_key_event(TapEventKind::KeyDown, 49), Some(KeyEvent::Press(KeyCode::Space)));
    assert_eq!(macos_key_event(TapEventKind::KeyUp, 0), Some(KeyEvent::Release(KeyCode::KeyA)));
    assert_eq!(macos_key_event(TapEventKind::FlagsChanged, 49), None);
    assert_eq!(macos_key_event(TapEventKind::KeyDown, 500), None);
}

#[test]
fn modifier_order_case_and_aliases_do_not_matter() {
    let canonical = Shortcut::parse("Ctrl+Alt+Space").unwrap();
    assert_eq!(Shortcut::parse(" alt + CONTROL + ctrl + space ").unwrap(), canonical);
    assert_eq!(Shortcut::parse("option+Ctrl+SPACE").unwrap(), canonical);
    assert_eq!(Shortcut::parse("Cmd+Shift+A").unwrap(), Shortcut::parse("shift+super+a").unwrap());
}
