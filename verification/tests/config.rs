use voxta::config::{
    decide_config_load, default_shortcut, AiCleanupConfig, AiCleanupProvider, AppConfig, ConfigStore, ShortcutBehavior,
};
use voxta::error::AppError;

#[test]
fn default_config_values() {
    let config = AppConfig::default();
    assert!(config.enabled);
    assert_eq!(config.shortcut, "Ctrl+Alt+Space");
    assert_eq!(config.model, "base");
    assert_eq!(config.language, "auto");
    assert_eq!(config.shortcut_behavior, ShortcutBehavior::Hold);
    assert_eq!(default_shortcut(), "Ctrl+Alt+Space");
}

#[test]
fn validate_replaces_blank_settings_only() {
    let config = AppConfig {
        shortcut: "  ".to_string(),
        model: String::new(),
        language: "\t".to_string(),
        microphone_id: " ".to_string(),
        ..AppConfig::default()
    }
    .validate();
    assert_eq!(config.shortcut, "Ctrl+Alt+Space");
    assert_eq!(config.model, "base");
    assert_eq!(config.language, "auto");
    assert_eq!(config.microphone_id, " ");
    let kept = AppConfig { model: " small ".to_string(), ..AppConfig::default() }.validate();
    assert_eq!(kept.model, " small ");
    let twice = kept.clone().validate();
    assert_eq!(twice.model, kept.model);
}

#[test]
fn config_store_keeps_path() {
    let store = ConfigStore::from_path(std::path::PathBuf::from("/tmp/voxta/config.json"));
    assert_eq!(store.path(), &std::path::PathBuf::from("/tmp/voxta/config.json"));
}

#[test]
fn ai_cleanup_is_off_by_default() {
    let config = AiCleanupConfig::default();
    assert!(!config.enabled);
    assert_eq!(config.provider, AiCleanupProvider::Disabled);
}

#[test]
fn load_decisions() {
    let missing = decide_config_load(None);
    assert!(missing.write_defaults && !missing.back_up_corrupt);
    assert_eq!(missing.result.unwrap().shortcut, "Ctrl+Alt+Space");
    let parsed = AppConfig { model: "  ".to_string(), shortcut: "Ctrl+Alt+D".to_string(), ..AppConfig::default() };
    let ok = decide_config_load(Some(Ok(parsed)));
    assert!(!ok.write_defaults && !ok.back_up_corrupt);
    let c = ok.result.unwrap();
    assert_eq!((c.shortcut.as_str(), c.model.as_str()), ("Ctrl+Alt+D", "base"));
    let bad = decide_config_load(Some(Err("expected value at line 1 column 2".to_string())));
    assert!(bad.write_defaults && bad.back_up_corrupt);
    match bad.result {
        Err(AppError::Config(m)) => {
            assert_eq!(m, "configuration was corrupt and has been reset: expected value at line 1 column 2")
        }
        other => panic!("unexpected {other:?}"),
    }
}
