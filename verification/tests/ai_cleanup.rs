use std::time::Duration;
use voxta::ai_cleanup::{
    accept_cleanup_response, api_key_to_save, cleanup_prompt, cleanup_requested, cleanup_system_instruction,
    cleanup_timeout_seconds, normalize_endpoint, ollama_status, provider_for_config, require_model, CleanupRequest,
    ProviderChoice,
};
use voxta::config::{AiCleanupConfig, AiCleanupProvider, CleanupStyle};
use voxta::error::AppError;
use voxta::ai_cleanup::{has_remote_api_key, load_remote_api_key, save_remote_api_key};
use voxta::ai_cleanup::{cleanup_or_original, first_choice_text};

#[test]
fn builds_strict_cleanup_prompt() {
    let request = CleanupRequest {
        text: "hello".to_string(),
        style: CleanupStyle::Light,
        custom_instructions: String::new(),
        timeout: Duration::from_secs(8),
    };
    let prompt = cleanup_system_instruction(&request);
    assert!(prompt.contains("Return only the cleaned text"));
    assert!(prompt.contains("Do not introduce new facts"));
}

#[test]
fn includes_custom_instructions_only_in_custom_mode() {
    let request = CleanupRequest {
        text: "hello".to_string(),
        style: CleanupStyle::Custom,
        custom_instructions: "Make it shorter.".to_string(),
        timeout: Duration::from_secs(8),
    };
    assert!(cleanup_system_instruction(&request).contains("Make it shorter."));
}

// Further cases.

#[test]
fn disabled_provider_is_not_requested() {
    let config = AiCleanupConfig::default();
    assert!(!cleanup_requested(&config));
    let enabled_without_provider = AiCleanupConfig { enabled: true, ..AiCleanupConfig::default() };
    assert!(!cleanup_requested(&enabled_without_provider));
    let ollama = AiCleanupConfig { enabled: true, provider: AiCleanupProvider::Ollama, ..AiCleanupConfig::default() };
    assert!(cleanup_requested(&ollama));
}

#[test]
fn custom_instructions_are_ignored_outside_custom_style() {
    let request = CleanupRequest {
        text: "hello".to_string(),
        style: CleanupStyle::Concise,
        custom_instructions: "Make it shorter.".to_string(),
        timeout: Duration::from_secs(8),
    };
    let instruction = cleanup_system_instruction(&request);
    assert!(!instruction.contains("Make it shorter."));
    assert!(instruction.ends_with("\nMake the text concise while preserving all important meaning."));
    let prompt = cleanup_prompt(&request);
    assert!(prompt.starts_with("You clean up dictated text."));
    assert!(prompt.ends_with("\n\nText:\nhello"));
}

#[test]
fn endpoints_are_normalized() {
    assert_eq!(normalize_endpoint("  http://host:1/// ", "x"), "http://host:1");
    assert_eq!(normalize_endpoint(" / ", "http://127.0.0.1:11434"), "http://127.0.0.1:11434");
    let config = AiCleanupConfig { enabled: true, provider: AiCleanupProvider::Ollama, model: "llama".to_string(), ..AiCleanupConfig::default() };
    match provider_for_config(&config) {
        ProviderChoice::Ollama { endpoint, model } => {
            assert_eq!(endpoint, "http://127.0.0.1:11434");
            assert_eq!(model, "llama");
        }
        other => panic!("unexpected {other:?}"),
    }
}

#[test]
fn model_must_be_configured() {
    assert_eq!(require_model("  gpt  ").unwrap(), "gpt");
    match require_model(" ") {
        Err(AppError::Config(m)) => assert_eq!(m, "AI cleanup model is not configured"),
        other => panic!("unexpected {other:?}"),
    }
}

#[test]
fn responses_are_checked() {
    assert_eq!(accept_cleanup_response("  Done.  ").unwrap(), Some("Done.".to_string()));
    match accept_cleanup_response(" \n ") {
        Err(AppError::Config(m)) => assert_eq!(m, "AI cleanup returned an empty response"),
        other => panic!("unexpected {other:?}"),
    }
    let exact = "a".repeat(24 * 1024);
    assert!(accept_cleanup_response(&exact).is_ok());
    let too_long = "é".repeat(12 * 1024 + 1);
    match accept_cleanup_response(&too_long) {
        Err(AppError::Config(m)) => assert_eq!(m, "AI cleanup response was too large"),
        other => panic!("unexpected {other:?}"),
    }
}

#[test]
fn statuses_and_keys() {
    assert_eq!(ollama_status(Vec::new()).message, "Ollama is running, but no models were reported.");
    assert_eq!(ollama_status(vec!["m".to_string()]).message, "Ollama is available.");
    assert_eq!(api_key_to_save("  "), None);
    assert_eq!(api_key_to_save(" sk-1 "), Some("sk-1".to_string()));
    assert_eq!(cleanup_timeout_seconds(&AiCleanupConfig { timeout_seconds: 0, ..AiCleanupConfig::default() }), 1);
}

#[test]
fn api_key_storage_on_this_platform() {
    assert!(save_remote_api_key("   ").is_ok());
    match save_remote_api_key(" sk-test ") {
        Err(voxta::error::AppError::Config(m)) => {
            assert_eq!(m, "secure credential storage is not implemented on this platform")
        }
        other => panic!("unexpected {other:?}"),
    }
    assert!(!has_remote_api_key(&load_remote_api_key()));
    assert!(has_remote_api_key(&Ok(Some("k".to_string()))));
    assert!(!has_remote_api_key(&Err(voxta::error::AppError::Io("x".to_string()))));
}

#[test]
fn cleanup_falls_back_to_original() {
    assert_eq!(cleanup_or_original("raw".to_string(), Ok(Some("Clean.".to_string()))), "Clean.");
    assert_eq!(cleanup_or_original("raw".to_string(), Ok(None)), "raw");
    assert_eq!(
        cleanup_or_original("raw".to_string(), Err(voxta::error::AppError::Config("AI cleanup timed out".to_string()))),
        "raw"
    );
}

#[test]
fn chat_answer_takes_first_choice() {
    assert_eq!(first_choice_text(vec!["Clean.".to_string(), "Other".to_string()]), "Clean.");
    assert_eq!(first_choice_text(Vec::new()), "");
}
