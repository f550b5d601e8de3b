use voxta::config::AppConfig;
use voxta::transcription::cleanup::{apply_spoken_commands, cleanup_transcript, normalize_spaces};

#[test]
fn normalizes_repeated_whitespace() {
    assert_eq!(normalize_spaces(" one\t\t two\n three  "), " one two three ");
}

#[test]
fn applies_basic_spoken_commands() {
    assert_eq!(
        apply_spoken_commands("hello new line world new paragraph done"),
        "hello\nworld\n\ndone"
    );
}

#[test]
fn cleanup_preserves_code_like_text() {
    let config = AppConfig {
        trailing_space: false,
        ..AppConfig::default()
    };
    assert_eq!(cleanup_transcript("foo -> bar", &config), "foo -> bar");
}

#[test]
fn cleanup_capitalizes_sentence_and_trailing_space() {
    let config = AppConfig::default();
    assert_eq!(cleanup_transcript(" hello world ", &config), "Hello world ");
}

#[test]
fn cleanup_does_not_apply_voice_commands() {
    let config = AppConfig {
        trailing_space: false,
        ..AppConfig::default()
    };
    assert_eq!(
        cleanup_transcript("hello new line world", &config),
        "Hello new line world"
    );
}

// Further cases.

#[test]
fn normalize_spaces_is_idempotent_on_example() {
    let once = normalize_spaces("a \u{2003}\n b\t\tc");
    assert_eq!(once, "a b c");
    assert_eq!(normalize_spaces(&once), once);
}

#[test]
fn cleanup_of_blank_input_is_empty() {
    let config = AppConfig::default();
    assert_eq!(cleanup_transcript("   \t ", &config), "");
}

#[test]
fn cleanup_keeps_braces_lowercase() {
    let config = AppConfig {
        trailing_space: false,
        ..AppConfig::default()
    };
    assert_eq!(cleanup_transcript("fn {x}", &config), "fn {x}");
    assert_eq!(cleanup_transcript("a::b", &config), "a::b");
}

#[test]
fn spoken_commands_are_case_insensitive_and_trimmed() {
    assert_eq!(apply_spoken_commands("New Line hello NEW PARAGRAPH"), "hello");
    assert_eq!(apply_spoken_commands("a new"), "a new");
}

#[test]
fn cleanup_is_idempotent_on_examples() {
    for trailing_space in [true, false] {
        let config = AppConfig { trailing_space, ..AppConfig::default() };
        for input in ["  hello   world ", "foo -> bar", "", "   ", "already clean.", "x", "\tmulti\nline text  "] {
            let once = cleanup_transcript(input, &config);
            assert_eq!(cleanup_transcript(&once, &config), once, "{input:?}");
        }
    }
}
