use voxta::config::{VoiceCommandConfig, VoiceCommandMode};
use voxta::voice_commands::executor::{apply_command, process_transcript};
use voxta::voice_commands::history::CommandHistory;
use voxta::voice_commands::parser::{recognize_at, tokenize, CommandPhraseStyle, VoiceCommand};

fn prefix_config() -> VoiceCommandConfig {
    VoiceCommandConfig {
        enabled: true,
        mode: VoiceCommandMode::Prefix,
        prefix: "Voxta".to_string(),
    }
}

fn natural_config() -> VoiceCommandConfig {
    VoiceCommandConfig {
        enabled: true,
        mode: VoiceCommandMode::Natural,
        prefix: "Voxta".to_string(),
    }
}

#[test]
fn applies_new_line_and_paragraph() {
    let result = process_transcript(
        "Send me the report Voxta new line I will review it Voxta new paragraph tomorrow",
        &prefix_config(),
    );
    assert_eq!(result.text, "Send me the report\nI will review it\n\ntomorrow");
}

#[test]
fn deletes_last_word() {
    let result = process_transcript(
        "The meeting is Friday Monday Voxta delete last word",
        &prefix_config(),
    );
    assert_eq!(result.text, "The meeting is Friday");
}

#[test]
fn deletes_last_sentence() {
    let result = process_transcript(
        "First sentence. Second sentence Voxta delete last sentence",
        &prefix_config(),
    );
    assert_eq!(result.text, "First sentence.");
}

#[test]
fn undo_restores_previous_command_mutation() {
    let result = process_transcript(
        "The meeting is Friday Monday Voxta delete last word Voxta undo",
        &prefix_config(),
    );
    assert_eq!(result.text, "The meeting is Friday Monday");
}

#[test]
fn clear_dictation_continues_listening() {
    let result = process_transcript("Discard this Voxta clear dictation keep this", &prefix_config());
    assert_eq!(result.text, "keep this");
}

#[test]
fn cancel_dictation_marks_cancelled() {
    let result = process_transcript("hello Voxta cancel dictation world", &prefix_config());
    assert!(result.cancelled);
    assert_eq!(result.text, "");
}

#[test]
fn supports_natural_mode() {
    let result = process_transcript("hello new line world", &natural_config());
    assert_eq!(result.text, "hello\nworld");
}

#[test]
fn avoids_accidental_command_in_prefix_mode() {
    let result = process_transcript("please delete last word", &prefix_config());
    assert_eq!(result.text, "please delete last word");
    assert!(result.commands.is_empty());
}

#[test]
fn reports_stable_command_ids_for_overlapping_text() {
    let first = process_transcript("hello Voxta new line world", &prefix_config());
    let second = process_transcript("hello Voxta new line world again", &prefix_config());
    assert_eq!(first.commands[0].id, second.commands[0].id);
}

#[test]
fn recognizes_prefixed_command_with_punctuation() {
    let tokens = tokenize("hello Voxta, delete last word.");
    let command = recognize_at(&tokens, 1, CommandPhraseStyle::Prefix, "Voxta").unwrap();
    assert_eq!(command.command, VoiceCommand::DeleteLastWord);
    assert_eq!(command.start_token, 1);
}

#[test]
fn rejects_unprefixed_command_in_prefix_mode() {
    let tokens = tokenize("delete last word");
    assert!(recognize_at(&tokens, 0, CommandPhraseStyle::Prefix, "Voxta").is_none());
}

#[test]
fn recognizes_natural_command() {
    let tokens = tokenize("hello new line world");
    let command = recognize_at(&tokens, 1, CommandPhraseStyle::Natural, "Voxta").unwrap();
    assert_eq!(command.command, VoiceCommand::NewLine);
}

#[test]
fn avoids_longer_word_false_positive() {
    let tokens = tokenize("newsletter update");
    assert!(recognize_at(&tokens, 0, CommandPhraseStyle::Natural, "Voxta").is_none());
}

// Further cases.

#[test]
fn command_id_has_start_end_and_name() {
    let result = process_transcript("hello Voxta new line world", &prefix_config());
    assert_eq!(result.commands.len(), 1);
    assert_eq!(result.commands[0].id, "1:4:NewLine");
    assert_eq!(result.commands[0].start_token, 1);
    assert_eq!(result.commands[0].end_token, 4);
}

#[test]
fn disabled_commands_only_trim() {
    let config = VoiceCommandConfig {
        enabled: false,
        mode: VoiceCommandMode::Natural,
        prefix: "Voxta".to_string(),
    };
    let result = process_transcript("  hello new line world  ", &config);
    assert_eq!(result.text, "hello new line world");
    assert!(!result.cancelled);
    assert!(result.commands.is_empty());
}

#[test]
fn undo_without_history_keeps_text() {
    let result = process_transcript("hello undo", &natural_config());
    assert_eq!(result.text, "hello");
    assert_eq!(result.commands.len(), 1);
}

#[test]
fn undo_after_each_edit_restores_text() {
    for phrase in ["new line", "new paragraph", "delete last word", "delete last sentence", "clear dictation"] {
        let input = format!("One two. three four {phrase} undo");
        let result = process_transcript(&input, &natural_config());
        assert_eq!(result.text, "One two. three four", "phrase {phrase}");
    }
}

#[test]
fn delete_last_sentence_keeps_earlier_sentences_when_text_ends_with_mark() {
    let result = process_transcript("One. Two. Three. delete last sentence", &natural_config());
    assert_eq!(result.text, "One. Two.");
}

#[test]
fn delete_last_sentence_single_terminated_sentence_is_kept() {
    let result = process_transcript("Only one. delete last sentence", &natural_config());
    assert_eq!(result.text, "Only one.");
}

#[test]
fn delete_last_sentence_without_marks_clears() {
    let result = process_transcript("no marks here delete last sentence", &natural_config());
    assert_eq!(result.text, "");
}

#[test]
fn empty_prefix_recognizes_nothing_in_prefix_mode() {
    let config = VoiceCommandConfig {
        enabled: true,
        mode: VoiceCommandMode::Prefix,
        prefix: "  ".to_string(),
    };
    let result = process_transcript("hello new line world", &config);
    assert_eq!(result.text, "hello new line world");
}

#[test]
fn tokenize_drops_pure_punctuation_and_lowercases() {
    let tokens = tokenize("Hello , WORLD! it's");
    let normalized: Vec<&str> = tokens.iter().map(|t| t.normalized.as_str()).collect();
    assert_eq!(normalized, vec!["hello", "world", "it's"]);
    assert_eq!(tokens[1].original, "WORLD!");
}

#[test]
fn history_push_then_undo_returns_text() {
    let mut history = CommandHistory::default();
    assert_eq!(history.undo(), None);
    history.push("first");
    history.push("second");
    assert_eq!(history.undo().as_deref(), Some("second"));
    assert_eq!(history.undo().as_deref(), Some("first"));
    assert_eq!(history.undo(), None);
}

#[test]
fn undo_reverts_each_editing_command() {
    for command in [
        VoiceCommand::NewLine,
        VoiceCommand::NewParagraph,
        VoiceCommand::DeleteLastWord,
        VoiceCommand::DeleteLastSentence,
        VoiceCommand::ClearDictation,
    ] {
        let mut output: Vec<char> = "One. Two three ".chars().collect();
        let mut history = CommandHistory::default();
        history.push("earlier");
        let mut cancelled = false;
        let before = output.clone();
        apply_command(command, &mut output, &mut history, &mut cancelled);
        apply_command(VoiceCommand::Undo, &mut output, &mut history, &mut cancelled);
        assert_eq!(output, before, "{command:?}");
        assert!(!cancelled);
        assert_eq!(history.undo().as_deref(), Some("earlier"));
        assert_eq!(history.undo(), None);
    }
}
