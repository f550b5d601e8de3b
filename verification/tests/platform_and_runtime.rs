use voxta::audio::{microphone_list, select_input_device, InputDeviceChoice};
use voxta::config::AppConfig;
use voxta::error::AppError;
use voxta::permissions::PermissionGrant;
use voxta::platform::{macos, unsupported, windows};
use voxta::runtime::{runtime_status, user_message};
use voxta::state::RecordingState;
use voxta::focus::FocusSnapshot;
use voxta::runtime::{DictationRuntime, RuntimeEffect};
use voxta::audio::AudioWorker;
use voxta::transcription::{thread_count, transcript_from_segments, WhisperCppEngine};

#[test]
fn permission_models() {
    let w = windows::permission_status();
    assert_eq!(w.accessibility, PermissionGrant::NotRequired);
    assert_eq!(unsupported::permission_status().microphone, PermissionGrant::Unknown);
    assert_eq!(macos::permission_status_for(true, PermissionGrant::Granted).accessibility, PermissionGrant::Granted);
    assert_eq!(macos::permission_status_for(false, PermissionGrant::Unknown).accessibility, PermissionGrant::Denied);
}

#[test]
fn settings_pages() {
    assert_eq!(windows::settings_uri("microphone").unwrap(), "ms-settings:privacy-microphone");
    assert!(windows::settings_uri("camera").is_err());
    assert_eq!(
        macos::settings_url("accessibility").unwrap(),
        "x-apple.systempreferences:com.apple.preference.security?Privacy_Accessibility"
    );
    match unsupported::open_permission_settings("microphone") {
        Err(AppError::Permission(m)) => {
            assert_eq!(m, "permission settings are not implemented for this platform: microphone")
        }
        other => panic!("unexpected {other:?}"),
    }
}

#[test]
fn applescript_activation_is_escaped() {
    assert_eq!(macos::activate_script("Notes"), "tell application \"Notes\" to activate");
    assert_eq!(macos::activate_script("a\"b\\c"), "tell application \"a\\\"b\\\\c\" to activate");
}

#[test]
fn user_messages() {
    assert_eq!(
        user_message(&AppError::Audio("no default microphone is available".to_string())),
        "Microphone unavailable. Check the selected input device and microphone permission."
    );
    assert_eq!(user_message(&AppError::Audio("boom".to_string())), "Microphone error: boom");
    assert_eq!(user_message(&AppError::Json("bad".to_string())), "Settings file error: bad");
    let status = runtime_status(RecordingState::Idle, &AppConfig::default(), Some("ok".to_string()));
    assert_eq!(status.current_model, "base");
    assert!(status.enabled);
}

#[test]
fn microphone_listing_and_selection() {
    let names = vec![Some("Mic A".to_string()), None, Some("Mic B".to_string())];
    let list = microphone_list(Some("Mic B".to_string()), &names);
    assert_eq!(list.len(), 4);
    assert_eq!(list[0].name, "System default microphone");
    assert!(list[0].is_default && list[0].id.is_empty());
    assert_eq!(list[2].name, "Unnamed microphone");
    assert!(!list[1].is_default);
    assert!(list[3].is_default);
    assert_eq!(select_input_device(None, &names).unwrap(), InputDeviceChoice::SystemDefault);
    assert_eq!(select_input_device(Some("  "), &names).unwrap(), InputDeviceChoice::SystemDefault);
    assert_eq!(select_input_device(Some("Mic B"), &names).unwrap(), InputDeviceChoice::Listed(2));
    match select_input_device(Some("Mic C"), &names) {
        Err(AppError::Audio(m)) => assert_eq!(m, "selected microphone is unavailable: Mic C"),
        other => panic!("unexpected {other:?}"),
    }
}

#[test]
fn dictation_runtime_full_cycle() {
    let mut config = AppConfig::default();
    config.play_sounds = true;
    let mut rt = DictationRuntime::new();
    assert_eq!(rt.start_recording(&config).unwrap(), true);
    assert_eq!(rt.status(&config).message.as_deref(), Some("Starting recording..."));
    let focus = FocusSnapshot { app_name: Some("Notes".to_string()), ..FocusSnapshot::default() };
    rt.recording_started(focus, &config);
    assert_eq!(rt.status(&config).status, RecordingState::Recording);
    let stopped_focus = rt.stop_recording(&config).unwrap();
    assert_eq!(stopped_focus.app_name.as_deref(), Some("Notes"));
    assert!(rt.audio_stopped(true));
    assert_eq!(rt.transcribed(Ok("hello world".to_string())).as_deref(), Some("hello world"));
    assert_eq!(rt.status(&config).status, RecordingState::Inserting);
    rt.inserted(Ok(()));
    let status = rt.status(&config);
    assert_eq!(status.status, RecordingState::Idle);
    assert_eq!(status.message.as_deref(), Some("Dictation inserted."));
    let effects = rt.take_effects();
    let names: Vec<String> = effects
        .iter()
        .map(|e| match e {
            RuntimeEffect::ShowOverlay(s, m) => format!("show {s:?} {m}"),
            RuntimeEffect::HideOverlay => "hide".to_string(),
            RuntimeEffect::HideOverlayAfter(ms) => format!("hide after {ms}"),
            RuntimeEffect::PlayStartSound => "start sound".to_string(),
            RuntimeEffect::PlayStopSound => "stop sound".to_string(),
        })
        .collect();
    assert_eq!(
        names,
        vec![
            "show Recording Listening...",
            "start sound",
            "stop sound",
            "show Transcribing Transcribing...",
            "show Inserting Inserting...",
            "hide",
        ]
    );
    assert!(rt.take_effects().is_empty());
}

#[test]
fn dictation_runtime_failures_return_to_idle() {
    let config = AppConfig::default();
    let mut rt = DictationRuntime::new();
    // Disabled dictation does nothing.
    let mut off = config.clone();
    off.enabled = false;
    assert_eq!(rt.start_recording(&off).unwrap(), false);
    assert_eq!(rt.status(&config).message, None);
    // A microphone failure after the start is reported and the runtime is idle again.
    assert!(rt.start_recording(&config).unwrap());
    let err = rt.abort(AppError::Audio("selected microphone is unavailable: X".to_string()));
    assert!(matches!(err, AppError::Audio(_)));
    let status = rt.status(&config);
    assert_eq!(status.status, RecordingState::Idle);
    assert_eq!(
        status.message.as_deref(),
        Some("Microphone unavailable. Check the selected input device and microphone permission.")
    );
    let effects = rt.take_effects();
    assert!(matches!(&effects[0], RuntimeEffect::ShowOverlay(RecordingState::Error, _)));
    assert!(matches!(effects[1], RuntimeEffect::HideOverlayAfter(2000)));
    // Stopping while idle is refused by the state machine.
    match rt.stop_recording(&config) {
        Err(AppError::State(m)) => assert_eq!(m, "cannot transcribe while Idle"),
        other => panic!("unexpected {other:?}"),
    }
    // Starting twice is refused.
    assert!(rt.start_recording(&config).unwrap());
    match rt.start_recording(&config) {
        Err(AppError::State(m)) => assert_eq!(m, "cannot start recording while Recording"),
        other => panic!("unexpected {other:?}"),
    }
    rt.report_failure("Could not start recording", &AppError::State("cannot start recording while Recording".to_string()));
    assert_eq!(
        rt.status(&config).message.as_deref(),
        Some("Could not start recording: state error: cannot start recording while Recording")
    );
    assert_eq!(rt.status(&config).status, RecordingState::Idle);
}

#[test]
fn dictation_runtime_cancel_and_silence() {
    let config = AppConfig::default();
    let mut rt = DictationRuntime::new();
    assert!(rt.cancel_recording().is_err());
    assert_eq!(rt.status(&config).status, RecordingState::Idle);
    assert_eq!(rt.status(&config).message.as_deref(), Some("Recording cancelled."));
    rt.take_effects();
    assert!(rt.start_recording(&config).unwrap());
    rt.recording_started(voxta::focus::FocusSnapshot::default(), &config);
    assert!(rt.cancel_recording().is_ok());
    assert_eq!(rt.status(&config).status, RecordingState::Idle);
    let effects = rt.take_effects();
    assert!(matches!(effects.last(), Some(RuntimeEffect::HideOverlayAfter(350))));
    // Silence ends the dictation without transcribing.
    assert!(rt.start_recording(&config).unwrap());
    rt.stop_recording(&config).unwrap();
    assert!(!rt.audio_stopped(false));
    assert_eq!(rt.status(&config).message.as_deref(), Some("No speech detected."));
    assert_eq!(rt.status(&config).status, RecordingState::Idle);
    // A blank transcript too.
    assert!(rt.start_recording(&config).unwrap());
    rt.stop_recording(&config).unwrap();
    assert!(rt.audio_stopped(true));
    assert_eq!(rt.transcribed(Ok("   ".to_string())), None);
    assert_eq!(rt.status(&config).status, RecordingState::Idle);
    // A transcription failure.
    assert!(rt.start_recording(&config).unwrap());
    rt.stop_recording(&config).unwrap();
    assert_eq!(rt.transcribed(Err(AppError::Transcription("boom".to_string()))), None);
    assert_eq!(rt.status(&config).message.as_deref(), Some("Transcription failed: boom"));
    // An insertion failure.
    assert!(rt.start_recording(&config).unwrap());
    rt.stop_recording(&config).unwrap();
    assert!(rt.transcribed(Ok("hi".to_string())).is_some());
    rt.inserted(Err(AppError::TextInsertion("no".to_string())));
    assert_eq!(rt.status(&config).message.as_deref(), Some("Text insertion failed: no"));
    assert_eq!(rt.status(&config).status, RecordingState::Idle);
}

#[test]
fn unsupported_platform_adapters() {
    assert!(unsupported::capture_focus().unwrap().app_name.is_none());
    assert!(unsupported::restore_focus(&voxta::focus::FocusSnapshot::default()).is_ok());
    assert!(matches!(unsupported::load_secret("s", "a"), Ok(None)));
    match unsupported::save_secret("s", "a", "k") {
        Err(AppError::Config(m)) => assert_eq!(m, "secure credential storage is not implemented on this platform"),
        other => panic!("unexpected {other:?}"),
    }
}

#[test]
fn audio_worker_allows_one_session() {
    let mut worker: AudioWorker<u32> = AudioWorker::new();
    assert!(worker.check_start().is_ok());
    match worker.stop() {
        Err(AppError::Audio(m)) => assert_eq!(m, "no recording is active"),
        other => panic!("unexpected {other:?}"),
    }
    worker.started(7);
    match worker.check_start() {
        Err(AppError::Audio(m)) => assert_eq!(m, "a recording is already active"),
        other => panic!("unexpected {other:?}"),
    }
    assert_eq!(worker.stop().unwrap(), 7);
    assert!(worker.check_start().is_ok());
    worker.started(8);
    assert_eq!(worker.cancel(), Some(8));
    assert_eq!(worker.cancel(), None);
}

#[test]
fn whisper_segments_and_engine() {
    let segments = vec!["  Hello   there ".to_string(), "".to_string(), "\tworld.\n".to_string()];
    assert_eq!(transcript_from_segments(&segments), "Hello there world.");
    assert_eq!(transcript_from_segments(&Vec::new()), "");
    assert_eq!(thread_count(Some(16)), 8);
    assert_eq!(thread_count(Some(3)), 3);
    assert_eq!(thread_count(Some(0)), 1);
    assert_eq!(thread_count(None), 4);
    let manager = std::sync::Arc::new(voxta::models::ModelManager::from_dir(std::path::PathBuf::from("/tmp/none")));
    let engine = WhisperCppEngine::new(manager);
    let audio: voxta::audio::AudioBuffer<f32> =
        voxta::audio::AudioBuffer { sample_rate: 16_000, channels: 1, samples: vec![0.0; 10] };
    match engine.transcribe(&audio, &AppConfig::default()) {
        Err(AppError::Transcription(m)) => assert!(m.starts_with("Voxta was built without the `whisper` feature")),
        other => panic!("unexpected {other:?}"),
    }
}

#[test]
fn macos_script_replies() {
    assert_eq!(macos::parse_process_id("4242"), Some(4242));
    assert_eq!(macos::parse_process_id("+7"), Some(7));
    assert_eq!(macos::parse_process_id("4294967295"), Some(u32::MAX));
    assert_eq!(macos::parse_process_id("4294967296"), None);
    assert_eq!(macos::parse_process_id(""), None);
    assert_eq!(macos::parse_process_id("+"), None);
    assert_eq!(macos::parse_process_id("12a"), None);
    assert_eq!(macos::parse_process_id(" 12"), None);
    for text in ["4242", "+7", "4294967296", "", "12a", "-1", "007"] {
        assert_eq!(macos::parse_process_id(text), text.parse::<u32>().ok(), "{text}");
    }
    assert!(macos::probe_says_secure("TRUE"));
    assert!(macos::probe_says_secure("true"));
    assert!(!macos::probe_says_secure("false"));
    assert!(!macos::probe_says_secure("true "));
}
