//! Status reporting of the dictation runtime and the messages shown to the user.
use vstd::prelude::*;
use crate::config::AppConfig;
use crate::error::{error_detail, error_prefix, AppError};
use crate::focus::FocusSnapshot;
use crate::state::{RecordingState, RecordingStateMachine};
use crate::text::{chars_of, contains_chars, contains_seq, is_blank, push_str, string_from_chars, string_of, trim};

verus! {

/// What the settings page shows about dictation.
#[derive(Debug, Clone)]
pub struct RuntimeStatus {
    pub status: RecordingState,
    pub enabled: bool,
    pub current_model: String,
    pub message: Option<String>,
}

/// The status for a recording state, the settings and the last message.
pub fn runtime_status(state: RecordingState, config: &AppConfig, message: Option<String>) -> (r: RuntimeStatus)
    ensures
        r.status == state,
        r.enabled == config.enabled,
        r.current_model@ == config.model@,
        r.message == message,
{
    RuntimeStatus { status: state, enabled: config.enabled, current_model: config.model.clone(), message }
}

/// The text shown to the user for an error: a plain hint for a missing microphone,
/// otherwise a kind-specific prefix and the error's detail.
pub open spec fn user_message_spec(err: AppError) -> Seq<char> {
    match err {
        AppError::Audio(m) => if contains_seq(m@, "no default microphone"@) || contains_seq(m@, "unavailable"@) {
            "Microphone unavailable. Check the selected input device and microphone permission."@
        } else {
            "Microphone error: "@ + m@
        },
        AppError::Permission(m) => "Permission required: "@ + m@,
        AppError::Model(m) => "Model error: "@ + m@,
        AppError::Transcription(m) => "Transcription failed: "@ + m@,
        AppError::TextInsertion(m) => "Text insertion failed: "@ + m@,
        AppError::Shortcut(m) => "Global shortcut error: "@ + m@,
        AppError::State(m) => "Dictation state error: "@ + m@,
        AppError::Platform(m) => "Platform error: "@ + m@,
        AppError::Config(m) => "Configuration error: "@ + m@,
        AppError::Io(m) => "I/O error: "@ + m@,
        AppError::Json(m) => "Settings file error: "@ + m@,
        AppError::Network(m) => "Download interrupted: "@ + m@,
    }
}

/// The message shown to the user for an error.
pub fn user_message(err: &AppError) -> (r: String)
    ensures
        r@ == user_message_spec(*err),
{
    let prefix = match err {
        AppError::Audio(m) => {
            let v = chars_of(m.as_str());
            let a = chars_of("no default microphone");
            let b = chars_of("unavailable");
            if contains_chars(&v, &a) || contains_chars(&v, &b) {
                return string_of(
                    "Microphone unavailable. Check the selected input device and microphone permission.",
                );
            }
            "Microphone error: "
        },
        AppError::Permission(_) => "Permission required: ",
        AppError::Model(_) => "Model error: ",
        AppError::Transcription(_) => "Transcription failed: ",
        AppError::TextInsertion(_) => "Text insertion failed: ",
        AppError::Shortcut(_) => "Global shortcut error: ",
        AppError::State(_) => "Dictation state error: ",
        AppError::Platform(_) => "Platform error: ",
        AppError::Config(_) => "Configuration error: ",
        AppError::Io(_) => "I/O error: ",
        AppError::Json(_) => "Settings file error: ",
        AppError::Network(_) => "Download interrupted: ",
    };
    let mut v = chars_of(prefix);
    push_str(&mut v, err.detail().as_str());
    string_from_chars(&v)
}

/// Something the host does on the runtime's behalf: the overlay window and the
/// start and stop sounds.
#[derive(Debug, Clone)]
pub enum RuntimeEffect {
    ShowOverlay(RecordingState, String),
    HideOverlay,
    HideOverlayAfter(u64),
    PlayStartSound,
    PlayStopSound,
}

/// An effect with its text as a sequence.
pub enum EffectView {
    ShowOverlay(RecordingState, Seq<char>),
    HideOverlay,
    HideOverlayAfter(u64),
    PlayStartSound,
    PlayStopSound,
}

impl View for RuntimeEffect {
    type V = EffectView;

    open spec fn view(&self) -> EffectView {
        match self {
            RuntimeEffect::ShowOverlay(s, m) => EffectView::ShowOverlay(*s, m@),
            RuntimeEffect::HideOverlay => EffectView::HideOverlay,
            RuntimeEffect::HideOverlayAfter(ms) => EffectView::HideOverlayAfter(*ms),
            RuntimeEffect::PlayStartSound => EffectView::PlayStartSound,
            RuntimeEffect::PlayStopSound => EffectView::PlayStopSound,
        }
    }
}

/// The runtime as the contracts see it: the recording state, the focus captured
/// when recording started, the last message for the settings page and the
/// effects not yet handed to the host.
pub struct RuntimeView {
    pub state: RecordingState,
    pub focus: Option<FocusSnapshot>,
    pub message: Option<Seq<char>>,
    pub effects: Seq<EffectView>,
}

impl RuntimeView {
    /// Between two operations the runtime is never left cancelled or failed.
    pub open spec fn resting(self) -> bool {
        self.state != RecordingState::Cancelled && self.state != RecordingState::Error
    }
}

/// The decisions of one dictation, from the shortcut press to the inserted text.
/// The host performs the outside work between the steps (capturing focus, the
/// microphone, transcription, insertion) and the effects the steps queue.
pub struct DictationRuntime {
    machine: RecordingStateMachine,
    active_focus: Option<FocusSnapshot>,
    last_message: Option<String>,
    effects: Vec<RuntimeEffect>,
}

impl View for DictationRuntime {
    type V = RuntimeView;

    closed spec fn view(&self) -> RuntimeView {
        RuntimeView {
            state: self.machine@,
            focus: self.active_focus,
            message: match self.last_message {
                Some(m) => Some(m@),
                None => None,
            },
            effects: Seq::new(self.effects@.len(), |i: int| self.effects@[i]@),
        }
    }
}

/// `after` is `before` with the state, message and queued effects given.
pub open spec fn moved(
    before: RuntimeView,
    after: RuntimeView,
    state: RecordingState,
    message: Option<Seq<char>>,
    added: Seq<EffectView>,
) -> bool {
    &&& after.state == state
    &&& after.message == message
    &&& after.effects == before.effects + added
}

/// The effects of a failure with the message `m`: the error overlay, hidden after two seconds.
pub open spec fn failure_effects(m: Seq<char>) -> Seq<EffectView> {
    seq![EffectView::ShowOverlay(RecordingState::Error, m), EffectView::HideOverlayAfter(2000)]
}

/// The effects when no speech was heard.
pub open spec fn no_speech_effects() -> Seq<EffectView> {
    seq![EffectView::ShowOverlay(RecordingState::Idle, "No speech detected"@), EffectView::HideOverlayAfter(900)]
}

impl DictationRuntime {
    /// An idle runtime with no message and nothing queued.
    pub fn new() -> (r: Self)
        ensures
            r@.state == RecordingState::Idle,
            r@.focus is None,
            r@.message is None,
            r@.effects == Seq::<EffectView>::empty(),
            r@.resting(),
    {
        let r = DictationRuntime {
            machine: RecordingStateMachine::default(),
            active_focus: None,
            last_message: None,
            effects: Vec::new(),
        };
        assert(r@.effects =~= Seq::<EffectView>::empty());
        r
    }

    fn emit(&mut self, e: RuntimeEffect)
        ensures
            final(self)@.effects == old(self)@.effects.push(e@),
            final(self)@.state == old(self)@.state,
            final(self)@.focus == old(self)@.focus,
            final(self)@.message == old(self)@.message,
    {
        self.effects.push(e);
        assert(self@.effects =~= old(self)@.effects.push(e@));
    }

    fn set_message(&mut self, m: String)
        ensures
            final(self)@.message == Some(m@),
            final(self)@.effects == old(self)@.effects,
            final(self)@.state == old(self)@.state,
            final(self)@.focus == old(self)@.focus,
    {
        self.last_message = Some(m);
    }

    /// The status for the settings page.
    pub fn status(&self, config: &AppConfig) -> (r: RuntimeStatus)
        ensures
            r.status == self@.state,
            r.enabled == config.enabled,
            r.current_model@ == config.model@,
            match r.message {
                Some(m) => self@.message == Some(m@),
                None => self@.message is None,
            },
    {
        runtime_status(self.machine.state(), config, self.last_message.clone())
    }

    /// Hands the queued effects to the host, in the order they were queued.
    pub fn take_effects(&mut self) -> (r: Vec<RuntimeEffect>)
        ensures
            r@.len() == old(self)@.effects.len(),
            forall|i: int| 0 <= i < r@.len() ==> #[trigger] r@[i]@ == old(self)@.effects[i],
            final(self)@.effects == Seq::<EffectView>::empty(),
            final(self)@.state == old(self)@.state,
            final(self)@.focus == old(self)@.focus,
            final(self)@.message == old(self)@.message,
    {
        let mut r: Vec<RuntimeEffect> = Vec::new();
        std::mem::swap(&mut r, &mut self.effects);
        assert(self@.effects =~= Seq::<EffectView>::empty());
        r
    }

    fn fail_and_idle(&mut self, message: String)
        ensures
            moved(old(self)@, final(self)@, RecordingState::Idle, Some(message@), failure_effects(message@)),
            final(self)@.focus == old(self)@.focus,
    {
        let ghost m = message@;
        self.machine.fail();
        let shown = message.clone();
        self.set_message(message);
        self.emit(RuntimeEffect::ShowOverlay(RecordingState::Error, shown));
        self.emit(RuntimeEffect::HideOverlayAfter(2000));
        self.machine.finish();
        assert(self@.effects =~= old(self)@.effects + failure_effects(m));
    }

    /// Reports an error: it becomes the message, the error overlay shows and the
    /// runtime returns to idle.
    pub fn report_error(&mut self, message: &str)
        ensures
            moved(old(self)@, final(self)@, RecordingState::Idle, Some(message@), failure_effects(message@)),
            final(self)@.focus == old(self)@.focus,
            final(self)@.resting(),
    {
        self.fail_and_idle(string_of(message));
    }

    /// An outside step failed: its user message is reported as by `report_error`,
    /// and the error is handed back.
    pub fn abort(&mut self, err: AppError) -> (r: AppError)
        ensures
            r == err,
            moved(
                old(self)@,
                final(self)@,
                RecordingState::Idle,
                Some(user_message_spec(err)),
                failure_effects(user_message_spec(err)),
            ),
            final(self)@.focus == old(self)@.focus,
            final(self)@.resting(),
    {
        let m = user_message(&err);
        self.fail_and_idle(m);
        err
    }

    /// The shortcut asked to start. Disabled dictation does nothing (`Ok(false)`);
    /// otherwise the message becomes "Starting recording..." and the state machine
    /// must leave idle, else its error comes back. `Ok(true)`: the host now captures
    /// the focus and starts the microphone.
    pub fn start_recording(&mut self, config: &AppConfig) -> (r: Result<bool, AppError>)
        ensures
            !config.enabled ==> r == Ok::<bool, AppError>(false) && final(self)@ == old(self)@,
            config.enabled && old(self)@.state == RecordingState::Idle ==> r == Ok::<bool, AppError>(true)
                && moved(old(self)@, final(self)@, RecordingState::Recording, Some("Starting recording..."@), Seq::empty())
                && final(self)@.focus == old(self)@.focus,
            config.enabled && old(self)@.state != RecordingState::Idle ==> (r matches Err(AppError::State(m))
                && m@ == "cannot start recording"@ + " while "@ + crate::state::state_name(old(self)@.state))
                && moved(old(self)@, final(self)@, old(self)@.state, Some("Starting recording..."@), Seq::empty())
                && final(self)@.focus == old(self)@.focus,
            old(self)@.resting() ==> final(self)@.resting(),
    {
        if !config.enabled {
            return Ok(false);
        }
        self.set_message(string_of("Starting recording..."));
        let ghost mid = self@;
        match self.machine.start_recording() {
            Ok(()) => {
                assert(self@.effects =~= mid.effects + Seq::<EffectView>::empty());
                Ok(true)
            },
            Err(e) => {
                assert(self@.effects =~= mid.effects + Seq::<EffectView>::empty());
                Err(e)
            },
        }
    }

    /// The focus was captured and the microphone started: the focus is kept for
    /// the insertion, the overlay shows "Listening..." and the start sound plays
    /// when sounds are on.
    pub fn recording_started(&mut self, focus: FocusSnapshot, config: &AppConfig)
        ensures
            final(self)@.focus == Some(focus),
            moved(
                old(self)@,
                final(self)@,
                old(self)@.state,
                old(self)@.message,
                if config.play_sounds {
                    seq![EffectView::ShowOverlay(RecordingState::Recording, "Listening..."@), EffectView::PlayStartSound]
                } else {
                    seq![EffectView::ShowOverlay(RecordingState::Recording, "Listening..."@)]
                },
            ),
            old(self)@.resting() ==> final(self)@.resting(),
    {
        self.active_focus = Some(focus);
        let ghost before = old(self)@;
        self.emit(RuntimeEffect::ShowOverlay(RecordingState::Recording, string_of("Listening...")));
        if config.play_sounds {
            self.emit(RuntimeEffect::PlayStartSound);
        }
        proof {
            if config.play_sounds {
                assert(self@.effects =~= before.effects + seq![
                    EffectView::ShowOverlay(RecordingState::Recording, "Listening..."@),
                    EffectView::PlayStartSound,
                ]);
            } else {
                assert(self@.effects =~= before.effects + seq![
                    EffectView::ShowOverlay(RecordingState::Recording, "Listening..."@),
                ]);
            }
        }
    }

    /// The shortcut asked to cancel (the host has stopped the microphone): the
    /// focus is dropped, the cancelled overlay shows for a moment and the runtime
    /// returns to idle. The state machine's refusal, when it was not recording,
    /// is handed back.
    pub fn cancel_recording(&mut self) -> (r: Result<(), AppError>)
        ensures
            final(self)@.focus is None,
            moved(
                old(self)@,
                final(self)@,
                RecordingState::Idle,
                Some("Recording cancelled."@),
                seq![EffectView::ShowOverlay(RecordingState::Cancelled, "Cancelled"@), EffectView::HideOverlayAfter(350)],
            ),
            old(self)@.state == RecordingState::Recording ==> r is Ok,
            old(self)@.state != RecordingState::Recording ==> (r matches Err(AppError::State(m))
                && m@ == "cannot cancel"@ + " while "@ + crate::state::state_name(old(self)@.state)),
            final(self)@.resting(),
    {
        let ghost before = self@;
        self.active_focus = None;
        let result = self.machine.cancel();
        self.set_message(string_of("Recording cancelled."));
        self.emit(RuntimeEffect::ShowOverlay(RecordingState::Cancelled, string_of("Cancelled")));
        self.emit(RuntimeEffect::HideOverlayAfter(350));
        self.machine.finish();
        assert(self@.effects =~= before.effects + seq![
            EffectView::ShowOverlay(RecordingState::Cancelled, "Cancelled"@),
            EffectView::HideOverlayAfter(350),
        ]);
        result
    }

    /// The shortcut asked to stop. The captured focus is taken (nothing known when
    /// there was none); the state machine must move to transcribing, else its error
    /// comes back. Then the stop sound plays when sounds are on and the overlay
    /// shows "Transcribing...". `Ok(focus)`: the host now stops the microphone.
    pub fn stop_recording(&mut self, config: &AppConfig) -> (r: Result<FocusSnapshot, AppError>)
        ensures
            final(self)@.focus is None,
            old(self)@.state == RecordingState::Recording ==> (r matches Ok(f)
                && (old(self)@.focus matches Some(g) ==> f == g)
                && (old(self)@.focus is None ==> f.app_name is None && f.window_title is None
                    && f.process_id is None && f.native_window_id is None && !f.secure_input))
                && moved(
                    old(self)@,
                    final(self)@,
                    RecordingState::Transcribing,
                    old(self)@.message,
                    if config.play_sounds {
                        seq![EffectView::PlayStopSound, EffectView::ShowOverlay(RecordingState::Transcribing, "Transcribing..."@)]
                    } else {
                        seq![EffectView::ShowOverlay(RecordingState::Transcribing, "Transcribing..."@)]
                    },
                ),
            old(self)@.state != RecordingState::Recording ==> (r matches Err(AppError::State(m))
                && m@ == "cannot transcribe"@ + " while "@ + crate::state::state_name(old(self)@.state))
                && moved(old(self)@, final(self)@, old(self)@.state, old(self)@.message, Seq::empty()),
            old(self)@.resting() ==> final(self)@.resting(),
    {
        let ghost before = self@;
        let focus = match self.active_focus.take() {
            Some(f) => f,
            None => FocusSnapshot::default(),
        };
        if let Err(e) = self.machine.start_transcribing() {
            assert(self@.effects =~= before.effects + Seq::<EffectView>::empty());
            return Err(e);
        }
        if config.play_sounds {
            self.emit(RuntimeEffect::PlayStopSound);
        }
        self.emit(RuntimeEffect::ShowOverlay(RecordingState::Transcribing, string_of("Transcribing...")));
        proof {
            if config.play_sounds {
                assert(self@.effects =~= before.effects + seq![
                    EffectView::PlayStopSound,
                    EffectView::ShowOverlay(RecordingState::Transcribing, "Transcribing..."@),
                ]);
            } else {
                assert(self@.effects =~= before.effects + seq![
                    EffectView::ShowOverlay(RecordingState::Transcribing, "Transcribing..."@),
                ]);
            }
        }
        Ok(focus)
    }

    /// The microphone stopped. A recording too short or silent ends here: "No
    /// speech detected." is reported and the runtime returns to idle (`false`).
    /// Otherwise the host transcribes it (`true`).
    pub fn audio_stopped(&mut self, has_speech: bool) -> (r: bool)
        ensures
            r == has_speech,
            has_speech ==> final(self)@ == old(self)@,
            !has_speech ==> moved(old(self)@, final(self)@, RecordingState::Idle, Some("No speech detected."@), no_speech_effects()),
            final(self)@.focus == old(self)@.focus,
            old(self)@.resting() ==> final(self)@.resting(),
    {
        if has_speech {
            return true;
        }
        let ghost before = self@;
        self.set_message(string_of("No speech detected."));
        self.emit(RuntimeEffect::ShowOverlay(RecordingState::Idle, string_of("No speech detected")));
        self.emit(RuntimeEffect::HideOverlayAfter(900));
        self.machine.finish();
        assert(self@.effects =~= before.effects + no_speech_effects());
        false
    }

    /// Transcription finished. A failure is reported as by `abort`; blank text ends
    /// the dictation with "No speech detected."; otherwise the state machine must
    /// move to inserting (its refusal is reported as by `abort`), the overlay shows
    /// "Inserting..." and the text comes back for the host to insert.
    pub fn transcribed(&mut self, text: Result<String, AppError>) -> (r: Option<String>)
        ensures
            final(self)@.focus == old(self)@.focus,
            final(self)@.resting(),
            match text {
                Err(e) => r is None && moved(
                    old(self)@,
                    final(self)@,
                    RecordingState::Idle,
                    Some(user_message_spec(e)),
                    failure_effects(user_message_spec(e)),
                ),
                Ok(t) => if trim(t@).len() == 0 {
                    r is None && moved(
                        old(self)@,
                        final(self)@,
                        RecordingState::Idle,
                        Some("No speech detected."@),
                        no_speech_effects().push(EffectView::HideOverlay),
                    )
                } else if old(self)@.state == RecordingState::Transcribing {
                    r matches Some(s) && s@ == t@ && moved(
                        old(self)@,
                        final(self)@,
                        RecordingState::Inserting,
                        old(self)@.message,
                        seq![EffectView::ShowOverlay(RecordingState::Inserting, "Inserting..."@)],
                    )
                } else {
                    let m = "Dictation state error: "@ + ("cannot insert"@ + " while "@ + crate::state::state_name(old(self)@.state));
                    r is None && moved(old(self)@, final(self)@, RecordingState::Idle, Some(m), failure_effects(m))
                },
            },
    {
        let ghost before = self@;
        match text {
            Err(e) => {
                self.abort(e);
                None
            },
            Ok(t) => {
                if is_blank(t.as_str()) {
                    self.set_message(string_of("No speech detected."));
                    self.emit(RuntimeEffect::ShowOverlay(RecordingState::Idle, string_of("No speech detected")));
                    self.emit(RuntimeEffect::HideOverlayAfter(900));
                    self.machine.finish();
                    self.emit(RuntimeEffect::HideOverlay);
                    assert(self@.effects =~= before.effects + no_speech_effects().push(EffectView::HideOverlay));
                    return None;
                }
                match self.machine.start_inserting() {
                    Err(e) => {
                        self.abort(e);
                        None
                    },
                    Ok(()) => {
                        self.emit(RuntimeEffect::ShowOverlay(RecordingState::Inserting, string_of("Inserting...")));
                        assert(self@.effects =~= before.effects + seq![
                            EffectView::ShowOverlay(RecordingState::Inserting, "Inserting..."@),
                        ]);
                        Some(t)
                    },
                }
            },
        }
    }

    /// The focus was restored and the text inserted, or one of the two failed. A
    /// failure is reported as by `abort`; success reports "Dictation inserted.",
    /// returns to idle and hides the overlay.
    pub fn inserted(&mut self, result: Result<(), AppError>)
        ensures
            final(self)@.focus == old(self)@.focus,
            final(self)@.resting(),
            match result {
                Err(e) => moved(
                    old(self)@,
                    final(self)@,
                    RecordingState::Idle,
                    Some(user_message_spec(e)),
                    failure_effects(user_message_spec(e)),
                ),
                Ok(()) => moved(
                    old(self)@,
                    final(self)@,
                    RecordingState::Idle,
                    Some("Dictation inserted."@),
                    seq![EffectView::HideOverlay],
                ),
            },
    {
        let ghost before = self@;
        match result {
            Err(e) => {
                self.abort(e);
            },
            Ok(()) => {
                self.set_message(string_of("Dictation inserted."));
                self.machine.finish();
                self.emit(RuntimeEffect::HideOverlay);
                assert(self@.effects =~= before.effects + seq![EffectView::HideOverlay]);
            },
        }
    }

    /// A shortcut action failed: `"<action>: <error>"` is reported as by `report_error`.
    pub fn report_failure(&mut self, action: &str, err: &AppError)
        ensures
            ({
                let m = action@ + ": "@ + error_prefix(*err) + error_detail(*err);
                moved(old(self)@, final(self)@, RecordingState::Idle, Some(m), failure_effects(m))
            }),
            final(self)@.focus == old(self)@.focus,
            final(self)@.resting(),
    {
        let mut v = chars_of(action);
        push_str(&mut v, ": ");
        let rendered = err.to_string();
        push_str(&mut v, rendered.as_str());
        assert(v@ =~= action@ + ": "@ + error_prefix(*err) + error_detail(*err));
        self.fail_and_idle(string_from_chars(&v));
    }
}

} // verus!
