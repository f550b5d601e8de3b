//! Settings of the dictation app and their validation.
use vstd::prelude::*;
use crate::error::AppError;
use crate::text::{chars_of, is_blank, push_str, string_from_chars, string_of, trim};

verus! {

/// How dictated text is put into the focused application.
#[derive(Debug, Clone, Copy, PartialEq, Eq, Structural)]
pub enum InsertionMode {
    Auto,
    Direct,
    Clipboard,
}

/// Whether the shortcut is held while talking or pressed to start and again to stop.
#[derive(Debug, Clone, Copy, PartialEq, Eq, Structural)]
pub enum ShortcutBehavior {
    Hold,
    Toggle,
}

/// How voice commands are recognised: bare phrases, or phrases after a spoken prefix.
#[derive(Debug, Clone, Copy, PartialEq, Eq, Structural)]
pub enum VoiceCommandMode {
    Natural,
    Prefix,
}

/// Live-preview quality, trading latency against context.
#[derive(Debug, Clone, Copy, PartialEq, Eq, Structural)]
pub enum StreamingQuality {
    Fast,
    Balanced,
    Accurate,
}

/// Which service, if any, polishes the final transcript.
#[derive(Debug, Clone, Copy, PartialEq, Eq, Structural)]
pub enum AiCleanupProvider {
    Disabled,
    Ollama,
    OpenAiCompatible,
}

/// The tone that AI clean-up is asked for.
#[derive(Debug, Clone, Copy, PartialEq, Eq, Structural)]
pub enum CleanupStyle {
    Light,
    Professional,
    Casual,
    Concise,
    Custom,
}

/// Voice command settings.
#[derive(Debug, Clone)]
pub struct VoiceCommandConfig {
    pub enabled: bool,
    pub mode: VoiceCommandMode,
    pub prefix: String,
}

impl Default for VoiceCommandConfig {
    fn default() -> (r: Self)
        ensures
            r.enabled,
            r.mode == VoiceCommandMode::Prefix,
            r.prefix@ == "Voxta"@,
    {
        VoiceCommandConfig { enabled: true, mode: VoiceCommandMode::Prefix, prefix: string_of("Voxta") }
    }
}

/// Optional AI clean-up settings.
#[derive(Debug, Clone)]
pub struct AiCleanupConfig {
    pub enabled: bool,
    pub provider: AiCleanupProvider,
    pub endpoint: String,
    pub model: String,
    pub style: CleanupStyle,
    pub custom_instructions: String,
    pub timeout_seconds: u64,
}

impl Default for AiCleanupConfig {
    /// Clean-up is off and no provider is selected.
    fn default() -> (r: Self)
        ensures
            !r.enabled,
            r.provider == AiCleanupProvider::Disabled,
            r.endpoint@ == Seq::<char>::empty(),
            r.model@ == Seq::<char>::empty(),
            r.style == CleanupStyle::Light,
            r.custom_instructions@ == Seq::<char>::empty(),
            r.timeout_seconds == 8,
    {
        AiCleanupConfig {
            enabled: false,
            provider: AiCleanupProvider::Disabled,
            endpoint: String::new(),
            model: String::new(),
            style: CleanupStyle::Light,
            custom_instructions: String::new(),
            timeout_seconds: 8,
        }
    }
}

/// The persisted settings of the app.
#[derive(Debug, Clone)]
pub struct AppConfig {
    pub enabled: bool,
    pub shortcut: String,
    pub shortcut_behavior: ShortcutBehavior,
    pub microphone_id: String,
    pub model: String,
    pub language: String,
    pub launch_at_login: bool,
    pub play_sounds: bool,
    pub spoken_commands: bool,
    pub trailing_space: bool,
    pub insertion_mode: InsertionMode,
    pub onboarding_complete: bool,
}

pub open spec fn default_shortcut_spec() -> Seq<char> {
    "Ctrl+Alt+Space"@
}

pub open spec fn default_model_spec() -> Seq<char> {
    "base"@
}

pub open spec fn default_language_spec() -> Seq<char> {
    "auto"@
}

/// The shortcut used when none is configured.
pub fn default_shortcut() -> (r: String)
    ensures
        r@ == default_shortcut_spec(),
{
    string_of("Ctrl+Alt+Space")
}

impl Default for AppConfig {
    fn default() -> (r: Self)
        ensures
            r.enabled,
            r.shortcut@ == default_shortcut_spec(),
            r.shortcut_behavior == ShortcutBehavior::Hold,
            r.microphone_id@ == Seq::<char>::empty(),
            r.model@ == default_model_spec(),
            r.language@ == default_language_spec(),
            !r.launch_at_login,
            r.play_sounds,
            r.spoken_commands,
            r.trailing_space,
            r.insertion_mode == InsertionMode::Auto,
            !r.onboarding_complete,
    {
        AppConfig {
            enabled: true,
            shortcut: default_shortcut(),
            shortcut_behavior: ShortcutBehavior::Hold,
            microphone_id: String::new(),
            model: string_of("base"),
            language: string_of("auto"),
            launch_at_login: false,
            play_sounds: true,
            spoken_commands: true,
            trailing_space: true,
            insertion_mode: InsertionMode::Auto,
            onboarding_complete: false,
        }
    }
}

/// The value a text setting takes after validation: blank values fall back.
pub open spec fn or_default(value: Seq<char>, fallback: Seq<char>) -> Seq<char> {
    if trim(value).len() == 0 {
        fallback
    } else {
        value
    }
}

/// Whether `c` is what validation makes of `orig`: blank shortcut, model and
/// language fall back to their defaults, everything else is kept.
pub open spec fn validated(orig: AppConfig, c: AppConfig) -> bool {
    &&& c.shortcut@ == or_default(orig.shortcut@, default_shortcut_spec())
    &&& c.model@ == or_default(orig.model@, default_model_spec())
    &&& c.language@ == or_default(orig.language@, default_language_spec())
    &&& c.enabled == orig.enabled
    &&& c.shortcut_behavior == orig.shortcut_behavior
    &&& c.microphone_id@ == orig.microphone_id@
    &&& c.launch_at_login == orig.launch_at_login
    &&& c.play_sounds == orig.play_sounds
    &&& c.spoken_commands == orig.spoken_commands
    &&& c.trailing_space == orig.trailing_space
    &&& c.insertion_mode == orig.insertion_mode
    &&& c.onboarding_complete == orig.onboarding_complete
}

impl AppConfig {
    /// Replaces a blank shortcut, model or language by its default.
    pub fn validate(self) -> (r: Self)
        ensures
            validated(self, r),
    {
        let mut c = self;
        if is_blank(c.shortcut.as_str()) {
            c.shortcut = default_shortcut();
        }
        if is_blank(c.model.as_str()) {
            c.model = string_of("base");
        }
        if is_blank(c.language.as_str()) {
            c.language = string_of("auto");
        }
        c
    }
}

/// Validation is idempotent, and a validated configuration has no blank
/// shortcut, model or language.
pub proof fn law_validate_idempotent(a: AppConfig, b: AppConfig, c: AppConfig)
    requires
        validated(a, b),
        validated(b, c),
    ensures
        c.shortcut@ == b.shortcut@,
        c.model@ == b.model@,
        c.language@ == b.language@,
        trim(b.shortcut@).len() > 0,
        trim(b.model@).len() > 0,
        trim(b.language@).len() > 0,
{
    lemma_defaults_not_blank();
}

/// The fallback values are not blank.
pub proof fn lemma_defaults_not_blank()
    ensures
        trim(default_shortcut_spec()).len() > 0,
        trim(default_model_spec()).len() > 0,
        trim(default_language_spec()).len() > 0,
{
    reveal_strlit("Ctrl+Alt+Space");
    reveal_strlit("base");
    reveal_strlit("auto");
    lemma_not_blank_when_char(default_shortcut_spec(), 0);
    lemma_not_blank_when_char(default_model_spec(), 0);
    lemma_not_blank_when_char(default_language_spec(), 0);
}

/// A sequence with a non-whitespace character is not blank.
pub proof fn lemma_not_blank_when_char(s: Seq<char>, i: int)
    requires
        0 <= i < s.len(),
        !crate::text::is_ws(s[i]),
    ensures
        trim(s).len() > 0,
{
    crate::text::lemma_trim_empty_iff(s);
    crate::text::lemma_trim_end_prefix(s);
}

/// Where the settings file lives.
#[verifier::external_type_specification]
#[verifier::external_body]
pub struct ExPathBuf(std::path::PathBuf);

/// The location of the settings file.
#[derive(Debug)]
pub struct ConfigStore {
    path: std::path::PathBuf,
}

impl ConfigStore {
    pub closed spec fn spec_path(&self) -> std::path::PathBuf {
        self.path
    }

    /// A store for the settings file at `path`.
    pub fn from_path(path: std::path::PathBuf) -> (r: Self)
        ensures
            r.spec_path() == path,
    {
        ConfigStore { path }
    }

    /// The settings file's location.
    pub fn path(&self) -> (r: &std::path::PathBuf)
        ensures
            *r == self.spec_path(),
    {
        &self.path
    }
}

/// Whether `c` holds the default settings.
pub open spec fn is_default_config(c: AppConfig) -> bool {
    &&& c.enabled
    &&& c.shortcut@ == default_shortcut_spec()
    &&& c.shortcut_behavior == ShortcutBehavior::Hold
    &&& c.microphone_id@ == Seq::<char>::empty()
    &&& c.model@ == default_model_spec()
    &&& c.language@ == default_language_spec()
    &&& !c.launch_at_login
    &&& c.play_sounds
    &&& c.spoken_commands
    &&& c.trailing_space
    &&& c.insertion_mode == InsertionMode::Auto
    &&& !c.onboarding_complete
}

/// What loading the settings file decided: the settings (or the error to
/// report), whether the default settings are to be written to the file, and
/// whether the unreadable file is to be kept as a backup first.
#[derive(Debug)]
pub struct ConfigLoad {
    pub result: Result<AppConfig, AppError>,
    pub write_defaults: bool,
    pub back_up_corrupt: bool,
}

/// Decides what loading gives, from what reading the file gave: `None` when
/// there is no file (the defaults are used and written), the parsed settings
/// (validated), or the parse error's text (the file is backed up, the defaults
/// are written, and the reset is reported as an error).
pub fn decide_config_load(read: Option<Result<AppConfig, String>>) -> (r: ConfigLoad)
    ensures
        match read {
            None => r.write_defaults && !r.back_up_corrupt && (r.result matches Ok(c) && is_default_config(c)),
            Some(Ok(parsed)) => !r.write_defaults && !r.back_up_corrupt && (r.result matches Ok(c)
                && validated(parsed, c)),
            Some(Err(detail)) => r.write_defaults && r.back_up_corrupt && (r.result matches Err(AppError::Config(m))
                && m@ == "configuration was corrupt and has been reset: "@ + detail@),
        },
{
    match read {
        None => ConfigLoad { result: Ok(AppConfig::default()), write_defaults: true, back_up_corrupt: false },
        Some(Ok(parsed)) => ConfigLoad { result: Ok(parsed.validate()), write_defaults: false, back_up_corrupt: false },
        Some(Err(detail)) => {
            let mut m = chars_of("configuration was corrupt and has been reset: ");
            push_str(&mut m, detail.as_str());
            ConfigLoad {
                result: Err(AppError::Config(string_from_chars(&m))),
                write_defaults: true,
                back_up_corrupt: true,
            }
        },
    }
}

} // verus!
