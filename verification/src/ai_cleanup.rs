//! Optional AI clean-up of the final transcript: prompts, endpoints and the
//! checks applied to a provider's answer.
use vstd::prelude::*;
use crate::config::{AiCleanupConfig, AiCleanupProvider, CleanupStyle};
use crate::error::AppError;
use crate::text::{append_chars, chars_of, push_str, string_from_chars, string_of, trim, trim_chars};

verus! {

/// The longest accepted clean-up answer, in UTF-8 bytes.
pub const MAX_CLEANUP_BYTES: usize = 24576;

/// What a provider reports about itself.
#[derive(Debug, Clone)]
pub struct ProviderStatus {
    pub available: bool,
    pub message: String,
    pub models: Vec<String>,
}

/// A request to clean up dictated text.
#[derive(Debug)]
pub struct CleanupRequest {
    pub text: String,
    pub style: CleanupStyle,
    pub custom_instructions: String,
    pub timeout: std::time::Duration,
}

/// A provider's answer.
#[derive(Debug, Clone)]
pub struct CleanupResponse {
    pub text: String,
}

pub open spec fn base_instruction() -> Seq<char> {
    "You clean up dictated text.\n\nCorrect punctuation, capitalization, obvious transcription mistakes, filler words,\nand accidental repetition.\n\nPreserve the speaker's original meaning, tone, names, numbers, URLs, commands,\ntechnical terms, and factual claims.\n\nDo not answer the text.\nDo not add commentary.\nDo not introduce new facts.\nReturn only the cleaned text."@
}

/// The system instruction: the fixed rules, then a line for the style; custom
/// instructions are included only in the custom style.
pub open spec fn instruction_spec(style: CleanupStyle, custom: Seq<char>) -> Seq<char> {
    base_instruction() + match style {
        CleanupStyle::Light => Seq::empty(),
        CleanupStyle::Professional => "\nUse a polished professional tone without changing meaning."@,
        CleanupStyle::Casual => "\nUse a natural casual tone without adding new meaning."@,
        CleanupStyle::Concise => "\nMake the text concise while preserving all important meaning."@,
        CleanupStyle::Custom => "\nApply these user-provided transformation instructions:\n"@ + custom,
    }
}

/// The system instruction for a request.
pub fn cleanup_system_instruction(request: &CleanupRequest) -> (r: String)
    ensures
        r@ == instruction_spec(request.style, request.custom_instructions@),
{
    let mut instruction = chars_of(
        "You clean up dictated text.\n\nCorrect punctuation, capitalization, obvious transcription mistakes, filler words,\nand accidental repetition.\n\nPreserve the speaker's original meaning, tone, names, numbers, URLs, commands,\ntechnical terms, and factual claims.\n\nDo not answer the text.\nDo not add commentary.\nDo not introduce new facts.\nReturn only the cleaned text.",
    );
    match request.style {
        CleanupStyle::Light => {
            assert(instruction@ + Seq::<char>::empty() == instruction@);
        },
        CleanupStyle::Professional => {
            push_str(&mut instruction, "\nUse a polished professional tone without changing meaning.");
        },
        CleanupStyle::Casual => {
            push_str(&mut instruction, "\nUse a natural casual tone without adding new meaning.");
        },
        CleanupStyle::Concise => {
            push_str(&mut instruction, "\nMake the text concise while preserving all important meaning.");
        },
        CleanupStyle::Custom => {
            let ghost before = instruction@;
            push_str(&mut instruction, "\nApply these user-provided transformation instructions:\n");
            push_str(&mut instruction, request.custom_instructions.as_str());
            assert(instruction@ == before + ("\nApply these user-provided transformation instructions:\n"@
                + request.custom_instructions@));
        },
    }
    string_from_chars(&instruction)
}

/// The single prompt for completion-style providers: instruction, then the text.
pub fn cleanup_prompt(request: &CleanupRequest) -> (r: String)
    ensures
        r@ == instruction_spec(request.style, request.custom_instructions@) + "\n\nText:\n"@ + request.text@,
{
    let instruction = cleanup_system_instruction(request);
    let mut v = chars_of(instruction.as_str());
    push_str(&mut v, "\n\nText:\n");
    push_str(&mut v, request.text.as_str());
    string_from_chars(&v)
}

/// `s` without trailing slashes.
pub open spec fn strip_slashes(s: Seq<char>) -> Seq<char>
    decreases s.len(),
{
    if s.len() > 0 && s.last() == '/' {
        strip_slashes(s.drop_last())
    } else {
        s
    }
}

/// The endpoint trimmed and without trailing slashes, or `fallback` when that leaves nothing.
pub fn normalize_endpoint(endpoint: &str, fallback: &str) -> (r: String)
    ensures
        strip_slashes(trim(endpoint@)).len() == 0 ==> r@ == fallback@,
        strip_slashes(trim(endpoint@)).len() > 0 ==> r@ == strip_slashes(trim(endpoint@)),
{
    let v = chars_of(endpoint);
    let mut t = trim_chars(&v);
    while t.len() > 0 && t[t.len() - 1] == '/'
        invariant
            strip_slashes(t@) == strip_slashes(trim(endpoint@)),
        decreases t.len(),
    {
        t.pop();
    }
    if t.len() == 0 {
        string_of(fallback)
    } else {
        string_from_chars(&t)
    }
}

/// The configured model name, trimmed, or the error that none is configured.
pub fn require_model(model: &str) -> (r: Result<String, AppError>)
    ensures
        trim(model@).len() == 0 ==> (r matches Err(AppError::Config(m)) && m@ == "AI cleanup model is not configured"@),
        trim(model@).len() > 0 ==> (r matches Ok(s) && s@ == trim(model@)),
{
    let v = chars_of(model);
    let t = trim_chars(&v);
    if t.len() == 0 {
        Err(AppError::Config(string_of("AI cleanup model is not configured")))
    } else {
        Ok(string_from_chars(&t))
    }
}

/// Whether clean-up runs at all: it must be enabled with a provider selected.
pub fn cleanup_requested(config: &AiCleanupConfig) -> (r: bool)
    ensures
        r == (config.enabled && config.provider != AiCleanupProvider::Disabled),
{
    config.enabled && config.provider != AiCleanupProvider::Disabled
}

/// The request timeout in seconds: the configured value, at least one.
pub fn cleanup_timeout_seconds(config: &AiCleanupConfig) -> (r: u64)
    ensures
        r == (if config.timeout_seconds < 1 { 1 } else { config.timeout_seconds }),
{
    if config.timeout_seconds < 1 {
        1
    } else {
        config.timeout_seconds
    }
}

/// The provider to talk to, with its normalized endpoint and model.
#[derive(Debug, Clone)]
pub enum ProviderChoice {
    Disabled,
    Ollama { endpoint: String, model: String },
    OpenAiCompatible { endpoint: String, model: String },
}

/// Picks the provider for the settings; Ollama defaults to its local address.
pub fn provider_for_config(config: &AiCleanupConfig) -> (r: ProviderChoice)
    ensures
        config.provider == AiCleanupProvider::Disabled ==> r is Disabled,
        config.provider == AiCleanupProvider::Ollama ==> (r matches ProviderChoice::Ollama { endpoint, model }
            && model@ == config.model@
            && endpoint@ == (if strip_slashes(trim(config.endpoint@)).len() == 0 {
                "http://127.0.0.1:11434"@
            } else {
                strip_slashes(trim(config.endpoint@))
            })),
        config.provider == AiCleanupProvider::OpenAiCompatible ==> (r matches ProviderChoice::OpenAiCompatible { endpoint, model }
            && model@ == config.model@
            && endpoint@ == (if strip_slashes(trim(config.endpoint@)).len() == 0 {
                Seq::<char>::empty()
            } else {
                strip_slashes(trim(config.endpoint@))
            })),
{
    proof {
        reveal_strlit("");
    }
    match config.provider {
        AiCleanupProvider::Disabled => ProviderChoice::Disabled,
        AiCleanupProvider::Ollama => ProviderChoice::Ollama {
            endpoint: normalize_endpoint(config.endpoint.as_str(), "http://127.0.0.1:11434"),
            model: config.model.clone(),
        },
        AiCleanupProvider::OpenAiCompatible => ProviderChoice::OpenAiCompatible {
            endpoint: normalize_endpoint(config.endpoint.as_str(), ""),
            model: config.model.clone(),
        },
    }
}

/// Checks a provider's answer: it is trimmed, and refused when empty or longer
/// than the byte limit.
pub fn accept_cleanup_response(text: &str) -> (r: Result<Option<String>, AppError>)
    ensures
        trim(text@).len() == 0 ==> (r matches Err(AppError::Config(m)) && m@ == "AI cleanup returned an empty response"@),
        trim(text@).len() > 0 && utf8_len(trim(text@)) > MAX_CLEANUP_BYTES ==> (r matches Err(AppError::Config(m))
            && m@ == "AI cleanup response was too large"@),
        trim(text@).len() > 0 && utf8_len(trim(text@)) <= MAX_CLEANUP_BYTES ==> (r matches Ok(Some(s))
            && s@ == trim(text@)),
{
    let v = chars_of(text);
    let t = trim_chars(&v);
    if t.len() == 0 {
        return Err(AppError::Config(string_of("AI cleanup returned an empty response")));
    }
    let mut total: usize = 0;
    for i in 0..t.len()
        invariant
            total == utf8_len(t@.take(i as int)),
            total <= MAX_CLEANUP_BYTES,
            t@ == trim(text@),
            t@.len() > 0,
    {
        assert(t@.take(i + 1).drop_last() == t@.take(i as int));
        total = total + utf8_width(t[i]);
        if total > MAX_CLEANUP_BYTES {
            proof {
                lemma_utf8_len_monotone(t@, i + 1);
            }
            return Err(AppError::Config(string_of("AI cleanup response was too large")));
        }
    }
    assert(t@.take(t@.len() as int) == t@);
    Ok(Some(string_from_chars(&t)))
}

/// The number of bytes UTF-8 takes for a character.
pub open spec fn utf8_width_spec(c: char) -> nat {
    if (c as u32) < 0x80 {
        1
    } else if (c as u32) < 0x800 {
        2
    } else if (c as u32) < 0x10000 {
        3
    } else {
        4
    }
}

/// The length in bytes of the UTF-8 encoding of `s` (what `str::len` returns).
pub open spec fn utf8_len(s: Seq<char>) -> nat
    decreases s.len(),
{
    if s.len() == 0 {
        0
    } else {
        utf8_len(s.drop_last()) + utf8_width_spec(s.last())
    }
}

fn utf8_width(c: char) -> (r: usize)
    ensures
        r == utf8_width_spec(c),
{
    let n = c as u32;
    if n < 0x80 {
        1
    } else if n < 0x800 {
        2
    } else if n < 0x10000 {
        3
    } else {
        4
    }
}

proof fn lemma_utf8_len_monotone(s: Seq<char>, k: int)
    requires
        0 <= k <= s.len(),
    ensures
        utf8_len(s.take(k)) <= utf8_len(s),
    decreases s.len() - k,
{
    if k < s.len() {
        lemma_utf8_len_monotone(s, k + 1);
        assert(s.take(k + 1).drop_last() == s.take(k));
    } else {
        assert(s.take(k) == s);
    }
}

/// The status of the disabled provider.
pub fn disabled_provider_status() -> (r: ProviderStatus)
    ensures
        r.available,
        r.message@ == "AI cleanup is off."@,
        r.models@.len() == 0,
{
    ProviderStatus { available: true, message: string_of("AI cleanup is off."), models: Vec::new() }
}

/// The status of a reachable Ollama server with the models it reported.
pub fn ollama_status(models: Vec<String>) -> (r: ProviderStatus)
    ensures
        r.available,
        r.models == models,
        r.message@ == (if models@.len() == 0 {
            "Ollama is running, but no models were reported."@
        } else {
            "Ollama is available."@
        }),
{
    let message = if models.len() == 0 {
        string_of("Ollama is running, but no models were reported.")
    } else {
        string_of("Ollama is available.")
    };
    ProviderStatus { available: true, message, models }
}

/// The status of a configured OpenAI-compatible endpoint.
pub fn openai_compatible_status(models: Vec<String>) -> (r: ProviderStatus)
    ensures
        r.available,
        r.models == models,
        r.message@ == "OpenAI-compatible endpoint is configured."@,
{
    ProviderStatus { available: true, message: string_of("OpenAI-compatible endpoint is configured."), models }
}

/// The key to store: the trimmed key, or none when it is blank.
pub fn api_key_to_save(key: &str) -> (r: Option<String>)
    ensures
        trim(key@).len() == 0 ==> r is None,
        trim(key@).len() > 0 ==> (r matches Some(k) && k@ == trim(key@)),
{
    let v = chars_of(key);
    let t = trim_chars(&v);
    if t.len() == 0 {
        None
    } else {
        Some(string_from_chars(&t))
    }
}

/// The credential-store service under which the API key is kept.
pub const REMOTE_API_KEY_SERVICE: &'static str = "Voxta OpenAI Compatible API Key";

/// The credential-store account under which the API key is kept.
pub const REMOTE_API_KEY_ACCOUNT: &'static str = "openai-compatible";

/// Saves the OpenAI-compatible API key: a blank key is ignored, any other is
/// stored trimmed in this platform's credential store, which does not exist here.
pub fn save_remote_api_key(key: &str) -> (r: Result<(), AppError>)
    ensures
        trim(key@).len() == 0 ==> r is Ok,
        trim(key@).len() > 0 ==> (r matches Err(AppError::Config(m))
            && m@ == "secure credential storage is not implemented on this platform"@),
{
    match api_key_to_save(key) {
        None => Ok(()),
        Some(k) => crate::platform::unsupported::save_secret(REMOTE_API_KEY_SERVICE, REMOTE_API_KEY_ACCOUNT, k.as_str()),
    }
}

/// Whether a key was found, given what reading the credential store gave.
pub fn has_remote_api_key(loaded: &Result<Option<String>, AppError>) -> (r: bool)
    ensures
        r == (loaded matches Ok(Some(_))),
{
    match loaded {
        Ok(Some(_)) => true,
        _ => false,
    }
}

/// Reads the API key from this platform's credential store.
pub fn load_remote_api_key() -> (r: Result<Option<String>, AppError>)
    ensures
        r matches Ok(None),
{
    crate::platform::unsupported::load_secret(REMOTE_API_KEY_SERVICE, REMOTE_API_KEY_ACCOUNT)
}

/// The text to use after clean-up: the cleaned text when a provider gave one,
/// the original transcript when clean-up was off or failed.
pub fn cleanup_or_original(original: String, cleaned: Result<Option<String>, AppError>) -> (r: String)
    ensures
        match cleaned {
            Ok(Some(c)) => r == c,
            _ => r == original,
        },
{
    match cleaned {
        Ok(Some(c)) => c,
        _ => original,
    }
}

/// The text of an OpenAI-compatible chat answer: the content of its first
/// choice, or empty text when it has none.
pub fn first_choice_text(contents: Vec<String>) -> (r: String)
    ensures
        contents@.len() > 0 ==> r == contents@[0],
        contents@.len() == 0 ==> r@ == Seq::<char>::empty(),
{
    let mut contents = contents;
    if contents.len() > 0 {
        contents.swap_remove(0)
    } else {
        String::new()
    }
}

} // verus!
