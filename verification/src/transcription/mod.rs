//! Transcription: the engine of this build and the assembly of whisper's
//! segments into one transcript, plus transcript post-processing.
pub mod cleanup;

use vstd::prelude::*;
use std::sync::Arc;
use crate::audio::AudioBuffer;
use crate::config::AppConfig;
use crate::error::AppError;
use crate::models::ModelManager;
use crate::text::{append_chars, chars_of, string_from_chars, string_of, trim, trim_chars};
use crate::transcription::cleanup::{collapse_ws, normalize_spaces};

verus! {

/// The segments, each trimmed and followed by one space, one after another.
pub open spec fn joined_segments(segments: Seq<String>) -> Seq<char>
    decreases segments.len(),
{
    if segments.len() == 0 {
        Seq::empty()
    } else {
        joined_segments(segments.drop_last()) + trim(segments.last()@).push(' ')
    }
}

/// The transcript made of whisper's segments: joined, trimmed, whitespace runs
/// collapsed, trimmed again.
pub open spec fn transcript_spec(segments: Seq<String>) -> Seq<char> {
    trim(collapse_ws(trim(joined_segments(segments))))
}

/// Assembles the text of whisper's segments into the transcript.
pub fn transcript_from_segments(segments: &Vec<String>) -> (r: String)
    ensures
        r@ == transcript_spec(segments@),
{
    let mut text: Vec<char> = Vec::new();
    for i in 0..segments.len()
        invariant
            text@ == joined_segments(segments@.take(i as int)),
    {
        let seg = chars_of(segments[i].as_str());
        let t = trim_chars(&seg);
        append_chars(&mut text, &t);
        text.push(' ');
        assert(segments@.take(i + 1).drop_last() == segments@.take(i as int));
    }
    assert(segments@.take(segments.len() as int) == segments@);
    let trimmed = trim_chars(&text);
    let collapsed = normalize_spaces(string_from_chars(&trimmed).as_str());
    let c = chars_of(collapsed.as_str());
    string_from_chars(&trim_chars(&c))
}

/// The number of threads whisper uses: the machine's parallelism clamped to
/// 1..=8, or 4 when it is unknown.
pub fn thread_count(available: Option<usize>) -> (r: i32)
    ensures
        match available {
            Some(n) => r == (if n < 1 { 1 } else if n > 8 { 8 } else { n as int }),
            None => r == 4,
        },
{
    match available {
        Some(n) => {
            if n < 1 {
                1
            } else if n > 8 {
                8
            } else {
                n as i32
            }
        },
        None => 4,
    }
}

/// The error of a build without the whisper engine.
pub open spec fn no_engine_message() -> Seq<char> {
    "Voxta was built without the `whisper` feature; local transcription is unavailable in this build."@
}

/// The transcription engine of this build, which has no whisper.cpp.
#[derive(Debug, Clone)]
pub struct WhisperCppEngine {
    model_manager: Arc<ModelManager>,
}

impl WhisperCppEngine {
    /// An engine for the models of `model_manager`.
    pub fn new(model_manager: Arc<ModelManager>) -> (r: Self)
        ensures
            r.model_manager() == model_manager,
    {
        WhisperCppEngine { model_manager }
    }

    pub closed spec fn model_manager(&self) -> Arc<ModelManager> {
        self.model_manager
    }

    /// Always refuses: this build cannot transcribe locally.
    pub fn transcribe<S>(&self, audio: &AudioBuffer<S>, config: &AppConfig) -> (r: Result<String, AppError>)
        ensures
            r matches Err(AppError::Transcription(m)) && m@ == no_engine_message(),
    {
        Err(AppError::Transcription(string_of(
            "Voxta was built without the `whisper` feature; local transcription is unavailable in this build.",
        )))
    }
}

} // verus!
