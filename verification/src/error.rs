//! Errors reported by the library.
use vstd::prelude::*;

verus! {

/// An error of the dictation pipeline, with its human-readable detail.
#[derive(Debug, Clone)]
pub enum AppError {
    Config(String),
    Audio(String),
    Shortcut(String),
    Transcription(String),
    Model(String),
    TextInsertion(String),
    Permission(String),
    Platform(String),
    State(String),
    Io(String),
    Json(String),
    Network(String),
}

pub type AppResult<T> = Result<T, AppError>;

/// The prefix that the rendered message of each error kind starts with.
pub open spec fn error_prefix(err: AppError) -> Seq<char> {
    match err {
        AppError::Config(_) => "configuration error: "@,
        AppError::Audio(_) => "audio error: "@,
        AppError::Shortcut(_) => "shortcut error: "@,
        AppError::Transcription(_) => "transcription error: "@,
        AppError::Model(_) => "model error: "@,
        AppError::TextInsertion(_) => "text insertion error: "@,
        AppError::Permission(_) => "permission error: "@,
        AppError::Platform(_) => "platform error: "@,
        AppError::State(_) => "state error: "@,
        AppError::Io(_) => "I/O error: "@,
        AppError::Json(_) => "JSON error: "@,
        AppError::Network(_) => "network error: "@,
    }
}

/// The detail text that an error carries.
pub open spec fn error_detail(err: AppError) -> Seq<char> {
    match err {
        AppError::Config(m) => m@,
        AppError::Audio(m) => m@,
        AppError::Shortcut(m) => m@,
        AppError::Transcription(m) => m@,
        AppError::Model(m) => m@,
        AppError::TextInsertion(m) => m@,
        AppError::Permission(m) => m@,
        AppError::Platform(m) => m@,
        AppError::State(m) => m@,
        AppError::Io(m) => m@,
        AppError::Json(m) => m@,
        AppError::Network(m) => m@,
    }
}

impl AppError {
    /// The detail text of this error.
    pub fn detail(&self) -> (r: &String)
        ensures
            r@ == error_detail(*self),
    {
        match self {
            AppError::Config(m) => m,
            AppError::Audio(m) => m,
            AppError::Shortcut(m) => m,
            AppError::Transcription(m) => m,
            AppError::Model(m) => m,
            AppError::TextInsertion(m) => m,
            AppError::Permission(m) => m,
            AppError::Platform(m) => m,
            AppError::State(m) => m,
            AppError::Io(m) => m,
            AppError::Json(m) => m,
            AppError::Network(m) => m,
        }
    }

    /// The rendered message: the kind's prefix followed by the detail.
    pub fn to_string(&self) -> (r: String)
        ensures
            r@ == error_prefix(*self) + error_detail(*self),
    {
        let prefix = match self {
            AppError::Config(_) => "configuration error: ",
            AppError::Audio(_) => "audio error: ",
            AppError::Shortcut(_) => "shortcut error: ",
            AppError::Transcription(_) => "transcription error: ",
            AppError::Model(_) => "model error: ",
            AppError::TextInsertion(_) => "text insertion error: ",
            AppError::Permission(_) => "permission error: ",
            AppError::Platform(_) => "platform error: ",
            AppError::State(_) => "state error: ",
            AppError::Io(_) => "I/O error: ",
            AppError::Json(_) => "JSON error: ",
            AppError::Network(_) => "network error: ",
        };
        let mut v = crate::text::chars_of(prefix);
        let d = crate::text::chars_of(self.detail().as_str());
        crate::text::append_chars(&mut v, &d);
        crate::text::string_from_chars(&v)
    }
}

} // verus!
