//! Putting dictated text into the focused application.
use vstd::prelude::*;
use crate::config::InsertionMode;
use crate::error::AppError;
use crate::focus::FocusSnapshot;
use crate::text::{append_chars, chars_of, is_blank, string_from_chars, trim};

verus! {

/// `arboard`'s clipboard handle, carried through as an opaque value.
#[verifier::external_type_specification]
#[verifier::external_body]
pub struct ExClipboard(arboard::Clipboard);

/// A write request made of the system clipboard.
pub enum ClipboardRequest {
    SetText(Seq<char>),
    Clear,
}

/// An open system clipboard, with the write requests made of it through this
/// handle and the text each read through it returned, oldest first. The
/// requests are what was asked of the clipboard; what it then holds is up to
/// the system and other applications.
pub struct ClipboardHandle {
    clipboard: arboard::Clipboard,
    requests: Ghost<Seq<ClipboardRequest>>,
    reads: Ghost<Seq<Option<Seq<char>>>>,
}

impl ClipboardHandle {
    /// The write requests made through this handle, oldest first.
    pub closed spec fn requests(&self) -> Seq<ClipboardRequest> {
        self.requests@
    }

    /// What each read through this handle returned (`None`: no text), oldest first.
    pub closed spec fn reads(&self) -> Seq<Option<Seq<char>>> {
        self.reads@
    }
}

/// A read's result as a sequence.
pub open spec fn text_view(t: Option<String>) -> Option<Seq<char>> {
    match t {
        Some(s) => Some(s@),
        None => None,
    }
}

/// Calls `arboard::Clipboard::get_text`, keeping the text and dropping the error.
/// What the system clipboard holds is up to the user and other applications, so
/// nothing is claimed of the result beyond that it is recorded as this read's
/// result; reading makes no write request.
#[verifier::external_body]
fn clipboard_get_text(handle: &mut ClipboardHandle) -> (r: Option<String>)
    ensures
        final(handle).requests() == old(handle).requests(),
        final(handle).reads() == old(handle).reads().push(text_view(r)),
{
    match handle.clipboard.get_text() {
        Ok(text) => Some(text),
        Err(_) => None,
    }
}

/// Calls `arboard::Clipboard::set_text` with `text`, which is recorded as a
/// request; an error is rendered with its `Display`. Whether the system accepts
/// the text is not claimed.
#[verifier::external_body]
fn clipboard_set_text(handle: &mut ClipboardHandle, text: String) -> (r: Result<(), String>)
    ensures
        final(handle).requests() == old(handle).requests().push(ClipboardRequest::SetText(text@)),
        final(handle).reads() == old(handle).reads(),
{
    match handle.clipboard.set_text(text) {
        Ok(()) => Ok(()),
        Err(e) => Err(format!("{e}")),
    }
}

/// Calls `arboard::Clipboard::clear`, which is recorded as a request; an error
/// is rendered with its `Display`. Whether the system clears the clipboard is
/// not claimed.
#[verifier::external_body]
fn clipboard_clear(handle: &mut ClipboardHandle) -> (r: Result<(), String>)
    ensures
        final(handle).requests() == old(handle).requests().push(ClipboardRequest::Clear),
        final(handle).reads() == old(handle).reads(),
{
    match handle.clipboard.clear() {
        Ok(()) => Ok(()),
        Err(e) => Err(format!("{e}")),
    }
}

/// Calls `arboard::Clipboard::new`; an error is rendered with its `Display`.
/// Whether a clipboard is available depends on the desktop, so nothing is claimed.
#[verifier::external_body]
fn clipboard_open() -> (r: Result<arboard::Clipboard, String>) {
    match arboard::Clipboard::new() {
        Ok(clipboard) => Ok(clipboard),
        Err(e) => Err(format!("{e}")),
    }
}

/// The clipboard text from before a paste, to be put back afterwards; `None`
/// stands for a clipboard without text, which restoring clears.
#[derive(Debug, Clone, PartialEq, Eq)]
pub struct ClipboardSnapshot {
    text: Option<String>,
}

impl View for ClipboardSnapshot {
    type V = Option<Seq<char>>;

    closed spec fn view(&self) -> Option<Seq<char>> {
        match self.text {
            Some(t) => Some(t@),
            None => None,
        }
    }
}

/// The request that restoring a snapshot makes: its text put back, or the
/// clipboard cleared when it held no text.
pub open spec fn restore_request(saved: Option<Seq<char>>) -> ClipboardRequest {
    match saved {
        Some(t) => ClipboardRequest::SetText(t),
        None => ClipboardRequest::Clear,
    }
}

/// The message of a failed restoration.
pub open spec fn restore_error(detail: Seq<char>) -> Seq<char> {
    "clipboard restoration failed: "@ + detail
}

impl ClipboardSnapshot {
    /// A snapshot holding `text`.
    pub fn from_text(text: Option<String>) -> (r: Self)
        ensures
            r@ == match text {
                Some(t) => Some(t@),
                None => None,
            },
    {
        ClipboardSnapshot { text }
    }

    /// The saved text.
    pub fn text(&self) -> (r: Option<&String>)
        ensures
            match r {
                Some(t) => self@ == Some(t@),
                None => self@ is None,
            },
    {
        match &self.text {
            Some(t) => Some(t),
            None => None,
        }
    }

    /// Saves the clipboard's current text, or its absence; reading makes no
    /// write request.
    pub fn capture(clipboard: &mut ClipboardHandle) -> (r: Self)
        ensures
            final(clipboard).requests() == old(clipboard).requests(),
            final(clipboard).reads() == old(clipboard).reads().push(r@),
    {
        ClipboardSnapshot { text: clipboard_get_text(clipboard) }
    }

    /// Writes the saved text back, or clears the clipboard when none was saved.
    pub fn restore(self, clipboard: &mut ClipboardHandle) -> (r: Result<(), AppError>)
        ensures
            final(clipboard).requests() == old(clipboard).requests().push(restore_request(self@)),
            final(clipboard).reads() == old(clipboard).reads(),
            r matches Err(e) ==> (e matches AppError::TextInsertion(m) && exists|d: Seq<char>| m@ == #[trigger] restore_error(d)),
    {
        let result = match self.text {
            Some(text) => clipboard_set_text(clipboard, text),
            None => clipboard_clear(clipboard),
        };
        match result {
            Ok(()) => Ok(()),
            Err(detail) => {
                let mut m = chars_of("clipboard restoration failed: ");
                let d = chars_of(detail.as_str());
                append_chars(&mut m, &d);
                assert(m@ == restore_error(detail@));
                Err(AppError::TextInsertion(string_from_chars(&m)))
            },
        }
    }
}

/// The platform's text injector (direct typing with a clipboard fallback).
#[derive(Debug, Default)]
pub struct PlatformTextInjector;

/// How dictated text is to be inserted.
#[derive(Debug, Clone, Copy, PartialEq, Eq, Structural)]
pub enum InsertionPlan {
    /// Blank text: nothing to insert.
    Nothing,
    Direct,
    Clipboard,
    /// Type directly, and paste through the clipboard if that fails.
    DirectThenClipboard,
}

/// Decides how to insert `text`: blank text needs nothing, a secure field is
/// refused, otherwise the configured mode decides.
pub fn plan_insertion(text: &str, focus: &FocusSnapshot, mode: InsertionMode) -> (r: Result<InsertionPlan, AppError>)
    ensures
        trim(text@).len() == 0 ==> r == Ok::<InsertionPlan, AppError>(InsertionPlan::Nothing),
        trim(text@).len() > 0 && focus.secure_input ==> (r matches Err(AppError::TextInsertion(m))
            && m@ == "refusing to insert dictation into a secure input field"@),
        trim(text@).len() > 0 && !focus.secure_input ==> r == Ok::<InsertionPlan, AppError>(
            match mode {
                InsertionMode::Direct => InsertionPlan::Direct,
                InsertionMode::Clipboard => InsertionPlan::Clipboard,
                InsertionMode::Auto => InsertionPlan::DirectThenClipboard,
            },
        ),
{
    if is_blank(text) {
        return Ok(InsertionPlan::Nothing);
    }
    if focus.secure_input {
        return Err(AppError::TextInsertion(crate::text::string_of(
            "refusing to insert dictation into a secure input field",
        )));
    }
    Ok(match mode {
        InsertionMode::Direct => InsertionPlan::Direct,
        InsertionMode::Clipboard => InsertionPlan::Clipboard,
        InsertionMode::Auto => InsertionPlan::DirectThenClipboard,
    })
}

/// The message `prefix` followed by an outside error's detail.
fn insertion_error(prefix: &str, detail: &str) -> (r: AppError)
    ensures
        r matches AppError::TextInsertion(m) && m@ == prefix@ + detail@,
{
    let mut m = chars_of(prefix);
    let d = chars_of(detail);
    append_chars(&mut m, &d);
    AppError::TextInsertion(string_from_chars(&m))
}

/// The first half of a clipboard insertion: opens the clipboard, saves what it
/// holds and puts `text` on it. The host then sends the paste shortcut and
/// restores the snapshot. A failure to open or to write is an insertion error.
pub fn stage_clipboard_text(text: &str) -> (r: Result<(ClipboardHandle, ClipboardSnapshot), AppError>)
    ensures
        r matches Ok((h, snap)) ==> h.requests() == seq![ClipboardRequest::SetText(text@)]
            && h.reads() == seq![snap@],
        r matches Err(e) ==> (e matches AppError::TextInsertion(m) && exists|d: Seq<char>|
            m@ == "could not access clipboard: "@ + d || m@ == "could not set clipboard text: "@ + d),
{
    let mut clipboard = match clipboard_open() {
        Ok(c) => ClipboardHandle { clipboard: c, requests: Ghost(Seq::empty()), reads: Ghost(Seq::empty()) },
        Err(detail) => {
            let e = insertion_error("could not access clipboard: ", detail.as_str());
            assert(e matches AppError::TextInsertion(m) && m@ == "could not access clipboard: "@ + detail@);
            return Err(e);
        },
    };
    let snapshot = ClipboardSnapshot::capture(&mut clipboard);
    match clipboard_set_text(&mut clipboard, crate::text::string_of(text)) {
        Ok(()) => {
            assert(clipboard.requests() =~= seq![ClipboardRequest::SetText(text@)]);
            assert(clipboard.reads() =~= seq![snapshot@]);
            Ok((clipboard, snapshot))
        },
        Err(detail) => {
            let e = insertion_error("could not set clipboard text: ", detail.as_str());
            assert(e matches AppError::TextInsertion(m) && m@ == "could not set clipboard text: "@ + detail@);
            Err(e)
        },
    }
}

} // verus!
