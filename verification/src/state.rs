//! The recording life cycle of one dictation.
use vstd::prelude::*;
use crate::error::AppError;
use crate::text::{append_chars, chars_of, string_from_chars};

verus! {

/// Where the dictation pipeline stands.
#[derive(Debug, Clone, Copy, PartialEq, Eq, Structural)]
pub enum RecordingState {
    Idle,
    Recording,
    Transcribing,
    Inserting,
    Cancelled,
    Error,
}

/// The name `Debug` prints for a state.
pub open spec fn state_name(s: RecordingState) -> Seq<char> {
    match s {
        RecordingState::Idle => "Idle"@,
        RecordingState::Recording => "Recording"@,
        RecordingState::Transcribing => "Transcribing"@,
        RecordingState::Inserting => "Inserting"@,
        RecordingState::Cancelled => "Cancelled"@,
        RecordingState::Error => "Error"@,
    }
}

/// The transitions of the life cycle: idle to recording to transcribing to
/// inserting; a recording can be cancelled; any state can fail or return to idle.
pub open spec fn transition_allowed(from: RecordingState, to: RecordingState) -> bool {
    ||| from == RecordingState::Idle && to == RecordingState::Recording
    ||| from == RecordingState::Recording && to == RecordingState::Transcribing
    ||| from == RecordingState::Transcribing && to == RecordingState::Inserting
    ||| from == RecordingState::Recording && to == RecordingState::Cancelled
    ||| to == RecordingState::Error
    ||| to == RecordingState::Idle
}

/// Guards the recording life cycle; starts idle.
#[derive(Debug, Clone)]
pub struct RecordingStateMachine {
    state: RecordingState,
}

impl View for RecordingStateMachine {
    type V = RecordingState;

    closed spec fn view(&self) -> RecordingState {
        self.state
    }
}

impl Default for RecordingStateMachine {
    fn default() -> (r: Self)
        ensures
            r@ == RecordingState::Idle,
    {
        RecordingStateMachine { state: RecordingState::Idle }
    }
}

fn state_name_chars(s: RecordingState) -> (r: Vec<char>)
    ensures
        r@ == state_name(s),
{
    match s {
        RecordingState::Idle => chars_of("Idle"),
        RecordingState::Recording => chars_of("Recording"),
        RecordingState::Transcribing => chars_of("Transcribing"),
        RecordingState::Inserting => chars_of("Inserting"),
        RecordingState::Cancelled => chars_of("Cancelled"),
        RecordingState::Error => chars_of("Error"),
    }
}

/// A state error `"<what> while <State>"`.
fn state_error(what: &str, s: RecordingState) -> (r: AppError)
    ensures
        r matches AppError::State(m) && m@ == what@ + " while "@ + state_name(s),
{
    let mut v = chars_of(what);
    let w = chars_of(" while ");
    append_chars(&mut v, &w);
    let n = state_name_chars(s);
    append_chars(&mut v, &n);
    AppError::State(string_from_chars(&v))
}

/// The outcome of a guarded transition from `from` to `to`, allowed only from `required`.
pub open spec fn guarded(
    old_state: RecordingState,
    new_state: RecordingState,
    r: Result<(), AppError>,
    required: RecordingState,
    to: RecordingState,
    what: Seq<char>,
) -> bool {
    if old_state == required {
        r is Ok && new_state == to
    } else {
        new_state == old_state && (r matches Err(AppError::State(m)) && m@ == what + " while "@
            + state_name(old_state))
    }
}

impl RecordingStateMachine {
    /// The current state.
    pub fn state(&self) -> (r: RecordingState)
        ensures
            r == self@,
    {
        self.state
    }

    /// Idle to recording; refused in any other state, so recordings never overlap.
    pub fn start_recording(&mut self) -> (r: Result<(), AppError>)
        ensures
            guarded(old(self)@, final(self)@, r, RecordingState::Idle, RecordingState::Recording, "cannot start recording"@),
    {
        match self.state {
            RecordingState::Idle => {
                self.state = RecordingState::Recording;
                Ok(())
            },
            _ => Err(state_error("cannot start recording", self.state)),
        }
    }

    /// Recording to transcribing.
    pub fn start_transcribing(&mut self) -> (r: Result<(), AppError>)
        ensures
            guarded(old(self)@, final(self)@, r, RecordingState::Recording, RecordingState::Transcribing, "cannot transcribe"@),
    {
        match self.state {
            RecordingState::Recording => {
                self.state = RecordingState::Transcribing;
                Ok(())
            },
            _ => Err(state_error("cannot transcribe", self.state)),
        }
    }

    /// Transcribing to inserting.
    pub fn start_inserting(&mut self) -> (r: Result<(), AppError>)
        ensures
            guarded(old(self)@, final(self)@, r, RecordingState::Transcribing, RecordingState::Inserting, "cannot insert"@),
    {
        match self.state {
            RecordingState::Transcribing => {
                self.state = RecordingState::Inserting;
                Ok(())
            },
            _ => Err(state_error("cannot insert", self.state)),
        }
    }

    /// Back to idle, from any state.
    pub fn finish(&mut self)
        ensures
            final(self)@ == RecordingState::Idle,
    {
        self.state = RecordingState::Idle;
    }

    /// Recording to cancelled; refused in any other state.
    pub fn cancel(&mut self) -> (r: Result<(), AppError>)
        ensures
            guarded(old(self)@, final(self)@, r, RecordingState::Recording, RecordingState::Cancelled, "cannot cancel"@),
    {
        match self.state {
            RecordingState::Recording => {
                self.state = RecordingState::Cancelled;
                Ok(())
            },
            _ => Err(state_error("cannot cancel", self.state)),
        }
    }

    /// To the error state, from any state.
    pub fn fail(&mut self)
        ensures
            final(self)@ == RecordingState::Error,
    {
        self.state = RecordingState::Error;
    }
}

/// Every change of state that an operation makes is an allowed transition,
/// and a refused operation leaves the state as it was.
pub proof fn law_only_allowed_transitions(
    old_state: RecordingState,
    new_state: RecordingState,
    r: Result<(), AppError>,
    required: RecordingState,
    to: RecordingState,
    what: Seq<char>,
)
    requires
        guarded(old_state, new_state, r, required, to, what),
        transition_allowed(required, to),
    ensures
        new_state == old_state || transition_allowed(old_state, new_state),
        r is Err ==> new_state == old_state,
{
}

} // verus!
