//! Audio buffers and microphone selection.
use vstd::prelude::*;
use crate::error::AppError;
use crate::text::{append_chars, chars_of, is_blank, string_from_chars, string_of, trim};

verus! {

/// The sample rate whisper.cpp expects.
pub const WHISPER_SAMPLE_RATE: u32 = 16_000;

/// Recordings shorter than this are discarded.
pub const MIN_RECORDING_MS: u64 = 250;

/// An input device as the settings page lists it; the empty id is the system default.
#[derive(Debug, Clone)]
pub struct MicrophoneDevice {
    pub id: String,
    pub name: String,
    pub is_default: bool,
}

/// Interleaved samples of a recording.
#[derive(Debug, Clone)]
pub struct AudioBuffer<S> {
    pub sample_rate: u32,
    pub channels: u16,
    pub samples: Vec<S>,
}

/// The microphone recorder; recording itself is done by the platform audio layer.
#[derive(Debug)]
pub struct CpalAudioRecorder;

/// The name shown for a device whose name cannot be read.
pub open spec fn device_name(name: Option<String>) -> Seq<char> {
    match name {
        Some(n) => n@,
        None => "Unnamed microphone"@,
    }
}

/// Whether `d` lists a device with the given (possibly unreadable) name.
pub open spec fn lists_device(d: MicrophoneDevice, name: Option<String>, default_name: Option<String>) -> bool {
    &&& d.id@ == device_name(name)
    &&& d.name@ == device_name(name)
    &&& d.is_default == (default_name matches Some(dn) && dn@ == device_name(name))
}

/// The device list: the system default entry first, then one entry per device.
pub fn microphone_list(default_name: Option<String>, names: &Vec<Option<String>>) -> (r: Vec<MicrophoneDevice>)
    ensures
        r@.len() == names@.len() + 1,
        r@[0].id@ == Seq::<char>::empty(),
        r@[0].name@ == "System default microphone"@,
        r@[0].is_default,
        forall|i: int| 0 <= i < names@.len() ==> lists_device(#[trigger] r@[i + 1], names@[i], default_name),
{
    let mut out: Vec<MicrophoneDevice> = Vec::new();
    out.push(MicrophoneDevice {
        id: String::new(),
        name: string_of("System default microphone"),
        is_default: true,
    });
    for i in 0..names.len()
        invariant
            out@.len() == i + 1,
            out@[0].id@ == Seq::<char>::empty(),
            out@[0].name@ == "System default microphone"@,
            out@[0].is_default,
            forall|k: int| 0 <= k < i ==> lists_device(#[trigger] out@[k + 1], names@[k], default_name),
    {
        let name = match &names[i] {
            Some(n) => n.clone(),
            None => string_of("Unnamed microphone"),
        };
        let is_default = match &default_name {
            Some(d) => *d == name,
            None => false,
        };
        out.push(MicrophoneDevice { id: name.clone(), name, is_default });
    }
    out
}

/// Which input device to record from.
#[derive(Debug, Clone, Copy, PartialEq, Eq, Structural)]
pub enum InputDeviceChoice {
    SystemDefault,
    Listed(usize),
}

/// Chooses the input device for `device_id` among devices with the given names
/// (`None` where a name cannot be read).
pub fn select_input_device(device_id: Option<&str>, names: &Vec<Option<String>>) -> (r: Result<InputDeviceChoice, AppError>)
    ensures
        ({
            let requested = match device_id {
                Some(s) => s@,
                None => Seq::<char>::empty(),
            };
            match r {
                Ok(InputDeviceChoice::SystemDefault) => trim(requested).len() == 0,
                Ok(InputDeviceChoice::Listed(i)) => {
                    &&& trim(requested).len() > 0
                    &&& i < names@.len()
                    &&& names@[i as int] matches Some(n) && n@ == requested
                    &&& forall|j: int| 0 <= j < i ==> !(#[trigger] names@[j] matches Some(n) && n@ == requested)
                },
                Err(e) => {
                    &&& trim(requested).len() > 0
                    &&& forall|j: int| 0 <= j < names@.len() ==> !(#[trigger] names@[j] matches Some(n) && n@ == requested)
                    &&& e matches AppError::Audio(m) && m@ == "selected microphone is unavailable: "@ + requested
                },
            }
        }),
{
    let requested: &str = match device_id {
        Some(s) => s,
        None => "",
    };
    proof {
        if device_id is None {
            reveal_strlit("");
        }
    }
    if is_blank(requested) {
        return Ok(InputDeviceChoice::SystemDefault);
    }
    let req = string_of(requested);
    for i in 0..names.len()
        invariant
            req@ == requested@,
            trim(requested@).len() > 0,
            requested@ == (match device_id {
                Some(s) => s@,
                None => Seq::<char>::empty(),
            }),
            forall|j: int| 0 <= j < i ==> !(#[trigger] names@[j] matches Some(n) && n@ == requested@),
    {
        match &names[i] {
            Some(n) => {
                if *n == req {
                    return Ok(InputDeviceChoice::Listed(i));
                }
            },
            None => {},
        }
    }
    let mut m = chars_of("selected microphone is unavailable: ");
    let rq = chars_of(requested);
    append_chars(&mut m, &rq);
    Err(AppError::Audio(string_from_chars(&m)))
}

/// The microphone worker's bookkeeping: at most one recording session at a time.
/// The session itself (`T`) is the platform's.
#[derive(Debug)]
pub struct AudioWorker<T> {
    session: Option<T>,
}

impl<T> View for AudioWorker<T> {
    type V = Option<T>;

    closed spec fn view(&self) -> Option<T> {
        self.session
    }
}

impl<T> AudioWorker<T> {
    /// A worker with no session.
    pub fn new() -> (r: Self)
        ensures
            r@ is None,
    {
        AudioWorker { session: None }
    }

    /// Whether a new recording may start: refused while one is active.
    pub fn check_start(&self) -> (r: Result<(), AppError>)
        ensures
            self@ is None ==> r is Ok,
            self@ is Some ==> (r matches Err(AppError::Audio(m)) && m@ == "a recording is already active"@),
    {
        match &self.session {
            Some(_) => Err(AppError::Audio(string_of("a recording is already active"))),
            None => Ok(()),
        }
    }

    /// The platform started a recording session.
    pub fn started(&mut self, session: T)
        ensures
            final(self)@ == Some(session),
    {
        self.session = Some(session);
    }

    /// Takes the active session to stop it; refused when none is active.
    pub fn stop(&mut self) -> (r: Result<T, AppError>)
        ensures
            final(self)@ is None,
            match old(self)@ {
                Some(s) => r == Ok::<T, AppError>(s),
                None => r matches Err(AppError::Audio(m)) && m@ == "no recording is active"@,
            },
    {
        match self.session.take() {
            Some(s) => Ok(s),
            None => Err(AppError::Audio(string_of("no recording is active"))),
        }
    }

    /// Drops the active session, if any, and hands it back.
    pub fn cancel(&mut self) -> (r: Option<T>)
        ensures
            final(self)@ is None,
            r == old(self)@,
    {
        self.session.take()
    }
}

} // verus!
