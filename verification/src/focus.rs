//! Which application had focus when dictation started.
use vstd::prelude::*;

verus! {

/// What is known of the focused application and field.
#[derive(Debug, Clone)]
pub struct FocusSnapshot {
    pub app_name: Option<String>,
    pub window_title: Option<String>,
    pub process_id: Option<u32>,
    pub native_window_id: Option<isize>,
    pub secure_input: bool,
}

impl Default for FocusSnapshot {
    /// Nothing known, not a secure field.
    fn default() -> (r: Self)
        ensures
            r.app_name is None,
            r.window_title is None,
            r.process_id is None,
            r.native_window_id is None,
            !r.secure_input,
    {
        FocusSnapshot {
            app_name: None,
            window_title: None,
            process_id: None,
            native_window_id: None,
            secure_input: false,
        }
    }
}

/// Focus tracking through the platform layer.
#[derive(Debug, Default)]
pub struct PlatformFocusTracker;

} // verus!
