//! Permission states reported to the settings page.
use vstd::prelude::*;

verus! {

/// The state of one operating-system permission.
#[derive(Debug, Clone, Copy, PartialEq, Eq, Structural)]
pub enum PermissionGrant {
    Granted,
    Denied,
    NotDetermined,
    NotRequired,
    Unknown,
}

/// The permissions dictation depends on.
#[derive(Debug, Clone, Copy, PartialEq, Eq, Structural)]
pub struct PermissionStatus {
    pub microphone: PermissionGrant,
    pub accessibility: PermissionGrant,
    pub input_monitoring: PermissionGrant,
}

} // verus!
