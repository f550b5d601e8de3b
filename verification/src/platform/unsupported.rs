//! Platforms without native integration.
use vstd::prelude::*;
use crate::error::AppError;
use crate::focus::FocusSnapshot;
use crate::permissions::{PermissionGrant, PermissionStatus};
use crate::text::{chars_of, push_str, string_from_chars, string_of};

verus! {

/// Nothing is known about permissions here.
pub fn permission_status() -> (r: PermissionStatus)
    ensures
        r == (PermissionStatus {
            microphone: PermissionGrant::Unknown,
            accessibility: PermissionGrant::Unknown,
            input_monitoring: PermissionGrant::Unknown,
        }),
{
    PermissionStatus {
        microphone: PermissionGrant::Unknown,
        accessibility: PermissionGrant::Unknown,
        input_monitoring: PermissionGrant::Unknown,
    }
}

/// There are no settings pages to open on this platform.
pub fn open_permission_settings(permission: &str) -> (r: Result<(), AppError>)
    ensures
        r matches Err(AppError::Permission(m)) && m@ == "permission settings are not implemented for this platform: "@ + permission@,
{
    let mut m = chars_of("permission settings are not implemented for this platform: ");
    push_str(&mut m, permission);
    Err(AppError::Permission(string_from_chars(&m)))
}

/// Focus cannot be tracked here: nothing is known.
pub fn capture_focus() -> (r: Result<FocusSnapshot, AppError>)
    ensures
        r matches Ok(f) && f.app_name is None && f.window_title is None && f.process_id is None
            && f.native_window_id is None && !f.secure_input,
{
    Ok(FocusSnapshot::default())
}

/// Focus cannot be restored here; this is not an error.
pub fn restore_focus(snapshot: &FocusSnapshot) -> (r: Result<(), AppError>)
    ensures
        r is Ok,
{
    Ok(())
}

/// There is no secure credential store here.
pub fn save_secret(service: &str, account: &str, secret: &str) -> (r: Result<(), AppError>)
    ensures
        r matches Err(AppError::Config(m)) && m@ == "secure credential storage is not implemented on this platform"@,
{
    Err(AppError::Config(string_of("secure credential storage is not implemented on this platform")))
}

/// There is no secure credential store here, so no secret is ever found.
pub fn load_secret(service: &str, account: &str) -> (r: Result<Option<String>, AppError>)
    ensures
        r matches Ok(None),
{
    Ok(None)
}

} // verus!
