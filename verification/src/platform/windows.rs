//! Windows: permission model and Settings pages.
use vstd::prelude::*;
use crate::error::AppError;
use crate::permissions::{PermissionGrant, PermissionStatus};
use crate::text::{chars_eq_str, chars_of, push_str, string_from_chars, string_of};

verus! {

/// Windows asks no accessibility or input-monitoring consent; the microphone state is unknown.
pub fn permission_status() -> (r: PermissionStatus)
    ensures
        r == (PermissionStatus {
            microphone: PermissionGrant::Unknown,
            accessibility: PermissionGrant::NotRequired,
            input_monitoring: PermissionGrant::NotRequired,
        }),
{
    PermissionStatus {
        microphone: PermissionGrant::Unknown,
        accessibility: PermissionGrant::NotRequired,
        input_monitoring: PermissionGrant::NotRequired,
    }
}

/// The `ms-settings:` page for a permission name.
pub fn settings_uri(permission: &str) -> (r: Result<String, AppError>)
    ensures
        permission@ == "microphone"@ ==> (r matches Ok(u) && u@ == "ms-settings:privacy-microphone"@),
        permission@ == "accessibility"@ ==> (r matches Ok(u) && u@ == "ms-settings:easeofaccess-keyboard"@),
        permission@ != "microphone"@ && permission@ != "accessibility"@ ==> (r matches Err(AppError::Permission(m))
            && m@ == "unknown Windows permission pane: "@ + permission@),
{
    let p = chars_of(permission);
    proof {
        reveal_strlit("microphone");
        reveal_strlit("accessibility");
        assert("microphone"@[0] != "accessibility"@[0]);
    }
    if chars_eq_str(&p, "microphone") {
        Ok(string_of("ms-settings:privacy-microphone"))
    } else if chars_eq_str(&p, "accessibility") {
        Ok(string_of("ms-settings:easeofaccess-keyboard"))
    } else {
        let mut m = chars_of("unknown Windows permission pane: ");
        push_str(&mut m, permission);
        Err(AppError::Permission(string_from_chars(&m)))
    }
}

} // verus!
