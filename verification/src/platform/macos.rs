//! macOS: permission model, System Settings pages and AppleScript text.
use vstd::prelude::*;
use crate::error::AppError;
use crate::permissions::{PermissionGrant, PermissionStatus};
use crate::text::{append_chars, chars_eq_str, chars_of, lower, push_str, string_from_chars, string_of, to_ascii_lower};

verus! {

/// The permission status given whether the process is a trusted accessibility client.
pub fn permission_status_for(accessibility_trusted: bool, input_monitoring: PermissionGrant) -> (r: PermissionStatus)
    ensures
        r.microphone == PermissionGrant::Unknown,
        r.accessibility == (if accessibility_trusted { PermissionGrant::Granted } else { PermissionGrant::Denied }),
        r.input_monitoring == input_monitoring,
{
    PermissionStatus {
        microphone: PermissionGrant::Unknown,
        accessibility: if accessibility_trusted {
            PermissionGrant::Granted
        } else {
            PermissionGrant::Denied
        },
        input_monitoring,
    }
}

/// The System Settings URL for a permission name.
pub fn settings_url(permission: &str) -> (r: Result<String, AppError>)
    ensures
        permission@ == "microphone"@ ==> (r matches Ok(u)
            && u@ == "x-apple.systempreferences:com.apple.preference.security?Privacy_Microphone"@),
        permission@ == "accessibility"@ ==> (r matches Ok(u)
            && u@ == "x-apple.systempreferences:com.apple.preference.security?Privacy_Accessibility"@),
        permission@ != "microphone"@ && permission@ != "accessibility"@ ==> (r matches Err(AppError::Permission(m))
            && m@ == "unknown macOS permission pane: "@ + permission@),
{
    let p = chars_of(permission);
    proof {
        reveal_strlit("microphone");
        reveal_strlit("accessibility");
        assert("microphone"@[0] != "accessibility"@[0]);
    }
    if chars_eq_str(&p, "microphone") {
        Ok(string_of("x-apple.systempreferences:com.apple.preference.security?Privacy_Microphone"))
    } else if chars_eq_str(&p, "accessibility") {
        Ok(string_of("x-apple.systempreferences:com.apple.preference.security?Privacy_Accessibility"))
    } else {
        let mut m = chars_of("unknown macOS permission pane: ");
        push_str(&mut m, permission);
        Err(AppError::Permission(string_from_chars(&m)))
    }
}

/// `s` with backslashes and double quotes escaped for an AppleScript string literal.
pub open spec fn applescript_escape(s: Seq<char>) -> Seq<char>
    decreases s.len(),
{
    if s.len() == 0 {
        Seq::empty()
    } else {
        let c = s.last();
        applescript_escape(s.drop_last()) + if c == '\\' {
            seq!['\\', '\\']
        } else if c == '"' {
            seq!['\\', '"']
        } else {
            seq![c]
        }
    }
}

/// The AppleScript that brings an application to the front.
pub fn activate_script(app_name: &str) -> (r: String)
    ensures
        r@ == "tell application \""@ + applescript_escape(app_name@) + "\" to activate"@,
{
    let name = chars_of(app_name);
    let mut escaped: Vec<char> = Vec::new();
    for i in 0..name.len()
        invariant
            escaped@ == applescript_escape(name@.take(i as int)),
    {
        let c = name[i];
        assert(name@.take(i + 1).drop_last() == name@.take(i as int));
        if c == '\\' {
            escaped.push('\\');
            escaped.push('\\');
        } else if c == '"' {
            escaped.push('\\');
            escaped.push('"');
        } else {
            escaped.push(c);
        }
    }
    assert(name@.take(name@.len() as int) == name@);
    let mut s = chars_of("tell application \"");
    append_chars(&mut s, &escaped);
    push_str(&mut s, "\" to activate");
    string_from_chars(&s)
}

/// The value of a string of decimal digits.
pub open spec fn digits_value(s: Seq<char>) -> int
    decreases s.len(),
{
    if s.len() == 0 {
        0
    } else {
        digits_value(s.drop_last()) * 10 + (s.last() as int - '0' as int)
    }
}

/// Whether every character of `s` is an ASCII digit.
pub open spec fn all_digits(s: Seq<char>) -> bool {
    forall|i: int| 0 <= i < s.len() ==> '0' <= #[trigger] s[i] <= '9'
}

/// What `str::parse::<u32>` gives: an optional `+`, then at least one digit,
/// with a value that fits.
pub open spec fn parse_u32_spec(s: Seq<char>) -> Option<u32> {
    let d = if s.len() > 0 && s[0] == '+' { s.drop_first() } else { s };
    if d.len() > 0 && all_digits(d) && digits_value(d) <= u32::MAX {
        Some(digits_value(d) as u32)
    } else {
        None
    }
}

proof fn lemma_digits_value_nonneg(s: Seq<char>)
    requires
        all_digits(s),
    ensures
        digits_value(s) >= 0,
    decreases s.len(),
{
    if s.len() > 0 {
        lemma_digits_value_nonneg(s.drop_last());
    }
}

proof fn lemma_digits_value_grows(s: Seq<char>, k: int)
    requires
        all_digits(s),
        0 <= k <= s.len(),
    ensures
        digits_value(s.take(k)) <= digits_value(s),
    decreases s.len() - k,
{
    if k < s.len() {
        lemma_digits_value_grows(s, k + 1);
        assert(s.take(k + 1).drop_last() == s.take(k));
        lemma_digits_value_nonneg(s.take(k));
    } else {
        assert(s.take(k) == s);
    }
}

/// The process id AppleScript printed, as `str::parse::<u32>` reads it.
pub fn parse_process_id(text: &str) -> (r: Option<u32>)
    ensures
        r == parse_u32_spec(text@),
{
    let v = chars_of(text);
    let start: usize = if v.len() > 0 && v[0] == '+' { 1 } else { 0 };
    let ghost d = if v@.len() > 0 && v@[0] == '+' { v@.drop_first() } else { v@ };
    assert(d == v@.skip(start as int));
    if start >= v.len() {
        return None;
    }
    let mut value: u64 = 0;
    let mut i = start;
    while i < v.len()
        invariant
            start <= i <= v@.len(),
            v@ == text@,
            d == (if v@.len() > 0 && v@[0] == '+' { v@.drop_first() } else { v@ }),
            d == v@.skip(start as int),
            d.len() > 0,
            all_digits(d.take(i - start)),
            value == digits_value(d.take(i - start)),
            value <= u32::MAX,
        decreases v@.len() - i,
    {
        let c = v[i];
        assert(d[i - start] == c);
        if !('0' <= c && c <= '9') {
            assert(!all_digits(d));
            return None;
        }
        assert(d.take(i + 1 - start).drop_last() == d.take(i - start));
        let digit = (c as u32 - '0' as u32) as u64;
        let next = value * 10 + digit;
        if next > 4294967295 {
            proof {
                assert(all_digits(d.take(i + 1 - start)));
                if all_digits(d) {
                    lemma_digits_value_grows(d, i + 1 - start);
                }
            }
            return None;
        }
        value = next;
        i = i + 1;
    }
    assert(d.take(d.len() as int) == d);
    Some(value as u32)
}

/// Whether the secure-field probe answered "true", in any ASCII case.
pub fn probe_says_secure(reply: &str) -> (r: bool)
    ensures
        r == (lower(reply@) == "true"@),
{
    let v = chars_of(reply);
    let l = to_ascii_lower(&v);
    chars_eq_str(&l, "true")
}

} // verus!
