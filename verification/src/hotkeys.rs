//! Global shortcut parsing and the key-event state machine behind hold-to-talk
//! and toggle recording.
use vstd::prelude::*;
use crate::config::ShortcutBehavior;
use crate::error::AppError;
use crate::text::{
    chars_eq_str, chars_of, lower, lower_char, string_from_chars, to_ascii_lower, trim, trim_chars, trim_end,
    trim_start,
};

verus! {

/// What the shortcut listener reports to the dictation runtime.
#[derive(Debug, Clone, PartialEq, Eq)]
pub enum ShortcutEvent {
    Start,
    Stop,
    Cancel,
    Error(String),
}

/// A modifier of a shortcut; the declaration order is the canonical order.
#[derive(Debug, Clone, Copy, PartialEq, Eq, Structural)]
pub enum Modifier {
    Ctrl,
    Alt,
    Shift,
    Meta,
}

/// A physical key that the shortcut logic distinguishes.
#[derive(Debug, Clone, Copy, PartialEq, Eq, Structural, Hash)]
pub enum KeyCode {
    ControlLeft,
    ControlRight,
    Alt,
    AltGr,
    ShiftLeft,
    ShiftRight,
    MetaLeft,
    MetaRight,
    Space,
    Escape,
    KeyA,
    KeyB,
    KeyC,
    KeyD,
    KeyE,
    KeyF,
    KeyG,
    KeyH,
    KeyI,
    KeyJ,
    KeyK,
    KeyL,
    KeyM,
    KeyN,
    KeyO,
    KeyP,
    KeyQ,
    KeyR,
    KeyS,
    KeyT,
    KeyU,
    KeyV,
    KeyW,
    KeyX,
    KeyY,
    KeyZ,
    Num0,
    Num1,
    Num2,
    Num3,
    Num4,
    Num5,
    Num6,
    Num7,
    Num8,
    Num9,
}

/// A key going down or up.
#[derive(Debug, Clone, Copy, PartialEq, Eq, Structural)]
pub enum KeyEvent {
    Press(KeyCode),
    Release(KeyCode),
}

impl KeyEvent {
    pub open spec fn spec_key(self) -> KeyCode {
        match self {
            KeyEvent::Press(k) => k,
            KeyEvent::Release(k) => k,
        }
    }

    /// The key that the event is about.
    pub fn key(self) -> (r: KeyCode)
        ensures
            r == self.spec_key(),
    {
        match self {
            KeyEvent::Press(key) => key,
            KeyEvent::Release(key) => key,
        }
    }
}

// ---------------------------------------------------------------------------
// Key tables
// ---------------------------------------------------------------------------

/// The key of an ASCII letter, in either case.
pub open spec fn letter_key_spec(c: char) -> Option<KeyCode> {
    let l = lower_char(c);
    if l == 'a' { Some(KeyCode::KeyA) }
    else if l == 'b' { Some(KeyCode::KeyB) }
    else if l == 'c' { Some(KeyCode::KeyC) }
    else if l == 'd' { Some(KeyCode::KeyD) }
    else if l == 'e' { Some(KeyCode::KeyE) }
    else if l == 'f' { Some(KeyCode::KeyF) }
    else if l == 'g' { Some(KeyCode::KeyG) }
    else if l == 'h' { Some(KeyCode::KeyH) }
    else if l == 'i' { Some(KeyCode::KeyI) }
    else if l == 'j' { Some(KeyCode::KeyJ) }
    else if l == 'k' { Some(KeyCode::KeyK) }
    else if l == 'l' { Some(KeyCode::KeyL) }
    else if l == 'm' { Some(KeyCode::KeyM) }
    else if l == 'n' { Some(KeyCode::KeyN) }
    else if l == 'o' { Some(KeyCode::KeyO) }
    else if l == 'p' { Some(KeyCode::KeyP) }
    else if l == 'q' { Some(KeyCode::KeyQ) }
    else if l == 'r' { Some(KeyCode::KeyR) }
    else if l == 's' { Some(KeyCode::KeyS) }
    else if l == 't' { Some(KeyCode::KeyT) }
    else if l == 'u' { Some(KeyCode::KeyU) }
    else if l == 'v' { Some(KeyCode::KeyV) }
    else if l == 'w' { Some(KeyCode::KeyW) }
    else if l == 'x' { Some(KeyCode::KeyX) }
    else if l == 'y' { Some(KeyCode::KeyY) }
    else if l == 'z' { Some(KeyCode::KeyZ) }
    else { None }
}

/// The key of an ASCII digit.
pub open spec fn digit_key_spec(c: char) -> Option<KeyCode> {
    if c == '0' { Some(KeyCode::Num0) }
    else if c == '1' { Some(KeyCode::Num1) }
    else if c == '2' { Some(KeyCode::Num2) }
    else if c == '3' { Some(KeyCode::Num3) }
    else if c == '4' { Some(KeyCode::Num4) }
    else if c == '5' { Some(KeyCode::Num5) }
    else if c == '6' { Some(KeyCode::Num6) }
    else if c == '7' { Some(KeyCode::Num7) }
    else if c == '8' { Some(KeyCode::Num8) }
    else if c == '9' { Some(KeyCode::Num9) }
    else { None }
}

/// The key for a letter, ignoring ASCII case.
pub fn letter_key(ch: char) -> (r: Option<KeyCode>)
    ensures
        r == letter_key_spec(ch),
{
    let l = crate::text::to_ascii_lower_char(ch);
    match l {
        'a' => Some(KeyCode::KeyA),
        'b' => Some(KeyCode::KeyB),
        'c' => Some(KeyCode::KeyC),
        'd' => Some(KeyCode::KeyD),
        'e' => Some(KeyCode::KeyE),
        'f' => Some(KeyCode::KeyF),
        'g' => Some(KeyCode::KeyG),
        'h' => Some(KeyCode::KeyH),
        'i' => Some(KeyCode::KeyI),
        'j' => Some(KeyCode::KeyJ),
        'k' => Some(KeyCode::KeyK),
        'l' => Some(KeyCode::KeyL),
        'm' => Some(KeyCode::KeyM),
        'n' => Some(KeyCode::KeyN),
        'o' => Some(KeyCode::KeyO),
        'p' => Some(KeyCode::KeyP),
        'q' => Some(KeyCode::KeyQ),
        'r' => Some(KeyCode::KeyR),
        's' => Some(KeyCode::KeyS),
        't' => Some(KeyCode::KeyT),
        'u' => Some(KeyCode::KeyU),
        'v' => Some(KeyCode::KeyV),
        'w' => Some(KeyCode::KeyW),
        'x' => Some(KeyCode::KeyX),
        'y' => Some(KeyCode::KeyY),
        'z' => Some(KeyCode::KeyZ),
        _ => None,
    }
}

/// The key for a digit.
pub fn digit_key(ch: char) -> (r: Option<KeyCode>)
    ensures
        r == digit_key_spec(ch),
{
    match ch {
        '0' => Some(KeyCode::Num0),
        '1' => Some(KeyCode::Num1),
        '2' => Some(KeyCode::Num2),
        '3' => Some(KeyCode::Num3),
        '4' => Some(KeyCode::Num4),
        '5' => Some(KeyCode::Num5),
        '6' => Some(KeyCode::Num6),
        '7' => Some(KeyCode::Num7),
        '8' => Some(KeyCode::Num8),
        '9' => Some(KeyCode::Num9),
        _ => None,
    }
}

/// The key of a macOS virtual key code (`kVK_*`).
pub open spec fn macos_key_spec(keycode: u16) -> Option<KeyCode> {
    if keycode == 0 { Some(KeyCode::KeyA) }
    else if keycode == 1 { Some(KeyCode::KeyS) }
    else if keycode == 2 { Some(KeyCode::KeyD) }
    else if keycode == 3 { Some(KeyCode::KeyF) }
    else if keycode == 4 { Some(KeyCode::KeyH) }
    else if keycode == 5 { Some(KeyCode::KeyG) }
    else if keycode == 6 { Some(KeyCode::KeyZ) }
    else if keycode == 7 { Some(KeyCode::KeyX) }
    else if keycode == 8 { Some(KeyCode::KeyC) }
    else if keycode == 9 { Some(KeyCode::KeyV) }
    else if keycode == 11 { Some(KeyCode::KeyB) }
    else if keycode == 12 { Some(KeyCode::KeyQ) }
    else if keycode == 13 { Some(KeyCode::KeyW) }
    else if keycode == 14 { Some(KeyCode::KeyE) }
    else if keycode == 15 { Some(KeyCode::KeyR) }
    else if keycode == 16 { Some(KeyCode::KeyY) }
    else if keycode == 17 { Some(KeyCode::KeyT) }
    else if keycode == 18 { Some(KeyCode::Num1) }
    else if keycode == 19 { Some(KeyCode::Num2) }
    else if keycode == 20 { Some(KeyCode::Num3) }
    else if keycode == 21 { Some(KeyCode::Num4) }
    else if keycode == 22 { Some(KeyCode::Num6) }
    else if keycode == 23 { Some(KeyCode::Num5) }
    else if keycode == 25 { Some(KeyCode::Num9) }
    else if keycode == 26 { Some(KeyCode::Num7) }
    else if keycode == 28 { Some(KeyCode::Num8) }
    else if keycode == 29 { Some(KeyCode::Num0) }
    else if keycode == 31 { Some(KeyCode::KeyO) }
    else if keycode == 32 { Some(KeyCode::KeyU) }
    else if keycode == 34 { Some(KeyCode::KeyI) }
    else if keycode == 35 { Some(KeyCode::KeyP) }
    else if keycode == 37 { Some(KeyCode::KeyL) }
    else if keycode == 38 { Some(KeyCode::KeyJ) }
    else if keycode == 40 { Some(KeyCode::KeyK) }
    else if keycode == 45 { Some(KeyCode::KeyN) }
    else if keycode == 46 { Some(KeyCode::KeyM) }
    else if keycode == 49 { Some(KeyCode::Space) }
    else if keycode == 53 { Some(KeyCode::Escape) }
    else if keycode == 54 { Some(KeyCode::MetaRight) }
    else if keycode == 55 { Some(KeyCode::MetaLeft) }
    else if keycode == 56 { Some(KeyCode::ShiftLeft) }
    else if keycode == 58 { Some(KeyCode::Alt) }
    else if keycode == 59 { Some(KeyCode::ControlLeft) }
    else if keycode == 60 { Some(KeyCode::ShiftRight) }
    else if keycode == 61 { Some(KeyCode::AltGr) }
    else if keycode == 62 { Some(KeyCode::ControlRight) }
    else { None }
}

/// Maps a macOS virtual key code to a key.
pub fn macos_keycode_to_key(keycode: u16) -> (r: Option<KeyCode>)
    ensures
        r == macos_key_spec(keycode),
{
    match keycode {
        0 => Some(KeyCode::KeyA),
        1 => Some(KeyCode::KeyS),
        2 => Some(KeyCode::KeyD),
        3 => Some(KeyCode::KeyF),
        4 => Some(KeyCode::KeyH),
        5 => Some(KeyCode::KeyG),
        6 => Some(KeyCode::KeyZ),
        7 => Some(KeyCode::KeyX),
        8 => Some(KeyCode::KeyC),
        9 => Some(KeyCode::KeyV),
        11 => Some(KeyCode::KeyB),
        12 => Some(KeyCode::KeyQ),
        13 => Some(KeyCode::KeyW),
        14 => Some(KeyCode::KeyE),
        15 => Some(KeyCode::KeyR),
        16 => Some(KeyCode::KeyY),
        17 => Some(KeyCode::KeyT),
        18 => Some(KeyCode::Num1),
        19 => Some(KeyCode::Num2),
        20 => Some(KeyCode::Num3),
        21 => Some(KeyCode::Num4),
        22 => Some(KeyCode::Num6),
        23 => Some(KeyCode::Num5),
        25 => Some(KeyCode::Num9),
        26 => Some(KeyCode::Num7),
        28 => Some(KeyCode::Num8),
        29 => Some(KeyCode::Num0),
        31 => Some(KeyCode::KeyO),
        32 => Some(KeyCode::KeyU),
        34 => Some(KeyCode::KeyI),
        35 => Some(KeyCode::KeyP),
        37 => Some(KeyCode::KeyL),
        38 => Some(KeyCode::KeyJ),
        40 => Some(KeyCode::KeyK),
        45 => Some(KeyCode::KeyN),
        46 => Some(KeyCode::KeyM),
        49 => Some(KeyCode::Space),
        53 => Some(KeyCode::Escape),
        54 => Some(KeyCode::MetaRight),
        55 => Some(KeyCode::MetaLeft),
        56 => Some(KeyCode::ShiftLeft),
        58 => Some(KeyCode::Alt),
        59 => Some(KeyCode::ControlLeft),
        60 => Some(KeyCode::ShiftRight),
        61 => Some(KeyCode::AltGr),
        62 => Some(KeyCode::ControlRight),
        _ => None,
    }
}

/// The modifier that a key acts as, if any.
pub open spec fn key_modifier_spec(key: KeyCode) -> Option<Modifier> {
    match key {
        KeyCode::ControlLeft | KeyCode::ControlRight => Some(Modifier::Ctrl),
        KeyCode::Alt | KeyCode::AltGr => Some(Modifier::Alt),
        KeyCode::ShiftLeft | KeyCode::ShiftRight => Some(Modifier::Shift),
        KeyCode::MetaLeft | KeyCode::MetaRight => Some(Modifier::Meta),
        _ => None,
    }
}

/// The modifier that a key acts as, if any.
pub fn key_modifier(key: KeyCode) -> (r: Option<Modifier>)
    ensures
        r == key_modifier_spec(key),
{
    match key {
        KeyCode::ControlLeft | KeyCode::ControlRight => Some(Modifier::Ctrl),
        KeyCode::Alt | KeyCode::AltGr => Some(Modifier::Alt),
        KeyCode::ShiftLeft | KeyCode::ShiftRight => Some(Modifier::Shift),
        KeyCode::MetaLeft | KeyCode::MetaRight => Some(Modifier::Meta),
        _ => None,
    }
}

/// Whether either key of the modifier is down.
pub open spec fn modifier_pressed_spec(m: Modifier, pressed: Set<KeyCode>) -> bool {
    match m {
        Modifier::Ctrl => pressed.contains(KeyCode::ControlLeft) || pressed.contains(KeyCode::ControlRight),
        Modifier::Alt => pressed.contains(KeyCode::Alt) || pressed.contains(KeyCode::AltGr),
        Modifier::Shift => pressed.contains(KeyCode::ShiftLeft) || pressed.contains(KeyCode::ShiftRight),
        Modifier::Meta => pressed.contains(KeyCode::MetaLeft) || pressed.contains(KeyCode::MetaRight),
    }
}

// ---------------------------------------------------------------------------
// Shortcuts
// ---------------------------------------------------------------------------

/// A parsed shortcut: distinct modifiers in canonical order and one trigger key.
#[derive(Debug, Clone, PartialEq, Eq)]
pub struct Shortcut {
    modifiers: Vec<Modifier>,
    trigger: KeyCode,
}

impl View for Shortcut {
    type V = (Seq<Modifier>, KeyCode);

    closed spec fn view(&self) -> (Seq<Modifier>, KeyCode) {
        (self.modifiers@, self.trigger)
    }
}

/// Whether the shortcut is down: its trigger and each of its modifiers.
pub open spec fn shortcut_matches(sc: (Seq<Modifier>, KeyCode), pressed: Set<KeyCode>) -> bool {
    &&& pressed.contains(sc.1)
    &&& forall|i: int| 0 <= i < sc.0.len() ==> modifier_pressed_spec(#[trigger] sc.0[i], pressed)
}

/// Whether `key` is the trigger or a key of one of the shortcut's modifiers.
pub open spec fn shortcut_contains_key(sc: (Seq<Modifier>, KeyCode), key: KeyCode) -> bool {
    sc.1 == key || (key_modifier_spec(key) matches Some(m) && sc.0.contains(m))
}

/// The modifiers present, in canonical order.
pub open spec fn modifier_list(ctrl: bool, alt: bool, shift: bool, meta: bool) -> Seq<Modifier> {
    (if ctrl { seq![Modifier::Ctrl] } else { Seq::empty() }) + (if alt { seq![Modifier::Alt] } else {
        Seq::empty()
    }) + (if shift { seq![Modifier::Shift] } else { Seq::empty() }) + (if meta {
        seq![Modifier::Meta]
    } else {
        Seq::empty()
    })
}

/// The `+`-separated parts of a text (an empty text is one empty part).
pub open spec fn split_plus(s: Seq<char>) -> Seq<Seq<char>>
    decreases s.len(),
{
    if s.len() == 0 {
        seq![Seq::empty()]
    } else {
        let ps = split_plus(s.drop_last());
        if s.last() == '+' {
            ps.push(Seq::empty())
        } else {
            ps.update(ps.len() - 1, ps.last().push(s.last()))
        }
    }
}

pub proof fn lemma_split_plus_nonempty(s: Seq<char>)
    ensures
        split_plus(s).len() > 0,
    decreases s.len(),
{
    if s.len() > 0 {
        lemma_split_plus_nonempty(s.drop_last());
    }
}

/// What one part of a shortcut text stands for.
#[derive(Debug, Clone, Copy, PartialEq, Eq, Structural)]
pub enum ShortcutPart {
    Mod(Modifier),
    Key(Option<KeyCode>),
    Unsupported,
}

/// The meaning of a part, after trimming and ASCII lower-casing it. A single
/// ASCII character names a letter or digit key (or no key at all).
pub open spec fn classify_spec(part: Seq<char>) -> ShortcutPart {
    let p = lower(trim(part));
    if p == "ctrl"@ || p == "control"@ {
        ShortcutPart::Mod(Modifier::Ctrl)
    } else if p == "alt"@ || p == "option"@ {
        ShortcutPart::Mod(Modifier::Alt)
    } else if p == "shift"@ {
        ShortcutPart::Mod(Modifier::Shift)
    } else if p == "meta"@ || p == "cmd"@ || p == "command"@ || p == "super"@ || p == "win"@ || p
        == "windows"@ {
        ShortcutPart::Mod(Modifier::Meta)
    } else if p == "space"@ {
        ShortcutPart::Key(Some(KeyCode::Space))
    } else if p == "escape"@ || p == "esc"@ {
        ShortcutPart::Key(Some(KeyCode::Escape))
    } else if p.len() == 1 && (p[0] as u32) < 0x80 {
        ShortcutPart::Key(
            match letter_key_spec(p[0]) {
                Some(k) => Some(k),
                None => digit_key_spec(p[0]),
            },
        )
    } else {
        ShortcutPart::Unsupported
    }
}

/// Modifiers seen so far (ctrl, alt, shift, meta) and the latest trigger.
pub type ParseState = (bool, bool, bool, bool, Option<KeyCode>);

pub open spec fn parse_step(st: ParseState, part: ShortcutPart) -> ParseState {
    match part {
        ShortcutPart::Mod(Modifier::Ctrl) => (true, st.1, st.2, st.3, st.4),
        ShortcutPart::Mod(Modifier::Alt) => (st.0, true, st.2, st.3, st.4),
        ShortcutPart::Mod(Modifier::Shift) => (st.0, st.1, true, st.3, st.4),
        ShortcutPart::Mod(Modifier::Meta) => (st.0, st.1, st.2, true, st.4),
        ShortcutPart::Key(k) => (st.0, st.1, st.2, st.3, k),
        ShortcutPart::Unsupported => st,
    }
}

/// Reads the parts from `i` on; the first unsupported part is the error.
pub open spec fn parse_parts(parts: Seq<Seq<char>>, i: int, st: ParseState) -> Result<ParseState, Seq<char>>
    decreases parts.len() - i,
{
    if i < 0 || i >= parts.len() {
        Ok(st)
    } else if classify_spec(parts[i]) == ShortcutPart::Unsupported {
        Err(parts[i])
    } else {
        parse_parts(parts, i + 1, parse_step(st, classify_spec(parts[i])))
    }
}

/// The shortcut that a text describes, or the detail of the error.
pub open spec fn parse_spec(input: Seq<char>) -> Result<(Seq<Modifier>, KeyCode), Seq<char>> {
    match parse_parts(split_plus(input), 0, (false, false, false, false, None)) {
        Err(raw) => Err("unsupported shortcut key: "@ + raw),
        Ok(st) => match st.4 {
            None => Err("shortcut must include a non-modifier key"@),
            Some(trigger) => {
                let mods = modifier_list(st.0, st.1, st.2, st.3);
                if mods.len() == 0 {
                    Err("shortcut must include at least one modifier"@)
                } else {
                    Ok((mods, trigger))
                }
            },
        },
    }
}

/// Whether some part from index `i` on names the modifier `m`.
pub open spec fn names_modifier_from(parts: Seq<Seq<char>>, i: int, m: Modifier) -> bool {
    exists|j: int| i <= j < parts.len() && #[trigger] classify_spec(parts[j]) == ShortcutPart::Mod(m)
}

/// The key of the last key part from index `i` on, or `cur` when there is none.
pub open spec fn last_key_from(parts: Seq<Seq<char>>, i: int, cur: Option<KeyCode>) -> Option<KeyCode>
    decreases parts.len() - i,
{
    if i < 0 || i >= parts.len() {
        cur
    } else {
        match classify_spec(parts[i]) {
            ShortcutPart::Key(k) => last_key_from(parts, i + 1, k),
            _ => last_key_from(parts, i + 1, cur),
        }
    }
}

/// Whether every part from index `i` on is supported.
pub open spec fn all_supported_from(parts: Seq<Seq<char>>, i: int) -> bool {
    forall|j: int| i <= j < parts.len() ==> #[trigger] classify_spec(parts[j]) != ShortcutPart::Unsupported
}

/// Reading supported parts records which modifiers were named and the last key.
pub proof fn lemma_parse_parts_summary(parts: Seq<Seq<char>>, i: int, st: ParseState)
    requires
        0 <= i <= parts.len(),
        all_supported_from(parts, i),
    ensures
        parse_parts(parts, i, st) == Ok::<ParseState, Seq<char>>((
            st.0 || names_modifier_from(parts, i, Modifier::Ctrl),
            st.1 || names_modifier_from(parts, i, Modifier::Alt),
            st.2 || names_modifier_from(parts, i, Modifier::Shift),
            st.3 || names_modifier_from(parts, i, Modifier::Meta),
            last_key_from(parts, i, st.4),
        )),
    decreases parts.len() - i,
{
    if i < parts.len() {
        let c = classify_spec(parts[i]);
        assert(c != ShortcutPart::Unsupported);
        lemma_parse_parts_summary(parts, i + 1, parse_step(st, c));
        assert forall|m: Modifier| #[trigger] names_modifier_from(parts, i, m) == (c == ShortcutPart::Mod(m)
            || names_modifier_from(parts, i + 1, m)) by {
            if names_modifier_from(parts, i, m) {
                let j = choose|j: int| i <= j < parts.len() && #[trigger] classify_spec(parts[j]) == ShortcutPart::Mod(m);
                if j > i {
                    assert(names_modifier_from(parts, i + 1, m));
                }
            }
            if c == ShortcutPart::Mod(m) {
                assert(classify_spec(parts[i]) == ShortcutPart::Mod(m));
            }
            if names_modifier_from(parts, i + 1, m) {
                let j = choose|j: int| i + 1 <= j < parts.len() && #[trigger] classify_spec(parts[j]) == ShortcutPart::Mod(m);
                assert(classify_spec(parts[j]) == ShortcutPart::Mod(m));
            }
        }
        assert(names_modifier_from(parts, i, Modifier::Ctrl) == (c == ShortcutPart::Mod(Modifier::Ctrl)
            || names_modifier_from(parts, i + 1, Modifier::Ctrl)));
        assert(names_modifier_from(parts, i, Modifier::Alt) == (c == ShortcutPart::Mod(Modifier::Alt)
            || names_modifier_from(parts, i + 1, Modifier::Alt)));
        assert(names_modifier_from(parts, i, Modifier::Shift) == (c == ShortcutPart::Mod(Modifier::Shift)
            || names_modifier_from(parts, i + 1, Modifier::Shift)));
        assert(names_modifier_from(parts, i, Modifier::Meta) == (c == ShortcutPart::Mod(Modifier::Meta)
            || names_modifier_from(parts, i + 1, Modifier::Meta)));
    } else {
        assert(!names_modifier_from(parts, i, Modifier::Ctrl));
        assert(!names_modifier_from(parts, i, Modifier::Alt));
        assert(!names_modifier_from(parts, i, Modifier::Shift));
        assert(!names_modifier_from(parts, i, Modifier::Meta));
    }
}

/// The parsed shortcut depends only on which modifiers the text names and on
/// its last key part: reordering, repeating, re-casing, padding or aliasing
/// the modifier parts gives the same shortcut (or the same error).
pub proof fn law_parse_ignores_modifier_order(a: Seq<char>, b: Seq<char>)
    requires
        all_supported_from(split_plus(a), 0),
        all_supported_from(split_plus(b), 0),
        forall|m: Modifier| names_modifier_from(split_plus(a), 0, m) == names_modifier_from(split_plus(b), 0, m),
        last_key_from(split_plus(a), 0, None) == last_key_from(split_plus(b), 0, None),
    ensures
        parse_spec(a) == parse_spec(b),
{
    let init: ParseState = (false, false, false, false, None);
    lemma_parse_parts_summary(split_plus(a), 0, init);
    lemma_parse_parts_summary(split_plus(b), 0, init);
    assert(names_modifier_from(split_plus(a), 0, Modifier::Ctrl) == names_modifier_from(split_plus(b), 0, Modifier::Ctrl));
    assert(names_modifier_from(split_plus(a), 0, Modifier::Alt) == names_modifier_from(split_plus(b), 0, Modifier::Alt));
    assert(names_modifier_from(split_plus(a), 0, Modifier::Shift) == names_modifier_from(split_plus(b), 0, Modifier::Shift));
    assert(names_modifier_from(split_plus(a), 0, Modifier::Meta) == names_modifier_from(split_plus(b), 0, Modifier::Meta));
}

/// The number key that a digit character names.
pub open spec fn number_key_named(d: char) -> KeyCode {
    if d == '0' {
        KeyCode::Num0
    } else if d == '1' {
        KeyCode::Num1
    } else if d == '2' {
        KeyCode::Num2
    } else if d == '3' {
        KeyCode::Num3
    } else if d == '4' {
        KeyCode::Num4
    } else if d == '5' {
        KeyCode::Num5
    } else if d == '6' {
        KeyCode::Num6
    } else if d == '7' {
        KeyCode::Num7
    } else if d == '8' {
        KeyCode::Num8
    } else {
        KeyCode::Num9
    }
}

proof fn lemma_split_plus_last_part(a: Seq<char>, d: char)
    requires
        d != '+',
    ensures
        split_plus(a.push('+').push(d)) == split_plus(a).push(seq![d]),
{
    let x = a.push('+').push(d);
    assert(x.drop_last() == a.push('+'));
    assert(a.push('+').drop_last() == a);
    let ps = split_plus(a.push('+'));
    assert(ps == split_plus(a).push(Seq::<char>::empty()));
    assert(ps.last().push(d) =~= seq![d]);
    assert(ps.update(ps.len() - 1, ps.last().push(d)) =~= split_plus(a).push(seq![d]));
}

proof fn lemma_classify_digit(d: char)
    requires
        '0' <= d <= '9',
    ensures
        classify_spec(seq![d]) == ShortcutPart::Key(Some(number_key_named(d))),
{
    let s = seq![d];
    assert(trim_end(s) == s);
    assert(trim_start(s) == s);
    assert(lower(s) =~= s);
    reveal_strlit("ctrl");
    reveal_strlit("control");
    reveal_strlit("alt");
    reveal_strlit("option");
    reveal_strlit("shift");
    reveal_strlit("meta");
    reveal_strlit("cmd");
    reveal_strlit("command");
    reveal_strlit("super");
    reveal_strlit("win");
    reveal_strlit("windows");
    reveal_strlit("space");
    reveal_strlit("escape");
    reveal_strlit("esc");
    assert(lower(trim(s)) == s);
    assert(letter_key_spec(d) is None);
}

proof fn lemma_last_key_pushed(ps: Seq<Seq<char>>, p: Seq<char>, i: int, cur: Option<KeyCode>, k: Option<KeyCode>)
    requires
        0 <= i <= ps.len(),
        classify_spec(p) == ShortcutPart::Key(k),
    ensures
        last_key_from(ps.push(p), i, cur) == k,
    decreases ps.len() - i,
{
    let q = ps.push(p);
    if i < ps.len() {
        assert(q[i] == ps[i]);
        match classify_spec(q[i]) {
            ShortcutPart::Key(k2) => lemma_last_key_pushed(ps, p, i + 1, k2, k),
            _ => lemma_last_key_pushed(ps, p, i + 1, cur, k),
        }
    } else {
        assert(q[i] == p);
        assert(last_key_from(q, i + 1, k) == k);
    }
}

/// A single digit after the modifiers names its number key: for a text `a` of
/// supported parts naming some modifier, `a + "+" + d` parses to the modifiers
/// of `a` with the digit's number key as trigger.
pub proof fn law_digit_part_is_number_key(a: Seq<char>, d: char, m: Modifier)
    requires
        '0' <= d <= '9',
        all_supported_from(split_plus(a), 0),
        names_modifier_from(split_plus(a), 0, m),
    ensures
        parse_spec(a.push('+').push(d)) matches Ok((mods, trigger)) && trigger == number_key_named(d)
            && mods == modifier_list(
                names_modifier_from(split_plus(a), 0, Modifier::Ctrl),
                names_modifier_from(split_plus(a), 0, Modifier::Alt),
                names_modifier_from(split_plus(a), 0, Modifier::Shift),
                names_modifier_from(split_plus(a), 0, Modifier::Meta),
            ),
{
    let ps = split_plus(a);
    let qs = ps.push(seq![d]);
    lemma_split_plus_last_part(a, d);
    lemma_classify_digit(d);
    assert forall|j: int| 0 <= j < qs.len() implies #[trigger] classify_spec(qs[j]) != ShortcutPart::Unsupported by {
        if j < ps.len() {
            assert(qs[j] == ps[j]);
        } else {
            assert(qs[j] == seq![d]);
        }
    }
    assert forall|mm: Modifier| #[trigger] names_modifier_from(qs, 0, mm) == names_modifier_from(ps, 0, mm) by {
        if names_modifier_from(qs, 0, mm) {
            let j = choose|j: int| 0 <= j < qs.len() && #[trigger] classify_spec(qs[j]) == ShortcutPart::Mod(mm);
            if j == ps.len() {
                assert(qs[j] == seq![d]);
            } else {
                assert(qs[j] == ps[j]);
            }
        }
        if names_modifier_from(ps, 0, mm) {
            let j = choose|j: int| 0 <= j < ps.len() && #[trigger] classify_spec(ps[j]) == ShortcutPart::Mod(mm);
            assert(qs[j] == ps[j]);
        }
    }
    lemma_parse_parts_summary(qs, 0, (false, false, false, false, None));
    lemma_last_key_pushed(ps, seq![d], 0, None, Some(number_key_named(d)));
    assert(names_modifier_from(qs, 0, m));
    let mods = modifier_list(
        names_modifier_from(ps, 0, Modifier::Ctrl),
        names_modifier_from(ps, 0, Modifier::Alt),
        names_modifier_from(ps, 0, Modifier::Shift),
        names_modifier_from(ps, 0, Modifier::Meta),
    );
    assert(names_modifier_from(qs, 0, Modifier::Ctrl) == names_modifier_from(ps, 0, Modifier::Ctrl));
    assert(names_modifier_from(qs, 0, Modifier::Alt) == names_modifier_from(ps, 0, Modifier::Alt));
    assert(names_modifier_from(qs, 0, Modifier::Shift) == names_modifier_from(ps, 0, Modifier::Shift));
    assert(names_modifier_from(qs, 0, Modifier::Meta) == names_modifier_from(ps, 0, Modifier::Meta));
    assert(mods.len() > 0);
}

fn split_on_plus(s: &Vec<char>) -> (r: Vec<Vec<char>>)
    ensures
        r@.len() == split_plus(s@).len(),
        forall|i: int| 0 <= i < r@.len() ==> (#[trigger] r@[i])@ == split_plus(s@)[i],
{
    let mut done: Vec<Vec<char>> = Vec::new();
    let mut cur: Vec<char> = Vec::new();
    for i in 0..s.len()
        invariant
            split_plus(s@.take(i as int)).len() == done@.len() + 1,
            split_plus(s@.take(i as int)).last() == cur@,
            forall|k: int| 0 <= k < done@.len() ==> (#[trigger] done@[k])@ == split_plus(s@.take(i as int))[k],
    {
        assert(s@.take(i + 1).drop_last() == s@.take(i as int));
        if s[i] == '+' {
            let finished = cur;
            done.push(finished);
            cur = Vec::new();
        } else {
            cur.push(s[i]);
        }
    }
    assert(s@.take(s.len() as int) == s@);
    done.push(cur);
    done
}

fn classify_part(part: &Vec<char>) -> (r: ShortcutPart)
    ensures
        r == classify_spec(part@),
{
    let t = trim_chars(part);
    let p = to_ascii_lower(&t);
    if chars_eq_str(&p, "ctrl") || chars_eq_str(&p, "control") {
        ShortcutPart::Mod(Modifier::Ctrl)
    } else if chars_eq_str(&p, "alt") || chars_eq_str(&p, "option") {
        ShortcutPart::Mod(Modifier::Alt)
    } else if chars_eq_str(&p, "shift") {
        ShortcutPart::Mod(Modifier::Shift)
    } else if chars_eq_str(&p, "meta") || chars_eq_str(&p, "cmd") || chars_eq_str(&p, "command")
        || chars_eq_str(&p, "super") || chars_eq_str(&p, "win") || chars_eq_str(&p, "windows") {
        ShortcutPart::Mod(Modifier::Meta)
    } else if chars_eq_str(&p, "space") {
        ShortcutPart::Key(Some(KeyCode::Space))
    } else if chars_eq_str(&p, "escape") || chars_eq_str(&p, "esc") {
        ShortcutPart::Key(Some(KeyCode::Escape))
    } else if p.len() == 1 && (p[0] as u32) < 0x80 {
        let ch = p[0];
        let key = match letter_key(ch) {
            Some(k) => Some(k),
            None => digit_key(ch),
        };
        ShortcutPart::Key(key)
    } else {
        ShortcutPart::Unsupported
    }
}

fn error_with(prefix: &str, raw: &Vec<char>) -> (r: AppError)
    ensures
        r matches AppError::Shortcut(m) && m@ == prefix@ + raw@,
{
    let mut v = chars_of(prefix);
    crate::text::append_chars(&mut v, raw);
    AppError::Shortcut(string_from_chars(&v))
}

impl Shortcut {
    /// The trigger key.
    pub fn trigger(&self) -> (r: KeyCode)
        ensures
            r == self@.1,
    {
        self.trigger
    }

    /// The modifiers, distinct and in canonical order.
    pub fn modifiers(&self) -> (r: &Vec<Modifier>)
        ensures
            r@ == self@.0,
    {
        &self.modifiers
    }

    /// Parses a `+`-separated shortcut such as `Ctrl+Alt+Space`. Parts are
    /// trimmed and case-insensitive; modifiers may repeat; the last key part wins.
    pub fn parse(input: &str) -> (r: Result<Self, AppError>)
        ensures
            match parse_spec(input@) {
                Ok(sc) => r matches Ok(s) && s@ == sc,
                Err(detail) => r matches Err(AppError::Shortcut(m)) && m@ == detail,
            },
    {
        let chars = chars_of(input);
        let parts = split_on_plus(&chars);
        let ghost ps = split_plus(chars@);
        let mut ctrl = false;
        let mut alt = false;
        let mut shift = false;
        let mut meta = false;
        let mut trigger: Option<KeyCode> = None;
        let mut i: usize = 0;
        while i < parts.len()
            invariant
                i <= parts@.len(),
                parts@.len() == ps.len(),
                ps == split_plus(input@),
                forall|k: int| 0 <= k < parts@.len() ==> (#[trigger] parts@[k])@ == ps[k],
                parse_parts(ps, i as int, (ctrl, alt, shift, meta, trigger)) == parse_parts(
                    ps,
                    0,
                    (false, false, false, false, None),
                ),
            decreases parts@.len() - i,
        {
            match classify_part(&parts[i]) {
                ShortcutPart::Mod(Modifier::Ctrl) => { ctrl = true; },
                ShortcutPart::Mod(Modifier::Alt) => { alt = true; },
                ShortcutPart::Mod(Modifier::Shift) => { shift = true; },
                ShortcutPart::Mod(Modifier::Meta) => { meta = true; },
                ShortcutPart::Key(k) => { trigger = k; },
                ShortcutPart::Unsupported => {
                    return Err(error_with("unsupported shortcut key: ", &parts[i]));
                },
            }
            i += 1;
        }
        let trigger = match trigger {
            Some(t) => t,
            None => {
                return Err(AppError::Shortcut(
                    crate::text::string_of("shortcut must include a non-modifier key"),
                ));
            },
        };
        let mut modifiers: Vec<Modifier> = Vec::new();
        if ctrl {
            modifiers.push(Modifier::Ctrl);
        }
        if alt {
            modifiers.push(Modifier::Alt);
        }
        if shift {
            modifiers.push(Modifier::Shift);
        }
        if meta {
            modifiers.push(Modifier::Meta);
        }
        assert(modifiers@ == modifier_list(ctrl, alt, shift, meta));
        if modifiers.len() == 0 {
            return Err(AppError::Shortcut(
                crate::text::string_of("shortcut must include at least one modifier"),
            ));
        }
        Ok(Shortcut { modifiers, trigger })
    }
}

// ---------------------------------------------------------------------------
// Key-event state machine
// ---------------------------------------------------------------------------

/// The keys currently down and whether a recording is active.
pub type KeyState = (Set<KeyCode>, bool);

/// Hold-to-talk: the shortcut going down starts, its trigger coming up stops,
/// Escape cancels an active recording.
pub open spec fn hold_step(st: KeyState, ev: KeyEvent, sc: (Seq<Modifier>, KeyCode)) -> (KeyState, Option<ShortcutEvent>) {
    let (pressed, active) = st;
    match ev {
        KeyEvent::Press(k) => if k == KeyCode::Escape && active {
            ((Set::empty(), false), Some(ShortcutEvent::Cancel))
        } else {
            let p2 = pressed.insert(k);
            if !active && shortcut_matches(sc, p2) {
                ((p2, true), Some(ShortcutEvent::Start))
            } else {
                ((p2, active), None)
            }
        },
        KeyEvent::Release(k) => {
            let p2 = pressed.remove(k);
            if active && k == sc.1 {
                ((p2, false), Some(ShortcutEvent::Stop))
            } else {
                ((p2, active), None)
            }
        },
    }
}

/// Toggle: each fresh press of the whole shortcut starts or stops; key repeat of
/// a key already down does nothing; Escape cancels an active recording.
pub open spec fn toggle_step(st: KeyState, ev: KeyEvent, sc: (Seq<Modifier>, KeyCode)) -> (KeyState, Option<ShortcutEvent>) {
    let (pressed, active) = st;
    match ev {
        KeyEvent::Press(k) => if k == KeyCode::Escape && active {
            ((Set::empty(), false), Some(ShortcutEvent::Cancel))
        } else if pressed.contains(k) {
            (st, None)
        } else {
            let p2 = pressed.insert(k);
            if shortcut_matches(sc, p2) {
                if active {
                    ((Set::empty(), false), Some(ShortcutEvent::Stop))
                } else {
                    ((p2, true), Some(ShortcutEvent::Start))
                }
            } else {
                ((p2, active), None)
            }
        },
        KeyEvent::Release(k) => ((pressed.remove(k), active), None),
    }
}

pub open spec fn handle_step(
    st: KeyState,
    ev: KeyEvent,
    sc: (Seq<Modifier>, KeyCode),
    behavior: ShortcutBehavior,
) -> (KeyState, Option<ShortcutEvent>) {
    match behavior {
        ShortcutBehavior::Hold => hold_step(st, ev, sc),
        ShortcutBehavior::Toggle => toggle_step(st, ev, sc),
    }
}

/// Whether one of the keys of modifier `m` is among `pressed`.
pub open spec fn modifier_key_down(m: Modifier, pressed: Set<KeyCode>) -> bool {
    ||| m == Modifier::Ctrl && (pressed.contains(KeyCode::ControlLeft) || pressed.contains(KeyCode::ControlRight))
    ||| m == Modifier::Alt && (pressed.contains(KeyCode::Alt) || pressed.contains(KeyCode::AltGr))
    ||| m == Modifier::Shift && (pressed.contains(KeyCode::ShiftLeft) || pressed.contains(KeyCode::ShiftRight))
    ||| m == Modifier::Meta && (pressed.contains(KeyCode::MetaLeft) || pressed.contains(KeyCode::MetaRight))
}

/// A recording starts only while the whole shortcut is down: after a step
/// that emits Start, the trigger and, for every modifier of the shortcut, one
/// of that modifier's keys are down. In hold mode the converse holds too: when
/// not recording, pressing a key that completes the shortcut starts.
pub proof fn law_start_needs_whole_shortcut(
    st: KeyState,
    ev: KeyEvent,
    sc: (Seq<Modifier>, KeyCode),
    behavior: ShortcutBehavior,
)
    ensures
        handle_step(st, ev, sc, behavior).1 == Some(ShortcutEvent::Start) ==> {
            let p = handle_step(st, ev, sc, behavior).0.0;
            &&& p.contains(sc.1)
            &&& forall|i: int| 0 <= i < sc.0.len() ==> modifier_key_down(#[trigger] sc.0[i], p)
        },
        ({
            let k = ev.spec_key();
            let p = st.0.insert(k);
            behavior == ShortcutBehavior::Hold && !st.1 && ev == KeyEvent::Press(k) && k != KeyCode::Escape
                && p.contains(sc.1) && (forall|i: int| 0 <= i < sc.0.len() ==> modifier_key_down(#[trigger] sc.0[i], p))
                ==> handle_step(st, ev, sc, behavior).1 == Some(ShortcutEvent::Start)
        }),
{
    let r = handle_step(st, ev, sc, behavior);
    if r.1 == Some(ShortcutEvent::Start) {
        let p = r.0.0;
        assert(shortcut_matches(sc, p));
        assert forall|i: int| 0 <= i < sc.0.len() implies modifier_key_down(#[trigger] sc.0[i], p) by {
            assert(modifier_pressed_spec(sc.0[i], p));
        }
    }
    let k = ev.spec_key();
    let p = st.0.insert(k);
    if behavior == ShortcutBehavior::Hold && !st.1 && ev == KeyEvent::Press(k) && k != KeyCode::Escape
        && p.contains(sc.1) && (forall|i: int| 0 <= i < sc.0.len() ==> modifier_key_down(#[trigger] sc.0[i], p)) {
        assert forall|i: int| 0 <= i < sc.0.len() implies modifier_pressed_spec(#[trigger] sc.0[i], p) by {
            assert(modifier_key_down(sc.0[i], p));
        }
        assert(shortcut_matches(sc, p));
    }
}

/// Whether the key event belongs to an active recording and should not reach other apps.
pub open spec fn swallow_spec(st: KeyState, ev: KeyEvent, sc: (Seq<Modifier>, KeyCode)) -> bool {
    st.1 && (ev.spec_key() == KeyCode::Escape || shortcut_contains_key(sc, ev.spec_key()))
}

/// The events emitted while feeding `evs` to the state machine, and the final state.
pub open spec fn run_keys(
    st: KeyState,
    evs: Seq<KeyEvent>,
    sc: (Seq<Modifier>, KeyCode),
    behavior: ShortcutBehavior,
) -> (KeyState, Seq<ShortcutEvent>)
    decreases evs.len(),
{
    if evs.len() == 0 {
        (st, Seq::empty())
    } else {
        let (st1, out1) = run_keys(st, evs.drop_last(), sc, behavior);
        let (st2, e) = handle_step(st1, evs.last(), sc, behavior);
        match e {
            Some(ev) => (st2, out1.push(ev)),
            None => (st2, out1),
        }
    }
}

/// A start opens a recording; a stop or cancel closes an open one; nothing else
/// changes whether a recording is open.
pub proof fn law_step_toggles_activity(
    st: KeyState,
    ev: KeyEvent,
    sc: (Seq<Modifier>, KeyCode),
    behavior: ShortcutBehavior,
)
    ensures
        ({
            let (st2, e) = handle_step(st, ev, sc, behavior);
            &&& e == Some(ShortcutEvent::Start) ==> !st.1 && st2.1
            &&& (e == Some(ShortcutEvent::Stop) || e == Some(ShortcutEvent::Cancel)) ==> st.1 && !st2.1
            &&& e is None ==> st2.1 == st.1
            &&& e is Some ==> (e == Some(ShortcutEvent::Start) || e == Some(ShortcutEvent::Stop) || e
                == Some(ShortcutEvent::Cancel))
        }),
{
}

/// From an idle state, the emitted events alternate: starts at even positions,
/// stops or cancels at odd positions; so a recording is never started twice
/// without being stopped, and never stopped when it was not started.
pub proof fn law_events_alternate(
    st: KeyState,
    evs: Seq<KeyEvent>,
    sc: (Seq<Modifier>, KeyCode),
    behavior: ShortcutBehavior,
)
    requires
        !st.1,
    ensures
        ({
            let (fin, out) = run_keys(st, evs, sc, behavior);
            &&& fin.1 == (out.len() % 2 == 1)
            &&& forall|i: int| 0 <= i < out.len() ==> (#[trigger] out[i] == ShortcutEvent::Start) == (i % 2 == 0)
            &&& forall|i: int| 0 <= i < out.len() ==> (out[i] == ShortcutEvent::Start || out[i] == ShortcutEvent::Stop
                || out[i] == ShortcutEvent::Cancel)
        }),
    decreases evs.len(),
{
    if evs.len() > 0 {
        law_events_alternate(st, evs.drop_last(), sc, behavior);
        let (st1, out1) = run_keys(st, evs.drop_last(), sc, behavior);
        law_step_toggles_activity(st1, evs.last(), sc, behavior);
    }
}

/// Membership after a push: the old members and the pushed value.
pub proof fn lemma_contains_push<T>(s: Seq<T>, x: T)
    ensures
        forall|a: T| #[trigger] s.push(x).contains(a) == (s.contains(a) || a == x),
{
    assert forall|a: T| #[trigger] s.push(x).contains(a) == (s.contains(a) || a == x) by {
        let t = s.push(x);
        if t.contains(a) && a != x {
            let j = choose|j: int| 0 <= j < t.len() && t[j] == a;
            assert(s[j] == a);
        }
        if s.contains(a) {
            let j = choose|j: int| 0 <= j < s.len() && s[j] == a;
            assert(t[j] == a);
        }
        if a == x {
            assert(t[s.len() as int] == a);
        }
    }
}

/// The pressed keys and the recording flag of the global shortcut listener.
#[derive(Debug)]
pub struct ShortcutState {
    pressed: Vec<KeyCode>,
    active: bool,
}

impl View for ShortcutState {
    type V = KeyState;

    closed spec fn view(&self) -> KeyState {
        (self.pressed@.to_set(), self.active)
    }
}

impl ShortcutState {
    /// No key down, no recording.
    pub fn new() -> (r: Self)
        ensures
            r@ == (Set::<KeyCode>::empty(), false),
    {
        let r = ShortcutState { pressed: Vec::new(), active: false };
        assert(r.pressed@.to_set() =~= Set::<KeyCode>::empty());
        r
    }

    /// Whether a recording is active.
    pub fn is_active(&self) -> (r: bool)
        ensures
            r == self@.1,
    {
        self.active
    }

    /// Whether `key` is down.
    pub fn is_pressed(&self, key: KeyCode) -> (r: bool)
        ensures
            r == self@.0.contains(key),
    {
        for i in 0..self.pressed.len()
            invariant
                forall|j: int| 0 <= j < i ==> self.pressed@[j] != key,
        {
            if self.pressed[i] == key {
                assert(self.pressed@.contains(key));
                return true;
            }
        }
        false
    }

    fn position(&self, key: KeyCode) -> (r: Option<usize>)
        ensures
            r matches Some(i) ==> i < self.pressed@.len() && self.pressed@[i as int] == key,
            r is None ==> !self@.0.contains(key),
    {
        for i in 0..self.pressed.len()
            invariant
                forall|j: int| 0 <= j < i ==> self.pressed@[j] != key,
        {
            if self.pressed[i] == key {
                return Some(i);
            }
        }
        None
    }

    /// Records `key` as down; returns whether it was up before.
    pub fn press_key(&mut self, key: KeyCode) -> (r: bool)
        ensures
            final(self)@ == (old(self)@.0.insert(key), old(self)@.1),
            r == !old(self)@.0.contains(key),
    {
        if self.is_pressed(key) {
            assert(self@.0.insert(key) =~= self@.0);
            return false;
        }
        let ghost before = self.pressed@;
        self.pressed.push(key);
        proof {
            lemma_contains_push(before, key);
            assert(self.pressed@.to_set() =~= before.to_set().insert(key));
        }
        true
    }

    /// Records `key` as up.
    pub fn release_key(&mut self, key: KeyCode)
        ensures
            final(self)@ == (old(self)@.0.remove(key), old(self)@.1),
    {
        let ghost before = self.pressed@;
        let mut kept: Vec<KeyCode> = Vec::new();
        for i in 0..self.pressed.len()
            invariant
                self.pressed@ == before,
                forall|a: KeyCode| #[trigger] kept@.contains(a) == (before.take(i as int).contains(a) && a != key),
        {
            let k = self.pressed[i];
            proof {
                assert(before.take(i + 1) == before.take(i as int).push(k));
                lemma_contains_push(before.take(i as int), k);
            }
            if k != key {
                let ghost kb = kept@;
                kept.push(k);
                proof {
                    lemma_contains_push(kb, k);
                }
            }
        }
        assert(before.take(before.len() as int) == before);
        self.pressed = kept;
        assert(self.pressed@.to_set() =~= before.to_set().remove(key));
    }

    fn clear_keys(&mut self)
        ensures
            final(self)@ == (Set::<KeyCode>::empty(), old(self)@.1),
    {
        self.pressed.clear();
        assert(self.pressed@.to_set() =~= Set::<KeyCode>::empty());
    }

    fn set_active(&mut self, active: bool)
        ensures
            final(self)@ == (old(self)@.0, active),
    {
        self.active = active;
    }

    fn modifier_pressed(&self, m: Modifier) -> (r: bool)
        ensures
            r == modifier_pressed_spec(m, self@.0),
    {
        match m {
            Modifier::Ctrl => self.is_pressed(KeyCode::ControlLeft) || self.is_pressed(KeyCode::ControlRight),
            Modifier::Alt => self.is_pressed(KeyCode::Alt) || self.is_pressed(KeyCode::AltGr),
            Modifier::Shift => self.is_pressed(KeyCode::ShiftLeft) || self.is_pressed(KeyCode::ShiftRight),
            Modifier::Meta => self.is_pressed(KeyCode::MetaLeft) || self.is_pressed(KeyCode::MetaRight),
        }
    }

    /// Whether the whole shortcut is down.
    pub fn matches(&self, shortcut: &Shortcut) -> (r: bool)
        ensures
            r == shortcut_matches(shortcut@, self@.0),
    {
        if !self.is_pressed(shortcut.trigger) {
            return false;
        }
        for i in 0..shortcut.modifiers.len()
            invariant
                forall|j: int| 0 <= j < i ==> modifier_pressed_spec(#[trigger] shortcut@.0[j], self@.0),
        {
            if !self.modifier_pressed(shortcut.modifiers[i]) {
                assert(!modifier_pressed_spec(shortcut@.0[i as int], self@.0));
                return false;
            }
        }
        true
    }

    fn handle_hold(&mut self, event: KeyEvent, shortcut: &Shortcut) -> (r: Option<ShortcutEvent>)
        ensures
            (final(self)@, r) == hold_step(old(self)@, event, shortcut@),
    {
        match event {
            KeyEvent::Press(KeyCode::Escape) if self.active => {
                self.set_active(false);
                self.clear_keys();
                Some(ShortcutEvent::Cancel)
            },
            KeyEvent::Press(key) => {
                self.press_key(key);
                if !self.active && self.matches(shortcut) {
                    self.set_active(true);
                    Some(ShortcutEvent::Start)
                } else {
                    None
                }
            },
            KeyEvent::Release(key) => {
                let was_active = self.active;
                self.release_key(key);
                if was_active && key == shortcut.trigger {
                    self.set_active(false);
                    Some(ShortcutEvent::Stop)
                } else {
                    None
                }
            },
        }
    }

    fn handle_toggle(&mut self, event: KeyEvent, shortcut: &Shortcut) -> (r: Option<ShortcutEvent>)
        ensures
            (final(self)@, r) == toggle_step(old(self)@, event, shortcut@),
    {
        match event {
            KeyEvent::Press(KeyCode::Escape) if self.active => {
                self.set_active(false);
                self.clear_keys();
                Some(ShortcutEvent::Cancel)
            },
            KeyEvent::Press(key) => {
                let newly_pressed = self.press_key(key);
                if !newly_pressed {
                    return None;
                }
                if self.matches(shortcut) {
                    if self.active {
                        self.set_active(false);
                        self.clear_keys();
                        Some(ShortcutEvent::Stop)
                    } else {
                        self.set_active(true);
                        Some(ShortcutEvent::Start)
                    }
                } else {
                    None
                }
            },
            KeyEvent::Release(key) => {
                self.release_key(key);
                None
            },
        }
    }

    /// Feeds one key event to the state machine of the given behavior.
    pub fn handle(&mut self, event: KeyEvent, shortcut: &Shortcut, behavior: ShortcutBehavior) -> (r: Option<ShortcutEvent>)
        ensures
            (final(self)@, r) == handle_step(old(self)@, event, shortcut@, behavior),
    {
        match behavior {
            ShortcutBehavior::Hold => self.handle_hold(event, shortcut),
            ShortcutBehavior::Toggle => self.handle_toggle(event, shortcut),
        }
    }

    /// Whether `event` belongs to an active recording and should be kept from other apps.
    pub fn should_swallow(&self, event: KeyEvent, shortcut: &Shortcut) -> (r: bool)
        ensures
            r == swallow_spec(self@, event, shortcut@),
    {
        let key = event.key();
        if !self.active {
            return false;
        }
        if key == KeyCode::Escape || shortcut.trigger == key {
            return true;
        }
        match key_modifier(key) {
            Some(m) => {
                for i in 0..shortcut.modifiers.len()
                    invariant
                        forall|j: int| 0 <= j < i ==> shortcut@.0[j] != m,
                        key_modifier_spec(key) == Some(m),
                        key == event.spec_key(),
                        self@.1,
                {
                    if shortcut.modifiers[i] == m {
                        assert(shortcut@.0[i as int] == m);
                        assert(shortcut@.0.contains(m));
                        assert(key_modifier_spec(key) == Some(m));
                        return true;
                    }
                }
                false
            },
            None => false,
        }
    }

    /// Sets one modifier group from the platform's modifier flags: when the
    /// modifier is down its canonical key is marked down, otherwise every key of
    /// the group is marked up.
    pub fn set_modifier_group(&mut self, active: bool, keys: &[KeyCode], canonical: KeyCode)
        ensures
            active ==> final(self)@ == (old(self)@.0.insert(canonical), old(self)@.1),
            !active ==> final(self)@ == (old(self)@.0.difference(keys@.to_set()), old(self)@.1),
    {
        if active {
            self.press_key(canonical);
        } else {
            let ghost start = self@.0;
            for i in 0..keys.len()
                invariant
                    self@ == (start.difference(keys@.take(i as int).to_set()), old(self)@.1),
            {
                self.release_key(keys[i]);
                proof {
                    assert(keys@.take(i + 1) == keys@.take(i as int).push(keys@[i as int]));
                    lemma_contains_push(keys@.take(i as int), keys@[i as int]);
                    assert(start.difference(keys@.take(i + 1).to_set()) =~= start.difference(
                        keys@.take(i as int).to_set(),
                    ).remove(keys@[i as int]));
                }
            }
            assert(keys@.take(keys@.len() as int) == keys@);
        }
    }

    /// Brings the modifier keys in line with the platform's modifier flags.
    pub fn sync_modifiers(&mut self, ctrl: bool, alt: bool, shift: bool, meta: bool)
        ensures
            final(self)@ == (sync_keys(old(self)@.0, ctrl, alt, shift, meta), old(self)@.1),
    {
        let ctrl_keys = [KeyCode::ControlLeft, KeyCode::ControlRight];
        let alt_keys = [KeyCode::Alt, KeyCode::AltGr];
        let shift_keys = [KeyCode::ShiftLeft, KeyCode::ShiftRight];
        let meta_keys = [KeyCode::MetaLeft, KeyCode::MetaRight];
        assert(ctrl_keys@ == seq![KeyCode::ControlLeft, KeyCode::ControlRight]);
        assert(alt_keys@ == seq![KeyCode::Alt, KeyCode::AltGr]);
        assert(shift_keys@ == seq![KeyCode::ShiftLeft, KeyCode::ShiftRight]);
        assert(meta_keys@ == seq![KeyCode::MetaLeft, KeyCode::MetaRight]);
        self.set_modifier_group(ctrl, &ctrl_keys, KeyCode::ControlLeft);
        self.set_modifier_group(alt, &alt_keys, KeyCode::Alt);
        self.set_modifier_group(shift, &shift_keys, KeyCode::ShiftLeft);
        self.set_modifier_group(meta, &meta_keys, KeyCode::MetaLeft);
    }
}

/// One modifier group brought in line with its flag: the canonical key marked
/// down, or every key of the group marked up.
pub open spec fn group_keys(keys: Set<KeyCode>, active: bool, group: Seq<KeyCode>, canonical: KeyCode) -> Set<KeyCode> {
    if active {
        keys.insert(canonical)
    } else {
        keys.difference(group.to_set())
    }
}

/// The keys down after syncing the four modifier groups with the platform's flags.
pub open spec fn sync_keys(keys: Set<KeyCode>, ctrl: bool, alt: bool, shift: bool, meta: bool) -> Set<KeyCode> {
    let k1 = group_keys(keys, ctrl, seq![KeyCode::ControlLeft, KeyCode::ControlRight], KeyCode::ControlLeft);
    let k2 = group_keys(k1, alt, seq![KeyCode::Alt, KeyCode::AltGr], KeyCode::Alt);
    let k3 = group_keys(k2, shift, seq![KeyCode::ShiftLeft, KeyCode::ShiftRight], KeyCode::ShiftLeft);
    group_keys(k3, meta, seq![KeyCode::MetaLeft, KeyCode::MetaRight], KeyCode::MetaLeft)
}

/// The listener's response to one key event under the configured shortcut text:
/// the event to report (an error event when the text does not parse) and
/// whether the key should be kept from other applications.
pub fn process_shortcut_event(
    event: KeyEvent,
    shortcut_text: &str,
    behavior: ShortcutBehavior,
    state: &mut ShortcutState,
) -> (r: (Option<ShortcutEvent>, bool))
    ensures
        match parse_spec(shortcut_text@) {
            Err(detail) => final(state)@ == old(state)@ && !r.1 && (r.0 matches Some(ShortcutEvent::Error(m))
                && m@ == "shortcut error: "@ + detail),
            Ok(sc) => {
                let (st2, e) = handle_step(old(state)@, event, sc, behavior);
                &&& final(state)@ == st2
                &&& r.0 == e
                &&& r.1 == (e is Some || swallow_spec(st2, event, sc))
            },
        },
{
    match Shortcut::parse(shortcut_text) {
        Err(err) => (Some(ShortcutEvent::Error(err.to_string())), false),
        Ok(shortcut) => {
            let shortcut_event = state.handle(event, &shortcut, behavior);
            let swallow = shortcut_event.is_some() || state.should_swallow(event, &shortcut);
            (shortcut_event, swallow)
        },
    }
}

/// The kinds of event the macOS event tap listens to.
#[derive(Debug, Clone, Copy, PartialEq, Eq, Structural)]
pub enum TapEventKind {
    KeyDown,
    KeyUp,
    FlagsChanged,
}

/// The key event of a tap event: a press or release of a known key; modifier
/// flag changes and unknown keys give none.
pub fn macos_key_event(kind: TapEventKind, keycode: u16) -> (r: Option<KeyEvent>)
    ensures
        r == match kind {
            TapEventKind::KeyDown => match macos_key_spec(keycode) {
                Some(k) => Some(KeyEvent::Press(k)),
                None => None,
            },
            TapEventKind::KeyUp => match macos_key_spec(keycode) {
                Some(k) => Some(KeyEvent::Release(k)),
                None => None,
            },
            TapEventKind::FlagsChanged => None::<KeyEvent>,
        },
{
    match kind {
        TapEventKind::KeyDown => match macos_keycode_to_key(keycode) {
            Some(k) => Some(KeyEvent::Press(k)),
            None => None,
        },
        TapEventKind::KeyUp => match macos_keycode_to_key(keycode) {
            Some(k) => Some(KeyEvent::Release(k)),
            None => None,
        },
        TapEventKind::FlagsChanged => None,
    }
}

/// The modifier flags the macOS event tap reports with every event.
#[derive(Debug, Clone, Copy, PartialEq, Eq, Structural)]
pub struct ModifierFlags {
    pub control: bool,
    pub alternate: bool,
    pub shift: bool,
    pub command: bool,
}

/// The macOS listener's response to one event: the shortcut text must parse
/// (else an error event, nothing swallowed, the keys untouched); then the
/// modifier keys follow the flags, and a key event, if there is one, goes
/// through the shortcut state as on other platforms.
pub fn process_macos_shortcut_event(
    event: Option<KeyEvent>,
    flags: ModifierFlags,
    shortcut_text: &str,
    behavior: ShortcutBehavior,
    state: &mut ShortcutState,
) -> (r: (Option<ShortcutEvent>, bool))
    ensures
        match parse_spec(shortcut_text@) {
            Err(detail) => final(state)@ == old(state)@ && !r.1 && (r.0 matches Some(ShortcutEvent::Error(m))
                && m@ == "shortcut error: "@ + detail),
            Ok(sc) => {
                let synced = (
                    sync_keys(old(state)@.0, flags.control, flags.alternate, flags.shift, flags.command),
                    old(state)@.1,
                );
                match event {
                    None => final(state)@ == synced && r.0 is None && !r.1,
                    Some(ev) => {
                        let (st2, e) = handle_step(synced, ev, sc, behavior);
                        &&& final(state)@ == st2
                        &&& r.0 == e
                        &&& r.1 == (e is Some || swallow_spec(st2, ev, sc))
                    },
                }
            },
        },
{
    match Shortcut::parse(shortcut_text) {
        Err(err) => (Some(ShortcutEvent::Error(err.to_string())), false),
        Ok(shortcut) => {
            state.sync_modifiers(flags.control, flags.alternate, flags.shift, flags.command);
            match event {
                None => (None, false),
                Some(ev) => {
                    let shortcut_event = state.handle(ev, &shortcut, behavior);
                    let swallow = shortcut_event.is_some() || state.should_swallow(ev, &shortcut);
                    (shortcut_event, swallow)
                },
            }
        },
    }
}

/// std's channel receiver, carried through as an opaque value.
#[verifier::external_type_specification]
#[verifier::external_body]
#[verifier::reject_recursive_types(T)]
pub struct ExReceiver<T>(std::sync::mpsc::Receiver<T>);

/// Owns the receiving end of the channel that the shortcut listener reports on.
pub struct GlobalShortcutManager {
    receiver: std::sync::mpsc::Receiver<ShortcutEvent>,
}

impl GlobalShortcutManager {
    pub closed spec fn spec_receiver(&self) -> std::sync::mpsc::Receiver<ShortcutEvent> {
        self.receiver
    }

    /// A manager for a listener that sends on the other end of `receiver`.
    pub fn from_receiver(receiver: std::sync::mpsc::Receiver<ShortcutEvent>) -> (r: Self)
        ensures
            r.spec_receiver() == receiver,
    {
        GlobalShortcutManager { receiver }
    }

    /// Hands out the channel of shortcut events.
    pub fn into_receiver(self) -> (r: std::sync::mpsc::Receiver<ShortcutEvent>)
        ensures
            r == self.spec_receiver(),
    {
        self.receiver
    }
}

impl Default for ShortcutState {
    fn default() -> (r: Self)
        ensures
            r@ == (Set::<KeyCode>::empty(), false),
    {
        Self::new()
    }
}

} // verus!
