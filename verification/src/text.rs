//! Character-level text model shared by the transcript, command and shortcut logic.
//!
//! Strings are modelled as `Seq<char>` (the view of `str` and `String`).
//! The executable helpers work on `Vec<char>` and convert at the edges.
use vstd::prelude::*;
use vstd::std_specs::iter::IteratorSpec;

verus! {

broadcast use vstd::string::group_string_axioms;

// ---------------------------------------------------------------------------
// Character classes
// ---------------------------------------------------------------------------

/// Unicode `White_Space` code points, the set that `char::is_whitespace` tests.
pub open spec fn is_ws(c: char) -> bool {
    let n = c as u32;
    ||| 0x09 <= n <= 0x0d
    ||| n == 0x20
    ||| n == 0x85
    ||| n == 0xa0
    ||| n == 0x1680
    ||| 0x2000 <= n <= 0x200a
    ||| n == 0x2028
    ||| n == 0x2029
    ||| n == 0x202f
    ||| n == 0x205f
    ||| n == 0x3000
}

/// Whether `c` is Unicode whitespace.
pub fn is_whitespace(c: char) -> (r: bool)
    ensures
        r == is_ws(c),
{
    let n = c as u32;
    (0x09 <= n && n <= 0x0d) || n == 0x20 || n == 0x85 || n == 0xa0 || n == 0x1680 || (0x2000
        <= n && n <= 0x200a) || n == 0x2028 || n == 0x2029 || n == 0x202f || n == 0x205f || n
        == 0x3000
}

/// ASCII lower-casing of one character; every other character is unchanged.
pub open spec fn lower_char(c: char) -> char {
    if 'A' <= c <= 'Z' {
        ((c as u32) + 32) as char
    } else {
        c
    }
}

/// ASCII upper-casing of one character; every other character is unchanged.
pub open spec fn upper_char(c: char) -> char {
    if 'a' <= c <= 'z' {
        ((c as u32) - 32) as char
    } else {
        c
    }
}

/// ASCII lower-casing of a whole character sequence.
pub open spec fn lower(s: Seq<char>) -> Seq<char> {
    s.map_values(|c: char| lower_char(c))
}

pub fn to_ascii_lower_char(c: char) -> (r: char)
    ensures
        r == lower_char(c),
{
    if 'A' <= c && c <= 'Z' {
        let n = (c as u32) + 32;
        let r = char_from_ascii(n);
        r
    } else {
        c
    }
}

pub fn to_ascii_upper_char(c: char) -> (r: char)
    ensures
        r == upper_char(c),
{
    if 'a' <= c && c <= 'z' {
        let n = (c as u32) - 32;
        char_from_ascii(n)
    } else {
        c
    }
}

/// The character with an ASCII code point.
fn char_from_ascii(n: u32) -> (c: char)
    requires
        n < 128,
    ensures
        c == n as char,
        c as u32 == n,
{
    let b = n as u8;
    let c = b as char;
    c
}

pub fn to_ascii_lower(v: &Vec<char>) -> (r: Vec<char>)
    ensures
        r@ == lower(v@),
{
    let mut r: Vec<char> = Vec::new();
    for i in 0..v.len()
        invariant
            r@ == lower(v@.take(i as int)),
    {
        r.push(to_ascii_lower_char(v[i]));
        assert(lower(v@.take(i + 1)) == lower(v@.take(i as int)).push(lower_char(v@[i as int])));
    }
    assert(v@.take(v.len() as int) == v@);
    r
}

// ---------------------------------------------------------------------------
// Conversions between `str`/`String` and `Vec<char>`
// ---------------------------------------------------------------------------

/// The characters of a string slice, in order.
pub fn chars_of(s: &str) -> (v: Vec<char>)
    ensures
        v@ == s@,
{
    let mut v: Vec<char> = Vec::new();
    for c in iter: s.chars()
        invariant
            v@ == iter.seq().take(iter.index() as int),
    {
        v.push(c);
    }
    v
}

/// Builds a `String` from characters, through `String`'s `FromIterator<char>`,
/// which std documents as concatenating the characters in order.
#[verifier::external_body]
pub fn string_from_chars(v: &Vec<char>) -> (s: String)
    ensures
        s@ == v@,
{
    v.iter().collect()
}

/// An owned copy of a string slice.
pub fn string_of(s: &str) -> (r: String)
    ensures
        r@ == s@,
{
    s.to_string()
}

/// Appends the characters of `s` to `v`.
pub fn push_str(v: &mut Vec<char>, s: &str)
    ensures
        final(v)@ == old(v)@ + s@,
{
    let cs = chars_of(s);
    append_chars(v, &cs);
}

/// Appends the characters of `w` to `v`.
pub fn append_chars(v: &mut Vec<char>, w: &Vec<char>)
    ensures
        final(v)@ == old(v)@ + w@,
{
    let ghost start = v@;
    for i in 0..w.len()
        invariant
            v@ == start + w@.take(i as int),
    {
        v.push(w[i]);
        assert(w@.take(i + 1) == w@.take(i as int).push(w@[i as int]));
    }
    assert(w@.take(w.len() as int) == w@);
}

/// A copy of `v`.
pub fn copy_all<T: Copy>(v: &Vec<T>) -> (r: Vec<T>)
    ensures
        r@ == v@,
{
    let r = copy_range(v, 0, v.len());
    assert(v@.subrange(0, v@.len() as int) == v@);
    r
}

/// Copies `v[from..to]`.
pub fn copy_range<T: Copy>(v: &Vec<T>, from: usize, to: usize) -> (r: Vec<T>)
    requires
        from <= to <= v.len(),
    ensures
        r@ == v@.subrange(from as int, to as int),
{
    let mut r: Vec<T> = Vec::new();
    let mut i = from;
    while i < to
        invariant
            from <= i <= to <= v.len(),
            r@ == v@.subrange(from as int, i as int),
        decreases to - i,
    {
        r.push(v[i]);
        assert(v@.subrange(from as int, i + 1) == v@.subrange(from as int, i as int).push(
            v@[i as int],
        ));
        i += 1;
    }
    r
}

// ---------------------------------------------------------------------------
// Trimming
// ---------------------------------------------------------------------------

/// `s` without its trailing whitespace (`str::trim_end`).
pub open spec fn trim_end(s: Seq<char>) -> Seq<char>
    decreases s.len(),
{
    if s.len() > 0 && is_ws(s.last()) {
        trim_end(s.drop_last())
    } else {
        s
    }
}

/// `s` without its leading whitespace (`str::trim_start`).
pub open spec fn trim_start(s: Seq<char>) -> Seq<char>
    decreases s.len(),
{
    if s.len() > 0 && is_ws(s[0]) {
        trim_start(s.drop_first())
    } else {
        s
    }
}

/// `s` without leading and trailing whitespace (`str::trim`).
pub open spec fn trim(s: Seq<char>) -> Seq<char> {
    trim_start(trim_end(s))
}

/// `s` without its trailing `' '` characters (other whitespace stays).
pub open spec fn strip_spaces(s: Seq<char>) -> Seq<char>
    decreases s.len(),
{
    if s.len() > 0 && s.last() == ' ' {
        strip_spaces(s.drop_last())
    } else {
        s
    }
}

pub proof fn lemma_trim_end_prefix(s: Seq<char>)
    ensures
        trim_end(s).len() <= s.len(),
        trim_end(s) == s.take(trim_end(s).len() as int),
        trim_end(s).len() > 0 ==> !is_ws(trim_end(s).last()),
        forall|i: int| trim_end(s).len() <= i < s.len() ==> is_ws(#[trigger] s[i]),
    decreases s.len(),
{
    if s.len() > 0 && is_ws(s.last()) {
        lemma_trim_end_prefix(s.drop_last());
        let t = trim_end(s);
        assert(s.drop_last().take(t.len() as int) == s.take(t.len() as int));
        assert forall|i: int| t.len() <= i < s.len() implies is_ws(#[trigger] s[i]) by {
            if i < s.len() - 1 {
                assert(s[i] == s.drop_last()[i]);
            }
        }
    } else {
        assert(s.take(s.len() as int) == s);
    }
}

pub proof fn lemma_trim_start_suffix(s: Seq<char>)
    ensures
        trim_start(s).len() <= s.len(),
        trim_start(s) == s.skip(s.len() - trim_start(s).len()),
        trim_start(s).len() > 0 ==> !is_ws(trim_start(s)[0]),
        forall|i: int| 0 <= i < s.len() - trim_start(s).len() ==> is_ws(#[trigger] s[i]),
    decreases s.len(),
{
    if s.len() > 0 && is_ws(s[0]) {
        lemma_trim_start_suffix(s.drop_first());
        let t = trim_start(s);
        assert(s.drop_first().skip(s.drop_first().len() - t.len()) == s.skip(s.len() - t.len()));
        assert forall|i: int| 0 <= i < s.len() - t.len() implies is_ws(#[trigger] s[i]) by {
            if i > 0 {
                assert(s[i] == s.drop_first()[i - 1]);
            }
        }
    } else {
        assert(s.skip(0) == s);
    }
}

/// `trim_end(s)` is `s.take(n)` where `n` is the returned length.
pub fn trim_end_len(v: &Vec<char>, end: usize) -> (n: usize)
    requires
        end <= v.len(),
    ensures
        n <= end,
        v@.take(n as int) == trim_end(v@.take(end as int)),
{
    let mut n = end;
    while n > 0 && is_whitespace(v[n - 1])
        invariant
            n <= end <= v.len(),
            trim_end(v@.take(n as int)) == trim_end(v@.take(end as int)),
        decreases n,
    {
        assert(v@.take(n as int).drop_last() == v@.take(n - 1));
        n -= 1;
    }
    n
}

/// Number of leading whitespace characters of `v[from..to]`.
pub fn trim_start_pos(v: &Vec<char>, from: usize, to: usize) -> (n: usize)
    requires
        from <= to <= v.len(),
    ensures
        from <= n <= to,
        v@.subrange(n as int, to as int) == trim_start(v@.subrange(from as int, to as int)),
{
    let mut n = from;
    while n < to && is_whitespace(v[n])
        invariant
            from <= n <= to <= v.len(),
            trim_start(v@.subrange(n as int, to as int)) == trim_start(
                v@.subrange(from as int, to as int),
            ),
        decreases to - n,
    {
        assert(v@.subrange(n as int, to as int).drop_first() == v@.subrange(n + 1, to as int));
        n += 1;
    }
    n
}

/// `v` without leading and trailing whitespace.
pub fn trim_chars(v: &Vec<char>) -> (r: Vec<char>)
    ensures
        r@ == trim(v@),
{
    let e = trim_end_len(v, v.len());
    assert(v@.take(v.len() as int) == v@);
    let b = trim_start_pos(v, 0, e);
    assert(v@.subrange(0, e as int) == v@.take(e as int));
    copy_range(v, b, e)
}

/// A sequence is blank when trimming leaves nothing, i.e. when its trailing-trimmed form is empty.
pub proof fn lemma_trim_empty_iff(s: Seq<char>)
    ensures
        (trim(s).len() == 0) == (trim_end(s).len() == 0),
{
    lemma_trim_end_prefix(s);
    let t = trim_end(s);
    lemma_trim_start_suffix(t);
    if t.len() > 0 && trim(s).len() == 0 {
        assert(is_ws(t[t.len() - 1]));
    }
}

/// Whether `s` is empty or only whitespace.
pub fn is_blank(s: &str) -> (r: bool)
    ensures
        r == (trim(s@).len() == 0),
{
    let v = chars_of(s);
    let n = trim_end_len(&v, v.len());
    proof {
        assert(v@.take(v@.len() as int) == v@);
        lemma_trim_empty_iff(s@);
    }
    n == 0
}

/// `s` without leading and trailing whitespace.
pub fn trim_str(s: &str) -> (r: String)
    ensures
        r@ == trim(s@),
{
    let v = chars_of(s);
    let t = trim_chars(&v);
    string_from_chars(&t)
}

/// Removes trailing `' '` characters.
pub fn strip_trailing_spaces(v: &mut Vec<char>)
    ensures
        final(v)@ == strip_spaces(old(v)@),
{
    while v.len() > 0 && v[v.len() - 1] == ' '
        invariant
            strip_spaces(v@) == strip_spaces(old(v)@),
        decreases v.len(),
    {
        v.pop();
    }
}

/// `out` followed by a space, unless it is empty or already ends in a space or line break.
pub open spec fn with_separator(out: Seq<char>) -> Seq<char> {
    if out.len() > 0 && out.last() != ' ' && out.last() != '\n' {
        out.push(' ')
    } else {
        out
    }
}

/// Appends a space to `out` unless it is empty or ends in a space or line break.
pub fn push_separator(out: &mut Vec<char>)
    ensures
        final(out)@ == with_separator(old(out)@),
{
    if out.len() > 0 && out[out.len() - 1] != ' ' && out[out.len() - 1] != '\n' {
        out.push(' ');
    }
}

// ---------------------------------------------------------------------------
// Words (`str::split_whitespace`)
// ---------------------------------------------------------------------------

/// The maximal runs of non-whitespace characters of `s`, in order.
pub open spec fn words(s: Seq<char>) -> Seq<Seq<char>>
    decreases s.len(),
{
    if s.len() == 0 {
        Seq::empty()
    } else {
        let p = s.drop_last();
        let c = s.last();
        if is_ws(c) {
            words(p)
        } else if p.len() > 0 && !is_ws(p.last()) {
            let ws = words(p);
            ws.update(ws.len() - 1, ws.last().push(c))
        } else {
            words(p).push(seq![c])
        }
    }
}

pub proof fn lemma_words_nonempty_when_ends_in_word(s: Seq<char>)
    requires
        s.len() > 0,
        !is_ws(s.last()),
    ensures
        words(s).len() > 0,
    decreases s.len(),
{
    let p = s.drop_last();
    if p.len() > 0 && !is_ws(p.last()) {
        lemma_words_nonempty_when_ends_in_word(p);
    }
}

/// Every word is non-empty and holds no whitespace.
pub proof fn lemma_words_wf(s: Seq<char>)
    ensures
        forall|i: int|
            0 <= i < words(s).len() ==> #[trigger] words(s)[i].len() > 0 && forall|j: int|
                0 <= j < words(s)[i].len() ==> !is_ws(#[trigger] words(s)[i][j]),
    decreases s.len(),
{
    if s.len() > 0 {
        let p = s.drop_last();
        let c = s.last();
        lemma_words_wf(p);
        if !is_ws(c) && p.len() > 0 && !is_ws(p.last()) {
            let ws = words(p);
            lemma_words_nonempty_when_ends_in_word(p);
            let w = ws.last().push(c);
            assert forall|i: int| 0 <= i < words(s).len() implies #[trigger] words(s)[i].len() > 0
                && forall|j: int| 0 <= j < words(s)[i].len() ==> !is_ws(#[trigger] words(s)[i][j]) by {
                if i == ws.len() - 1 {
                    assert(words(s)[i] == w);
                    assert forall|j: int| 0 <= j < w.len() implies !is_ws(#[trigger] w[j]) by {
                        if j < w.len() - 1 {
                            assert(w[j] == ws[ws.len() - 1][j]);
                        }
                    }
                } else {
                    assert(words(s)[i] == ws[i]);
                }
            }
        }
    }
}

/// The words of `s`.
pub fn split_words(s: &Vec<char>) -> (r: Vec<Vec<char>>)
    ensures
        r@.len() == words(s@).len(),
        forall|i: int| 0 <= i < r@.len() ==> (#[trigger] r@[i])@ == words(s@)[i],
{
    let mut done: Vec<Vec<char>> = Vec::new();
    let mut cur: Vec<char> = Vec::new();
    for i in 0..s.len()
        invariant
            cur@.len() > 0 <==> (i > 0 && !is_ws(s@[i - 1])),
            cur@.len() > 0 ==> words(s@.take(i as int)).len() == done@.len() + 1 && words(
                s@.take(i as int),
            ).last() == cur@,
            cur@.len() == 0 ==> words(s@.take(i as int)).len() == done@.len(),
            forall|k: int| 0 <= k < done@.len() ==> (#[trigger] done@[k])@ == words(s@.take(i as int))[k],
    {
        let c = s[i];
        let ghost p = s@.take(i as int);
        assert(s@.take(i + 1).drop_last() == p);
        assert(s@.take(i + 1).last() == c);
        if is_whitespace(c) {
            if cur.len() > 0 {
                done.push(cur);
                cur = Vec::new();
            }
        } else {
            cur.push(c);
        }
    }
    assert(s@.take(s.len() as int) == s@);
    if cur.len() > 0 {
        done.push(cur);
    }
    done
}

// ---------------------------------------------------------------------------
// Joining and searching
// ---------------------------------------------------------------------------

/// `ws` joined with single spaces.
pub open spec fn join_spaces(ws: Seq<Seq<char>>) -> Seq<char>
    decreases ws.len(),
{
    if ws.len() == 0 {
        Seq::empty()
    } else if ws.len() == 1 {
        ws[0]
    } else {
        join_spaces(ws.drop_last()) + seq![' '] + ws.last()
    }
}

/// Joins `ws[from..to]` with single spaces.
pub fn join_words(ws: &Vec<Vec<char>>, from: usize, to: usize) -> (r: Vec<char>)
    requires
        from <= to <= ws@.len(),
    ensures
        r@ == join_spaces(ws@.subrange(from as int, to as int).map_values(|w: Vec<char>| w@)),
{
    let mut r: Vec<char> = Vec::new();
    let mut i = from;
    while i < to
        invariant
            from <= i <= to <= ws@.len(),
            r@ == join_spaces(ws@.subrange(from as int, i as int).map_values(|w: Vec<char>| w@)),
        decreases to - i,
    {
        let ghost before = ws@.subrange(from as int, i as int).map_values(|w: Vec<char>| w@);
        let ghost after = ws@.subrange(from as int, i + 1).map_values(|w: Vec<char>| w@);
        assert(after.drop_last() == before);
        assert(after.last() == ws@[i as int]@);
        if i > from {
            r.push(' ');
        }
        append_chars(&mut r, &ws[i]);
        i += 1;
    }
    r
}

/// Whether `p` occurs in `s` as a contiguous piece.
pub open spec fn contains_seq(s: Seq<char>, p: Seq<char>) -> bool {
    exists|i: int| 0 <= i <= s.len() - p.len() && #[trigger] s.subrange(i, i + p.len()) == p
}

/// Whether `s[i..i + p.len()]` equals `p`.
pub fn matches_at(s: &Vec<char>, i: usize, p: &Vec<char>) -> (r: bool)
    requires
        i <= s.len(),
    ensures
        r == (p.len() <= s.len() - i && s@.subrange(i as int, i + p.len()) == p@),
{
    if p.len() > s.len() - i {
        return false;
    }
    let mut k: usize = 0;
    while k < p.len()
        invariant
            p.len() <= s.len() - i,
            k <= p.len(),
            forall|j: int| 0 <= j < k ==> s@[i + j] == p@[j],
        decreases p.len() - k,
    {
        if s[i + k] != p[k] {
            assert(s@.subrange(i as int, i + p.len())[k as int] != p@[k as int]);
            return false;
        }
        k += 1;
    }
    assert(s@.subrange(i as int, i + p.len()) == p@);
    true
}

/// Whether `p` occurs in `s`.
pub fn contains_chars(s: &Vec<char>, p: &Vec<char>) -> (r: bool)
    ensures
        r == contains_seq(s@, p@),
{
    if p.len() > s.len() {
        return false;
    }
    if p.len() == 0 {
        assert(s@.subrange(0int, 0int + p@.len()) == p@);
        return true;
    }
    let mut i: usize = 0;
    while i <= s.len() - p.len()
        invariant
            0 < p.len() <= s.len(),
            i <= s.len() - p.len() + 1,
            forall|j: int| 0 <= j < i ==> #[trigger] s@.subrange(j, j + p.len()) != p@,
        decreases s.len() - p.len() + 1 - i,
    {
        if matches_at(s, i, p) {
            return true;
        }
        i += 1;
    }
    false
}

/// Whether the character `c` occurs in `s`.
pub fn contains_char(s: &Vec<char>, c: char) -> (r: bool)
    ensures
        r == s@.contains(c),
{
    for i in 0..s.len()
        invariant
            forall|j: int| 0 <= j < i ==> s@[j] != c,
    {
        if s[i] == c {
            return true;
        }
    }
    false
}

/// Whether two character sequences are equal.
pub fn chars_eq(a: &Vec<char>, b: &Vec<char>) -> (r: bool)
    ensures
        r == (a@ == b@),
{
    if a.len() != b.len() {
        return false;
    }
    for i in 0..a.len()
        invariant
            a.len() == b.len(),
            forall|j: int| 0 <= j < i ==> a@[j] == b@[j],
    {
        if a[i] != b[i] {
            return false;
        }
    }
    assert(a@ == b@);
    true
}

/// Whether `a` equals the characters of `s`.
pub fn chars_eq_str(a: &Vec<char>, s: &str) -> (r: bool)
    ensures
        r == (a@ == s@),
{
    let b = chars_of(s);
    chars_eq(a, &b)
}

// ---------------------------------------------------------------------------
// Decimal numbers
// ---------------------------------------------------------------------------

pub open spec fn digit_char(d: nat) -> char
    recommends
        d < 10,
{
    (('0' as u32) + d) as char
}

/// The decimal digits of `n`, as `Display` writes an unsigned integer.
pub open spec fn decimal(n: nat) -> Seq<char>
    decreases n,
{
    if n < 10 {
        seq![digit_char(n)]
    } else {
        decimal(n / 10).push(digit_char(n % 10))
    }
}

fn digit_of(d: usize) -> (c: char)
    requires
        d < 10,
    ensures
        c == digit_char(d as nat),
{
    let n = 48u32 + (d as u32);
    char_from_ascii(n)
}

/// The decimal representation of `n`.
pub fn decimal_chars(n: usize) -> (r: Vec<char>)
    ensures
        r@ == decimal(n as nat),
    decreases n,
{
    if n < 10 {
        let mut r = Vec::new();
        r.push(digit_of(n));
        r
    } else {
        let mut r = decimal_chars(n / 10);
        r.push(digit_of(n % 10));
        r
    }
}

} // verus!
