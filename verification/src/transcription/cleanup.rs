//! Deterministic clean-up of a raw transcript.
use vstd::prelude::*;
use crate::config::AppConfig;
use crate::text::{
    append_chars, chars_eq, chars_of, contains_char, contains_chars, contains_seq, is_whitespace, is_ws,
    lemma_trim_end_prefix, lemma_trim_start_suffix, lower, push_str, split_words, string_from_chars,
    strip_spaces, strip_trailing_spaces, trim_end, trim_start,
    to_ascii_lower, to_ascii_upper_char, trim, trim_chars, upper_char, words, with_separator,
    push_separator,
};

verus! {

/// Every maximal run of whitespace replaced by one space.
pub open spec fn collapse_ws(s: Seq<char>) -> Seq<char>
    decreases s.len(),
{
    if s.len() == 0 {
        Seq::empty()
    } else {
        let p = s.drop_last();
        let c = s.last();
        if is_ws(c) {
            if p.len() > 0 && is_ws(p.last()) {
                collapse_ws(p)
            } else {
                collapse_ws(p).push(' ')
            }
        } else {
            collapse_ws(p).push(c)
        }
    }
}

/// Whether `s` looks like prose rather than code.
pub open spec fn looks_like_sentence_spec(s: Seq<char>) -> bool {
    &&& !contains_seq(s, "::"@)
    &&& !contains_seq(s, "=>"@)
    &&& !contains_seq(s, "->"@)
    &&& !s.contains('{')
    &&& !s.contains('}')
}

/// `s` with an ASCII lower-case first letter upper-cased, when `s` looks like prose.
pub open spec fn capitalize_spec(s: Seq<char>) -> Seq<char> {
    if s.len() > 0 && 'a' <= s[0] <= 'z' && looks_like_sentence_spec(s) {
        s.update(0, upper_char(s[0]))
    } else {
        s
    }
}

/// What `cleanup_transcript` makes of `input`.
pub open spec fn cleanup_spec(input: Seq<char>, trailing_space: bool) -> Seq<char> {
    let t = capitalize_spec(collapse_ws(trim(input)));
    if trailing_space && t.len() > 0 && !is_ws(t.last()) {
        t.push(' ')
    } else {
        t
    }
}

/// The words from index `i` on, with the spoken phrases "new line" and
/// "new paragraph" (in any ASCII case) turned into line breaks, appended to `out`.
pub open spec fn spoken_from(ws: Seq<Seq<char>>, i: int, out: Seq<char>) -> Seq<char>
    decreases ws.len() - i,
{
    if i < 0 || i >= ws.len() {
        out
    } else if i + 1 < ws.len() && lower(ws[i]) == "new"@ && lower(ws[i + 1]) == "paragraph"@ {
        spoken_from(ws, i + 2, strip_spaces(out) + "\n\n"@)
    } else if i + 1 < ws.len() && lower(ws[i]) == "new"@ && lower(ws[i + 1]) == "line"@ {
        spoken_from(ws, i + 2, strip_spaces(out).push('\n'))
    } else {
        spoken_from(ws, i + 1, with_separator(out) + ws[i])
    }
}

/// What `apply_spoken_commands` makes of `input`.
pub open spec fn spoken_commands_spec(input: Seq<char>) -> Seq<char> {
    trim(spoken_from(words(input), 0, Seq::empty()))
}

/// Collapses every run of whitespace in `input` into one space.
pub fn normalize_spaces(input: &str) -> (r: String)
    ensures
        r@ == collapse_ws(input@),
{
    let v = chars_of(input);
    let out = collapse_chars(&v);
    string_from_chars(&out)
}

fn collapse_chars(v: &Vec<char>) -> (out: Vec<char>)
    ensures
        out@ == collapse_ws(v@),
{
    let mut out: Vec<char> = Vec::new();
    let mut previous_space = false;
    for i in 0..v.len()
        invariant
            previous_space == (i > 0 && is_ws(v@[i - 1])),
            out@ == collapse_ws(v@.take(i as int)),
    {
        let ch = v[i];
        assert(v@.take(i + 1).drop_last() == v@.take(i as int));
        if is_whitespace(ch) {
            if !previous_space {
                out.push(' ');
                previous_space = true;
            }
        } else {
            out.push(ch);
            previous_space = false;
        }
    }
    assert(v@.take(v.len() as int) == v@);
    out
}

/// For non-empty input the collapsed text ends in whitespace exactly when the input does.
pub proof fn lemma_collapse_last(s: Seq<char>)
    requires
        s.len() > 0,
    ensures
        collapse_ws(s).len() > 0,
        is_ws(collapse_ws(s).last()) == is_ws(s.last()),
    decreases s.len(),
{
    let p = s.drop_last();
    if is_ws(s.last()) && p.len() > 0 && is_ws(p.last()) {
        lemma_collapse_last(p);
    }
    if !is_ws(s.last()) {
        assert(!is_ws(collapse_ws(s).last()));
    } else if !(p.len() > 0 && is_ws(p.last())) {
        assert(collapse_ws(s).last() == ' ');
    }
}

/// Collapsing whitespace twice gives the same text as collapsing it once.
pub proof fn law_normalize_spaces_idempotent(s: Seq<char>)
    ensures
        collapse_ws(collapse_ws(s)) == collapse_ws(s),
    decreases s.len(),
{
    if s.len() > 0 {
        let p = s.drop_last();
        let c = s.last();
        law_normalize_spaces_idempotent(p);
        let cp = collapse_ws(p);
        if p.len() > 0 {
            lemma_collapse_last(p);
        }
        if is_ws(c) {
            if !(p.len() > 0 && is_ws(p.last())) {
                let r = cp.push(' ');
                assert(r.drop_last() == cp);
                assert(r.last() == ' ');
            }
        } else {
            let r = cp.push(c);
            assert(r.drop_last() == cp);
        }
    }
}

/// Collapsed text holds no two whitespace characters in a row.
pub proof fn law_normalize_spaces_no_double_space(s: Seq<char>, i: int)
    requires
        0 <= i < collapse_ws(s).len() - 1,
    ensures
        !(is_ws(collapse_ws(s)[i]) && is_ws(collapse_ws(s)[i + 1])),
    decreases s.len(),
{
    let p = s.drop_last();
    let c = s.last();
    let cp = collapse_ws(p);
    if p.len() > 0 {
        lemma_collapse_last(p);
    }
    if is_ws(c) && p.len() > 0 && is_ws(p.last()) {
        law_normalize_spaces_no_double_space(p, i);
    } else if i < cp.len() - 1 {
        law_normalize_spaces_no_double_space(p, i);
    }
}

/// Collapsing keeps a leading non-whitespace character in place.
pub proof fn lemma_collapse_first(s: Seq<char>)
    requires
        s.len() > 0,
        !is_ws(s[0]),
    ensures
        collapse_ws(s).len() > 0,
        collapse_ws(s)[0] == s[0],
    decreases s.len(),
{
    let p = s.drop_last();
    if s.len() > 1 {
        assert(p[0] == s[0]);
        lemma_collapse_first(p);
    } else {
        assert(collapse_ws(p) =~= Seq::<char>::empty());
    }
}

/// Replacing a leading non-whitespace character by another commutes with collapsing.
pub proof fn lemma_collapse_update_first(s: Seq<char>, x: char)
    requires
        s.len() > 0,
        !is_ws(s[0]),
        !is_ws(x),
    ensures
        collapse_ws(s.update(0, x)) == collapse_ws(s).update(0, x),
    decreases s.len(),
{
    lemma_collapse_first(s);
    let u = s.update(0, x);
    if s.len() == 1 {
        assert(collapse_ws(u.drop_last()) =~= Seq::<char>::empty());
        assert(collapse_ws(s.drop_last()) =~= Seq::<char>::empty());
        assert(collapse_ws(u) =~= seq![x]);
        assert(collapse_ws(s) =~= seq![s[0]]);
    } else {
        let p = s.drop_last();
        assert(u.drop_last() == p.update(0, x));
        assert(u.last() == s.last());
        lemma_collapse_update_first(p, x);
        lemma_collapse_first(p);
        if p.len() == 1 {
            assert(!is_ws(p.last()));
            assert(!is_ws(p.update(0, x).last()));
        } else {
            assert(p.update(0, x).last() == p.last());
        }
        assert(collapse_ws(u) =~= collapse_ws(s).update(0, x));
    }
}

/// A trimmed sequence: empty, or starting and ending with non-whitespace.
pub open spec fn is_trimmed(s: Seq<char>) -> bool {
    s.len() == 0 || (!is_ws(s[0]) && !is_ws(s.last()))
}

proof fn lemma_trim_of_trimmed(s: Seq<char>)
    requires
        is_trimmed(s),
    ensures
        trim(s) == s,
{
    if s.len() > 0 {
        assert(trim_end(s) == s);
    }
}

proof fn lemma_trim_is_trimmed(s: Seq<char>)
    ensures
        is_trimmed(trim(s)),
{
    lemma_trim_end_prefix(s);
    let e = trim_end(s);
    lemma_trim_start_suffix(e);
    let t = trim_start(e);
    if t.len() > 0 {
        assert(t.last() == e.last());
    }
}

/// What the first clean-up step gives: trimmed, collapsed and capitalized text.
proof fn lemma_cleaned_core(input: Seq<char>)
    ensures
        is_trimmed(capitalize_spec(collapse_ws(trim(input)))),
        collapse_ws(capitalize_spec(collapse_ws(trim(input)))) == capitalize_spec(collapse_ws(trim(input))),
        capitalize_spec(capitalize_spec(collapse_ws(trim(input)))) == capitalize_spec(collapse_ws(trim(input))),
{
    let a = trim(input);
    lemma_trim_is_trimmed(input);
    let c = collapse_ws(a);
    law_normalize_spaces_idempotent(a);
    let t = capitalize_spec(c);
    if a.len() > 0 {
        lemma_collapse_first(a);
        lemma_collapse_last(a);
        assert(!is_ws(c[0]));
        assert(!is_ws(c.last()));
        if c.len() > 0 && 'a' <= c[0] <= 'z' && looks_like_sentence_spec(c) {
            let x = upper_char(c[0]);
            lemma_collapse_update_first(c, x);
            assert(t.last() == c.last() || c.len() == 1);
            assert(t.len() == c.len());
            assert(t[0] == x);
            assert(!('a' <= x <= 'z'));
        }
    } else {
        assert(c.len() == 0);
    }
}

/// Prose is capitalized and code-like text is not: text starting with an ASCII
/// lower-case letter gets that letter upper-cased exactly when it holds none of
/// "::", "=>", "->", '{' and '}' (a lone '-' or ':' does not make it code);
/// nothing else changes.
pub proof fn law_capitalize_prose_only(s: Seq<char>)
    ensures
        s.len() > 0 && 'a' <= s[0] <= 'z' && !contains_seq(s, seq![':', ':']) && !contains_seq(s, seq!['=', '>'])
            && !contains_seq(s, seq!['-', '>']) && !s.contains('{') && !s.contains('}')
            ==> capitalize_spec(s) == s.update(0, ((s[0] as u32) - 32) as char),
        !(s.len() > 0 && 'a' <= s[0] <= 'z' && !contains_seq(s, seq![':', ':']) && !contains_seq(s, seq!['=', '>'])
            && !contains_seq(s, seq!['-', '>']) && !s.contains('{') && !s.contains('}'))
            ==> capitalize_spec(s) == s,
{
    reveal_strlit("::");
    reveal_strlit("=>");
    reveal_strlit("->");
    assert("::"@ =~= seq![':', ':']);
    assert("=>"@ =~= seq!['=', '>']);
    assert("->"@ =~= seq!['-', '>']);
}

/// Cleaning up a transcript that is already clean changes nothing.
pub proof fn law_cleanup_idempotent(input: Seq<char>, trailing_space: bool)
    ensures
        cleanup_spec(cleanup_spec(input, trailing_space), trailing_space) == cleanup_spec(input, trailing_space),
{
    lemma_cleaned_core(input);
    let t = capitalize_spec(collapse_ws(trim(input)));
    let out = cleanup_spec(input, trailing_space);
    if trailing_space && t.len() > 0 && !is_ws(t.last()) {
        let o = t.push(' ');
        assert(o.drop_last() == t);
        assert(trim_end(o) == trim_end(t));
        assert(trim_end(t) == t);
        assert(o[0] == t[0]);
        lemma_trim_of_trimmed(t);
        assert(trim(o) == t);
    } else {
        lemma_trim_of_trimmed(t);
    }
    assert(trim(out) == t);
}

fn looks_like_sentence(v: &Vec<char>) -> (r: bool)
    ensures
        r == looks_like_sentence_spec(v@),
{
    let a = chars_of("::");
    let b = chars_of("=>");
    let c = chars_of("->");
    !contains_chars(v, &a) && !contains_chars(v, &b) && !contains_chars(v, &c) && !contains_char(
        v,
        '{',
    ) && !contains_char(v, '}')
}

fn capitalize_first_letter(v: &mut Vec<char>)
    ensures
        final(v)@ == capitalize_spec(old(v)@),
{
    if v.len() > 0 && 'a' <= v[0] && v[0] <= 'z' && looks_like_sentence(v) {
        let up = to_ascii_upper_char(v[0]);
        v.set(0, up);
    }
}

/// Trims the transcript, collapses whitespace, capitalises a prose sentence and
/// adds a trailing space when the settings ask for one.
pub fn cleanup_transcript(input: &str, config: &AppConfig) -> (r: String)
    ensures
        r@ == cleanup_spec(input@, config.trailing_space),
{
    let v = chars_of(input);
    let t = trim_chars(&v);
    let mut text = collapse_chars(&t);
    capitalize_first_letter(&mut text);
    if config.trailing_space && text.len() > 0 && !is_whitespace(text[text.len() - 1]) {
        text.push(' ');
    }
    string_from_chars(&text)
}

/// Turns the spoken phrases "new line" and "new paragraph" into line breaks.
pub fn apply_spoken_commands(input: &str) -> (r: String)
    ensures
        r@ == spoken_commands_spec(input@),
{
    let v = chars_of(input);
    let ws = split_words(&v);
    let ghost wv = words(v@);
    assert(ws@.map_values(|w: Vec<char>| w@) == wv);
    let new_w = chars_of("new");
    let paragraph_w = chars_of("paragraph");
    let line_w = chars_of("line");
    let mut output: Vec<char> = Vec::new();
    let mut index: usize = 0;
    while index < ws.len()
        invariant
            index <= ws@.len(),
            ws@.len() == wv.len(),
            forall|k: int| 0 <= k < ws@.len() ==> (#[trigger] ws@[k])@ == wv[k],
            new_w@ == "new"@,
            paragraph_w@ == "paragraph"@,
            line_w@ == "line"@,
            spoken_from(wv, index as int, output@) == spoken_from(wv, 0, Seq::empty()),
        decreases ws@.len() - index,
    {
        let current = to_ascii_lower(&ws[index]);
        let has_next = index + 1 < ws.len();
        let next = if has_next {
            to_ascii_lower(&ws[index + 1])
        } else {
            Vec::new()
        };
        if has_next && chars_eq(&current, &new_w) && chars_eq(&next, &paragraph_w) {
            strip_trailing_spaces(&mut output);
            push_str(&mut output, "\n\n");
            index += 2;
        } else if has_next && chars_eq(&current, &new_w) && chars_eq(&next, &line_w) {
            strip_trailing_spaces(&mut output);
            output.push('\n');
            index += 2;
        } else {
            push_separator(&mut output);
            append_chars(&mut output, &ws[index]);
            index += 1;
        }
    }
    let t = trim_chars(&output);
    string_from_chars(&t)
}

} // verus!
