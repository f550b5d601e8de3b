//! Recognition of spoken command phrases in a tokenized transcript.
use vstd::prelude::*;
use crate::text::{
    append_chars, chars_of, decimal, decimal_chars, lower, push_str, split_words,
    string_from_chars, string_of, to_ascii_lower, words,
};

verus! {

/// An editing command that can be spoken during dictation.
#[derive(Debug, Clone, Copy, PartialEq, Eq, Structural)]
pub enum VoiceCommand {
    NewLine,
    NewParagraph,
    DeleteLastWord,
    DeleteLastSentence,
    Undo,
    ClearDictation,
    CancelDictation,
}

/// Whether command phrases stand alone or follow a spoken prefix.
#[derive(Debug, Clone, Copy, PartialEq, Eq, Structural)]
pub enum CommandPhraseStyle {
    Natural,
    Prefix,
}

/// A command found in the token stream, covering tokens `start_token..end_token`.
#[derive(Debug, Clone, PartialEq, Eq)]
pub struct RecognizedCommand {
    pub id: String,
    pub command: VoiceCommand,
    pub start_token: usize,
    pub end_token: usize,
}

/// A word of the transcript and its comparison form.
#[derive(Debug, Clone)]
pub struct Token {
    pub original: String,
    pub normalized: String,
}

/// A token as plain values: its original text and its normalized text.
pub open spec fn token_view(t: Token) -> (Seq<char>, Seq<char>) {
    (t.original@, t.normalized@)
}

/// The normalized forms of a token sequence.
pub open spec fn norms(ts: Seq<Token>) -> Seq<Seq<char>> {
    ts.map_values(|t: Token| t.normalized@)
}

// ---------------------------------------------------------------------------
// Normalizing words
// ---------------------------------------------------------------------------

/// Whether `char::is_alphanumeric` holds of `c` (the Unicode `Alphabetic` or
/// `Numeric` property).
pub uninterp spec fn alphanumeric(c: char) -> bool;

/// Calls `char::is_alphanumeric`; the contract names its result and states
/// what the property gives on ASCII: letters and digits are alphanumeric, every
/// other ASCII character (space, punctuation, controls) is not.
#[verifier::external_body]
fn is_alphanumeric(c: char) -> (r: bool)
    ensures
        r == alphanumeric(c),
        (c as u32) < 0x80 ==> (r <==> ascii_alphanumeric(c)),
{
    c.is_alphanumeric()
}

/// An ASCII letter or digit.
pub open spec fn ascii_alphanumeric(c: char) -> bool {
    'a' <= c <= 'z' || 'A' <= c <= 'Z' || '0' <= c <= '9'
}

/// Whether `c` is alphanumeric: on ASCII exactly the letters and digits, as
/// std documents; beyond ASCII what `char::is_alphanumeric` says.
pub open spec fn word_char(c: char) -> bool {
    if (c as u32) < 0x80 {
        ascii_alphanumeric(c)
    } else {
        alphanumeric(c)
    }
}

/// Characters trimmed from both ends of a word: neither alphanumeric nor an apostrophe.
pub open spec fn is_punct(c: char) -> bool {
    !word_char(c) && c != '\''
}

pub open spec fn trim_punct_end(s: Seq<char>) -> Seq<char>
    decreases s.len(),
{
    if s.len() > 0 && is_punct(s.last()) {
        trim_punct_end(s.drop_last())
    } else {
        s
    }
}

pub open spec fn trim_punct_start(s: Seq<char>) -> Seq<char>
    decreases s.len(),
{
    if s.len() > 0 && is_punct(s[0]) {
        trim_punct_start(s.drop_first())
    } else {
        s
    }
}

/// A word without surrounding punctuation, in ASCII lower case.
pub open spec fn normalize_word_spec(w: Seq<char>) -> Seq<char> {
    lower(trim_punct_start(trim_punct_end(w)))
}

fn trim_surrounding_punctuation(v: &Vec<char>) -> (r: Vec<char>)
    ensures
        r@ == trim_punct_start(trim_punct_end(v@)),
{
    let mut e = v.len();
    assert(v@.take(v.len() as int) == v@);
    while e > 0 && !is_alphanumeric(v[e - 1]) && v[e - 1] != '\''
        invariant
            e <= v.len(),
            trim_punct_end(v@.take(e as int)) == trim_punct_end(v@),
        decreases e,
    {
        assert(v@.take(e as int).drop_last() == v@.take(e - 1));
        e -= 1;
    }
    assert(v@.take(v.len() as int) == v@);
    let mut b: usize = 0;
    while b < e && !is_alphanumeric(v[b]) && v[b] != '\''
        invariant
            b <= e <= v.len(),
            trim_punct_start(v@.subrange(b as int, e as int)) == trim_punct_start(
                v@.take(e as int),
            ),
        decreases e - b,
    {
        assert(v@.subrange(b as int, e as int).drop_first() == v@.subrange(b + 1, e as int));
        b += 1;
    }
    assert(v@.subrange(0, e as int) == v@.take(e as int));
    crate::text::copy_range(v, b, e)
}

fn normalize_word(v: &Vec<char>) -> (r: Vec<char>)
    ensures
        r@ == normalize_word_spec(v@),
{
    let t = trim_surrounding_punctuation(v);
    to_ascii_lower(&t)
}

// ---------------------------------------------------------------------------
// Tokenizing
// ---------------------------------------------------------------------------

/// The tokens of a word list: each word with its normalized form, dropping
/// words whose normalized form is empty.
pub open spec fn tokens_of_words(ws: Seq<Seq<char>>) -> Seq<(Seq<char>, Seq<char>)>
    decreases ws.len(),
{
    if ws.len() == 0 {
        Seq::empty()
    } else {
        let n = normalize_word_spec(ws.last());
        if n.len() > 0 {
            tokens_of_words(ws.drop_last()).push((ws.last(), n))
        } else {
            tokens_of_words(ws.drop_last())
        }
    }
}

/// The tokens of a text.
pub open spec fn tokenize_spec(input: Seq<char>) -> Seq<(Seq<char>, Seq<char>)> {
    tokens_of_words(words(input))
}

/// Splits `input` at whitespace into tokens, dropping words that are only punctuation.
pub fn tokenize(input: &str) -> (r: Vec<Token>)
    ensures
        r@.map_values(|t: Token| token_view(t)) == tokenize_spec(input@),
{
    let v = chars_of(input);
    let ws = split_words(&v);
    let ghost wv = words(v@);
    let mut out: Vec<Token> = Vec::new();
    for i in 0..ws.len()
        invariant
            ws@.len() == wv.len(),
            forall|k: int| 0 <= k < ws@.len() ==> (#[trigger] ws@[k])@ == wv[k],
            out@.map_values(|t: Token| token_view(t)) == tokens_of_words(wv.take(i as int)),
    {
        let normalized = normalize_word(&ws[i]);
        assert(wv.take(i + 1).drop_last() == wv.take(i as int));
        assert(wv.take(i + 1).last() == wv[i as int]);
        let ghost before = out@;
        if normalized.len() > 0 {
            let t = Token { original: string_from_chars(&ws[i]), normalized: string_from_chars(&normalized) };
            out.push(t);
            assert(out@.map_values(|t: Token| token_view(t)) == before.map_values(
                |t: Token| token_view(t),
            ).push(token_view(t)));
        }
    }
    assert(wv.take(ws.len() as int) == wv);
    out
}

/// The normalized words of the configured prefix.
pub open spec fn prefix_words_spec(prefix: Seq<char>) -> Seq<Seq<char>> {
    tokenize_spec(prefix).map_values(|t: (Seq<char>, Seq<char>)| t.1)
}

// ---------------------------------------------------------------------------
// Phrases
// ---------------------------------------------------------------------------

/// The command phrases, in the order they are tried: longer phrases that share a
/// first word with shorter ones come first.
pub open spec fn phrases() -> Seq<(VoiceCommand, Seq<Seq<char>>)> {
    seq![
        (VoiceCommand::DeleteLastSentence, seq!["delete"@, "last"@, "sentence"@]),
        (VoiceCommand::DeleteLastWord, seq!["delete"@, "last"@, "word"@]),
        (VoiceCommand::NewParagraph, seq!["new"@, "paragraph"@]),
        (VoiceCommand::CancelDictation, seq!["cancel"@, "dictation"@]),
        (VoiceCommand::ClearDictation, seq!["clear"@, "dictation"@]),
        (VoiceCommand::NewLine, seq!["new"@, "line"@]),
        (VoiceCommand::Undo, seq!["undo"@]),
    ]
}

/// The name that `Debug` prints for a command.
pub open spec fn command_name(c: VoiceCommand) -> Seq<char> {
    match c {
        VoiceCommand::NewLine => "NewLine"@,
        VoiceCommand::NewParagraph => "NewParagraph"@,
        VoiceCommand::DeleteLastWord => "DeleteLastWord"@,
        VoiceCommand::DeleteLastSentence => "DeleteLastSentence"@,
        VoiceCommand::Undo => "Undo"@,
        VoiceCommand::ClearDictation => "ClearDictation"@,
        VoiceCommand::CancelDictation => "CancelDictation"@,
    }
}

/// The stable identifier of a recognised command: `start:end:Command`.
pub open spec fn command_id(start: nat, end: nat, c: VoiceCommand) -> Seq<char> {
    decimal(start) + ":"@ + decimal(end) + ":"@ + command_name(c)
}

/// Whether the normalized tokens from `index` on begin with `ws`.
pub open spec fn matches_spec(ns: Seq<Seq<char>>, index: int, ws: Seq<Seq<char>>) -> bool {
    &&& 0 <= index
    &&& index + ws.len() <= ns.len()
    &&& ns.subrange(index, index + ws.len()) == ws
}

/// The first phrase, from position `k` of the phrase list on, that the tokens at
/// `offset` begin with: its command and the index just after it.
pub open spec fn first_phrase(ns: Seq<Seq<char>>, offset: int, k: int) -> Option<(VoiceCommand, int)>
    decreases phrases().len() - k,
{
    if k < 0 || k >= phrases().len() {
        None
    } else if matches_spec(ns, offset, phrases()[k].1) {
        Some((phrases()[k].0, offset + phrases()[k].1.len()))
    } else {
        first_phrase(ns, offset, k + 1)
    }
}

/// The command that starts at token `index`, with the index just after it.
/// In prefix style the command must follow the prefix words, which must not be empty.
pub open spec fn recognize_spec(
    ns: Seq<Seq<char>>,
    index: int,
    style: CommandPhraseStyle,
    prefix: Seq<char>,
) -> Option<(VoiceCommand, int)> {
    if style == CommandPhraseStyle::Prefix {
        let pw = prefix_words_spec(prefix);
        if pw.len() == 0 || !matches_spec(ns, index, pw) {
            None
        } else {
            first_phrase(ns, index + pw.len(), 0)
        }
    } else {
        first_phrase(ns, index, 0)
    }
}

/// Whether `r` reports `cmd` over tokens `start..end`, with its stable identifier.
pub open spec fn recognized_as(r: RecognizedCommand, cmd: VoiceCommand, start: int, end: int) -> bool {
    &&& r.command == cmd
    &&& r.start_token == start
    &&& r.end_token == end
    &&& r.id@ == command_id(start as nat, end as nat, cmd)
}

pub proof fn lemma_first_phrase_bounds(ns: Seq<Seq<char>>, offset: int, k: int)
    ensures
        first_phrase(ns, offset, k) matches Some((c, end)) ==> 0 <= offset < end <= ns.len(),
    decreases phrases().len() - k,
{
    if 0 <= k < phrases().len() && !matches_spec(ns, offset, phrases()[k].1) {
        lemma_first_phrase_bounds(ns, offset, k + 1);
    }
}

/// A recognised command ends after its start and within the tokens.
pub proof fn lemma_recognize_bounds(
    ns: Seq<Seq<char>>,
    index: int,
    style: CommandPhraseStyle,
    prefix: Seq<char>,
)
    ensures
        recognize_spec(ns, index, style, prefix) matches Some((c, end)) ==> 0 <= index < end <= ns.len(),
{
    if style == CommandPhraseStyle::Prefix {
        let pw = prefix_words_spec(prefix);
        if pw.len() > 0 && matches_spec(ns, index, pw) {
            lemma_first_phrase_bounds(ns, index + pw.len(), 0);
        }
    } else {
        lemma_first_phrase_bounds(ns, index, 0);
    }
}

/// In prefix style a command is only recognised right after the (non-empty)
/// prefix words, so unprefixed command phrases stay ordinary text.
pub proof fn law_prefix_required(
    ns: Seq<Seq<char>>,
    index: int,
    prefix: Seq<char>,
)
    requires
        recognize_spec(ns, index, CommandPhraseStyle::Prefix, prefix) is Some,
    ensures
        prefix_words_spec(prefix).len() > 0,
        matches_spec(ns, index, prefix_words_spec(prefix)),
{
}

fn words_vec3(a: &str, b: &str, c: &str) -> (r: Vec<String>)
    ensures
        r@.map_values(|s: String| s@) == seq![a@, b@, c@],
{
    let mut r = Vec::new();
    r.push(string_of(a));
    r.push(string_of(b));
    r.push(string_of(c));
    assert(r@.map_values(|s: String| s@) == seq![a@, b@, c@]);
    r
}

fn words_vec2(a: &str, b: &str) -> (r: Vec<String>)
    ensures
        r@.map_values(|s: String| s@) == seq![a@, b@],
{
    let mut r = Vec::new();
    r.push(string_of(a));
    r.push(string_of(b));
    assert(r@.map_values(|s: String| s@) == seq![a@, b@]);
    r
}

fn words_vec1(a: &str) -> (r: Vec<String>)
    ensures
        r@.map_values(|s: String| s@) == seq![a@],
{
    let mut r = Vec::new();
    r.push(string_of(a));
    assert(r@.map_values(|s: String| s@) == seq![a@]);
    r
}

/// The phrase table.
fn command_phrases() -> (r: Vec<(VoiceCommand, Vec<String>)>)
    ensures
        r@.len() == phrases().len(),
        forall|k: int|
            0 <= k < r@.len() ==> (#[trigger] r@[k]).0 == phrases()[k].0 && r@[k].1@.map_values(
                |s: String| s@,
            ) == phrases()[k].1,
{
    let mut r: Vec<(VoiceCommand, Vec<String>)> = Vec::new();
    r.push((VoiceCommand::DeleteLastSentence, words_vec3("delete", "last", "sentence")));
    r.push((VoiceCommand::DeleteLastWord, words_vec3("delete", "last", "word")));
    r.push((VoiceCommand::NewParagraph, words_vec2("new", "paragraph")));
    r.push((VoiceCommand::CancelDictation, words_vec2("cancel", "dictation")));
    r.push((VoiceCommand::ClearDictation, words_vec2("clear", "dictation")));
    r.push((VoiceCommand::NewLine, words_vec2("new", "line")));
    r.push((VoiceCommand::Undo, words_vec1("undo")));
    r
}

/// Whether the tokens from `index` on begin with the words `ws`.
fn matches_words(tokens: &[Token], index: usize, ws: &Vec<String>) -> (r: bool)
    ensures
        r == matches_spec(norms(tokens@), index as int, ws@.map_values(|s: String| s@)),
{
    let ghost wv = ws@.map_values(|s: String| s@);
    let ghost ns = norms(tokens@);
    if index > tokens.len() || ws.len() > tokens.len() - index {
        return false;
    }
    for j in 0..ws.len()
        invariant
            index + ws@.len() <= tokens@.len(),
            index + ws.len() <= tokens.len(),
            wv == ws@.map_values(|s: String| s@),
            ns == norms(tokens@),
            forall|m: int| 0 <= m < j ==> ns[index + m] == wv[m],
    {
        if !(tokens[index + j].normalized == ws[j]) {
            assert(ns.subrange(index as int, index + wv.len())[j as int] != wv[j as int]);
            return false;
        }
    }
    assert(ns.subrange(index as int, index + wv.len()) == wv);
    true
}

fn command_name_chars(c: VoiceCommand) -> (r: Vec<char>)
    ensures
        r@ == command_name(c),
{
    match c {
        VoiceCommand::NewLine => chars_of("NewLine"),
        VoiceCommand::NewParagraph => chars_of("NewParagraph"),
        VoiceCommand::DeleteLastWord => chars_of("DeleteLastWord"),
        VoiceCommand::DeleteLastSentence => chars_of("DeleteLastSentence"),
        VoiceCommand::Undo => chars_of("Undo"),
        VoiceCommand::ClearDictation => chars_of("ClearDictation"),
        VoiceCommand::CancelDictation => chars_of("CancelDictation"),
    }
}

/// The identifier `start:end:Command`.
fn make_id(start: usize, end: usize, c: VoiceCommand) -> (r: String)
    ensures
        r@ == command_id(start as nat, end as nat, c),
{
    let mut v = decimal_chars(start);
    push_str(&mut v, ":");
    let e = decimal_chars(end);
    append_chars(&mut v, &e);
    push_str(&mut v, ":");
    let n = command_name_chars(c);
    append_chars(&mut v, &n);
    string_from_chars(&v)
}

/// The command phrase at token `index`, if any: in prefix style it must follow
/// the prefix words; phrases are tried in the order of the phrase table.
pub fn recognize_at(
    tokens: &[Token],
    index: usize,
    style: CommandPhraseStyle,
    prefix: &str,
) -> (r: Option<RecognizedCommand>)
    ensures
        match recognize_spec(norms(tokens@), index as int, style, prefix@) {
            Some((cmd, end)) => r matches Some(rc) && recognized_as(rc, cmd, index as int, end),
            None => r is None,
        },
{
    let ghost ns = norms(tokens@);
    let prefix_tokens = tokenize(prefix);
    let mut prefix_words: Vec<String> = Vec::new();
    for i in 0..prefix_tokens.len()
        invariant
            prefix_words@.map_values(|s: String| s@) == prefix_tokens@.take(i as int).map_values(
                |t: Token| t.normalized@,
            ),
    {
        let ghost before = prefix_words@;
        prefix_words.push(prefix_tokens[i].normalized.clone());
        assert(prefix_tokens@.take(i + 1).map_values(|t: Token| t.normalized@)
            == prefix_tokens@.take(i as int).map_values(|t: Token| t.normalized@).push(
            prefix_tokens@[i as int].normalized@,
        ));
        assert(prefix_words@.map_values(|s: String| s@) == before.map_values(|s: String| s@).push(
            prefix_tokens@[i as int].normalized@,
        ));
    }
    proof {
        assert(prefix_tokens@.take(prefix_tokens@.len() as int) == prefix_tokens@);
        assert(prefix_words@.map_values(|s: String| s@) == prefix_words_spec(prefix@)) by {
            let a = prefix_tokens@.map_values(|t: Token| t.normalized@);
            let b = prefix_tokens@.map_values(|t: Token| token_view(t));
            let c = prefix_words_spec(prefix@);
            assert(a.len() == c.len());
            assert forall|k: int| 0 <= k < a.len() implies a[k] == c[k] by {
                assert(b[k] == token_view(prefix_tokens@[k]));
            }
        }
    }
    let mut offset = index;
    if style == CommandPhraseStyle::Prefix {
        if prefix_words.len() == 0 || !matches_words(tokens, offset, &prefix_words) {
            return None;
        }
        assert(prefix_words@.map_values(|s: String| s@).len() == prefix_words@.len());
        assert(norms(tokens@).len() == tokens@.len());
        assert(tokens@.len() == tokens.len());
        offset += prefix_words.len();
    }
    let table = command_phrases();
    let mut k: usize = 0;
    while k < table.len()
        invariant
            table@.len() == phrases().len(),
            forall|m: int|
                0 <= m < table@.len() ==> (#[trigger] table@[m]).0 == phrases()[m].0
                    && table@[m].1@.map_values(|s: String| s@) == phrases()[m].1,
            k <= table@.len(),
            ns == norms(tokens@),
            recognize_spec(ns, index as int, style, prefix@) == first_phrase(ns, offset as int, k as int),
        decreases table@.len() - k,
    {
        let command = table[k].0;
        let ws = &table[k].1;
        if matches_words(tokens, offset, ws) {
            assert(ws@.map_values(|s: String| s@).len() == ws@.len());
            assert(norms(tokens@).len() == tokens@.len());
            assert(tokens@.len() == tokens.len());
            let end = offset + ws.len();
            let id = make_id(index, end, command);
            return Some(RecognizedCommand { id, command, start_token: index, end_token: end });
        }
        k += 1;
    }
    None
}

} // verus!
