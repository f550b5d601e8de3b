//! Applies recognised voice commands to the dictation text.
use vstd::prelude::*;
use crate::config::{VoiceCommandConfig, VoiceCommandMode};
use crate::text::{
    append_chars, chars_of, is_whitespace, is_ws, push_separator, push_str, string_from_chars,
    strip_spaces, strip_trailing_spaces, trim, trim_chars, trim_end, trim_end_len, with_separator,
};
use super::history::CommandHistory;
use super::parser::{
    lemma_recognize_bounds, norms, recognize_at, recognize_spec, recognized_as, token_view,
    tokenize, tokenize_spec, CommandPhraseStyle, RecognizedCommand, Token, VoiceCommand,
};

verus! {

/// The outcome of running the command processor over a transcript.
#[derive(Debug, Clone)]
pub struct CommandProcessingResult {
    pub text: String,
    pub cancelled: bool,
    pub commands: Vec<RecognizedCommand>,
}

// ---------------------------------------------------------------------------
// The model of command execution
// ---------------------------------------------------------------------------

/// `t` cut just before its last whitespace character; empty if it has none.
pub open spec fn cut_last_word(t: Seq<char>) -> Seq<char>
    decreases t.len(),
{
    if t.len() == 0 {
        Seq::empty()
    } else if is_ws(t.last()) {
        t.drop_last()
    } else {
        cut_last_word(t.drop_last())
    }
}

/// The text after "delete last word".
pub open spec fn delete_word_spec(out: Seq<char>) -> Seq<char> {
    strip_spaces(cut_last_word(strip_spaces(out)))
}

/// Sentence-ending punctuation.
pub open spec fn is_stop(c: char) -> bool {
    c == '.' || c == '!' || c == '?'
}

/// The position just after the last sentence-ending mark of `t`, if any.
pub open spec fn last_stop(t: Seq<char>) -> Option<int>
    decreases t.len(),
{
    if t.len() == 0 {
        None
    } else if is_stop(t.last()) {
        Some(t.len() as int)
    } else {
        last_stop(t.drop_last())
    }
}

/// The text after "delete last sentence": cut after the last sentence end that
/// precedes the final sentence; when the text ends in a mark, that mark closes the
/// final sentence and the cut goes after the mark before it (or, if there is none,
/// at the final mark). Text without any mark is cleared.
pub open spec fn delete_sentence_spec(out: Seq<char>) -> Seq<char> {
    let t = strip_spaces(out);
    if t.len() == 0 {
        t
    } else {
        let tr = trim_end(t);
        match last_stop(tr) {
            None => Seq::empty(),
            Some(k) => if k == tr.len() {
                match last_stop(tr.take(k - 1)) {
                    Some(k2) => strip_spaces(t.take(k2)),
                    None => strip_spaces(t.take(k)),
                }
            } else {
                strip_spaces(t.take(k))
            },
        }
    }
}

/// Dictation state: the text so far, the undo snapshots, and whether dictation was cancelled.
pub type DictationState = (Seq<char>, Seq<Seq<char>>, bool);

/// The effect of one command on the dictation state. Every editing command saves
/// the text before it; undo restores the newest saved text.
pub open spec fn apply_spec(cmd: VoiceCommand, s: DictationState) -> DictationState {
    let (out, hist, cancelled) = s;
    match cmd {
        VoiceCommand::NewLine => (strip_spaces(out).push('\n'), hist.push(out), cancelled),
        VoiceCommand::NewParagraph => (strip_spaces(out) + "\n\n"@, hist.push(out), cancelled),
        VoiceCommand::DeleteLastWord => (delete_word_spec(out), hist.push(out), cancelled),
        VoiceCommand::DeleteLastSentence => (delete_sentence_spec(out), hist.push(out), cancelled),
        VoiceCommand::Undo => if hist.len() > 0 {
            (hist.last(), hist.drop_last(), cancelled)
        } else {
            s
        },
        VoiceCommand::ClearDictation => (Seq::empty(), hist.push(out), cancelled),
        VoiceCommand::CancelDictation => (out, hist, true),
    }
}

/// The text after an ordinary word is dictated.
pub open spec fn append_word_spec(out: Seq<char>, word: Seq<char>) -> Seq<char> {
    if word.len() == 0 {
        out
    } else {
        with_separator(out) + word
    }
}

/// Processing of the tokens from `i` on: recognised commands are applied and
/// recorded, other tokens are appended as words; a cancel clears the text and stops.
/// Returns the final text, whether dictation was cancelled, and the commands
/// as (command, start token, end token).
pub open spec fn run_spec(
    ns: Seq<Seq<char>>,
    origs: Seq<Seq<char>>,
    style: CommandPhraseStyle,
    prefix: Seq<char>,
    i: int,
    s: DictationState,
    cmds: Seq<(VoiceCommand, int, int)>,
) -> (Seq<char>, bool, Seq<(VoiceCommand, int, int)>)
    decreases ns.len() - i,
{
    if i < 0 || i >= ns.len() {
        (s.0, s.2, cmds)
    } else {
        match recognize_spec(ns, i, style, prefix) {
            Some((cmd, end)) => {
                let s2 = apply_spec(cmd, s);
                let cmds2 = cmds.push((cmd, i, end));
                if s2.2 {
                    (Seq::empty(), true, cmds2)
                } else {
                    proof {
                        lemma_recognize_bounds(ns, i, style, prefix);
                    }
                    run_spec(ns, origs, style, prefix, end, s2, cmds2)
                }
            },
            None => run_spec(
                ns,
                origs,
                style,
                prefix,
                i + 1,
                (append_word_spec(s.0, origs[i]), s.1, s.2),
                cmds,
            ),
        }
    }
}

pub open spec fn style_of(mode: VoiceCommandMode) -> CommandPhraseStyle {
    match mode {
        VoiceCommandMode::Natural => CommandPhraseStyle::Natural,
        VoiceCommandMode::Prefix => CommandPhraseStyle::Prefix,
    }
}

/// What `process_transcript` returns, as (text, cancelled, commands).
pub open spec fn process_spec(
    input: Seq<char>,
    enabled: bool,
    mode: VoiceCommandMode,
    prefix: Seq<char>,
) -> (Seq<char>, bool, Seq<(VoiceCommand, int, int)>) {
    if !enabled {
        (trim(input), false, Seq::empty())
    } else {
        let toks = tokenize_spec(input);
        let r = run_spec(
            toks.map_values(|t: (Seq<char>, Seq<char>)| t.1),
            toks.map_values(|t: (Seq<char>, Seq<char>)| t.0),
            style_of(mode),
            prefix,
            0,
            (Seq::empty(), Seq::empty(), false),
            Seq::empty(),
        );
        (trim(r.0), r.1, r.2)
    }
}

/// Whether `r` is the outcome described by `p`.
pub open spec fn result_matches(
    r: CommandProcessingResult,
    p: (Seq<char>, bool, Seq<(VoiceCommand, int, int)>),
) -> bool {
    &&& r.text@ == p.0
    &&& r.cancelled == p.1
    &&& r.commands@.len() == p.2.len()
    &&& forall|k: int|
        0 <= k < p.2.len() ==> recognized_as(#[trigger] r.commands@[k], p.2[k].0, p.2[k].1, p.2[k].2)
}

// ---------------------------------------------------------------------------
// Laws
// ---------------------------------------------------------------------------

/// Whether `c` is one of the marks '.', '!' or '?'.
pub open spec fn sentence_mark(c: char) -> bool {
    c == '.' || c == '!' || c == '?'
}

/// With no mark in `b`, the last mark of `a + b` is the one at the end of `a`.
proof fn lemma_last_stop_after(a: Seq<char>, b: Seq<char>)
    requires
        a.len() > 0,
        sentence_mark(a.last()),
        forall|i: int| 0 <= i < b.len() ==> !sentence_mark(#[trigger] b[i]),
    ensures
        last_stop(a + b) == Some(a.len() as int),
    decreases b.len(),
{
    if b.len() == 0 {
        assert(a + b == a);
    } else {
        assert((a + b).drop_last() == a + b.drop_last());
        assert((a + b).last() == b.last());
        lemma_last_stop_after(a, b.drop_last());
    }
}

/// With no mark at all, there is no last mark.
proof fn lemma_last_stop_none(b: Seq<char>)
    requires
        forall|i: int| 0 <= i < b.len() ==> !sentence_mark(#[trigger] b[i]),
    ensures
        last_stop(b) is None,
    decreases b.len(),
{
    if b.len() > 0 {
        lemma_last_stop_none(b.drop_last());
    }
}

/// "Delete last sentence" removes exactly the final sentence: '.', '!' and '?'
/// all end a sentence. When the dictation is `a` (ending in a mark) followed
/// by a final sentence `b` with no mark in it, the result is `a`; when `b`
/// ends in a mark and has none before it, the result is `a` as well; text
/// without any mark is cleared. (Trailing spaces of the result are dropped.)
pub proof fn law_delete_sentence_keeps_previous_sentences(a: Seq<char>, b: Seq<char>)
    ensures
        a.len() > 0 && sentence_mark(a.last()) && b.len() > 0 && !is_ws(b.last())
            && (forall|i: int| 0 <= i < b.len() ==> !sentence_mark(#[trigger] b[i]))
            ==> delete_sentence_spec(a + b) == strip_spaces(a),
        a.len() > 0 && sentence_mark(a.last()) && b.len() > 0 && sentence_mark(b.last())
            && (forall|i: int| 0 <= i < b.len() - 1 ==> !sentence_mark(#[trigger] b[i]))
            ==> delete_sentence_spec(a + b) == strip_spaces(a),
        (forall|i: int| 0 <= i < a.len() ==> !sentence_mark(#[trigger] a[i]))
            ==> delete_sentence_spec(a) == Seq::<char>::empty(),
{
    let t = a + b;
    if a.len() > 0 && sentence_mark(a.last()) && b.len() > 0 && !is_ws(b.last())
        && (forall|i: int| 0 <= i < b.len() ==> !sentence_mark(#[trigger] b[i])) {
        assert(t.last() == b.last());
        assert(strip_spaces(t) == t);
        assert(trim_end(t) == t);
        lemma_last_stop_after(a, b);
        assert(t.take(a.len() as int) == a);
    }
    if a.len() > 0 && sentence_mark(a.last()) && b.len() > 0 && sentence_mark(b.last())
        && (forall|i: int| 0 <= i < b.len() - 1 ==> !sentence_mark(#[trigger] b[i])) {
        assert(t.last() == b.last());
        assert(strip_spaces(t) == t);
        assert(trim_end(t) == t);
        assert(last_stop(t) == Some(t.len() as int));
        let bp = b.drop_last();
        assert(t.take(t.len() - 1) == a + bp);
        assert forall|i: int| 0 <= i < bp.len() implies !sentence_mark(#[trigger] bp[i]) by {
            assert(bp[i] == b[i]);
        }
        lemma_last_stop_after(a, bp);
        assert(t.take(a.len() as int) == a);
    }
    if forall|i: int| 0 <= i < a.len() ==> !sentence_mark(#[trigger] a[i]) {
        let s = strip_spaces(a);
        if s.len() > 0 {
            lemma_strip_spaces_prefix(a);
            crate::text::lemma_trim_end_prefix(s);
            let tr = trim_end(s);
            assert forall|i: int| 0 <= i < tr.len() implies !sentence_mark(#[trigger] tr[i]) by {
                assert(tr[i] == s[i]);
                assert(s[i] == a[i]);
            }
            lemma_last_stop_none(tr);
        }
    }
}

proof fn lemma_strip_spaces_prefix(s: Seq<char>)
    ensures
        strip_spaces(s).len() <= s.len(),
        strip_spaces(s) == s.take(strip_spaces(s).len() as int),
    decreases s.len(),
{
    if s.len() > 0 && s.last() == ' ' {
        lemma_strip_spaces_prefix(s.drop_last());
        assert(s.drop_last().take(strip_spaces(s).len() as int) == s.take(strip_spaces(s).len() as int));
    } else {
        assert(s.take(s.len() as int) == s);
    }
}

/// Undo right after an editing command gives back the text and history from before it.
pub proof fn law_undo_restores(cmd: VoiceCommand, s: DictationState)
    requires
        cmd != VoiceCommand::Undo,
        cmd != VoiceCommand::CancelDictation,
    ensures
        apply_spec(VoiceCommand::Undo, apply_spec(cmd, s)) == s,
{
    let (out, hist, c) = s;
    assert(hist.push(out).drop_last() == hist);
}

/// Cancelling dictation yields an empty text, the cancelled flag, and stops processing.
pub proof fn law_cancel_clears(
    ns: Seq<Seq<char>>,
    origs: Seq<Seq<char>>,
    style: CommandPhraseStyle,
    prefix: Seq<char>,
    i: int,
    s: DictationState,
    cmds: Seq<(VoiceCommand, int, int)>,
)
    requires
        0 <= i < ns.len(),
        recognize_spec(ns, i, style, prefix) matches Some((c, e)) && c == VoiceCommand::CancelDictation,
    ensures
        run_spec(ns, origs, style, prefix, i, s, cmds).0 == Seq::<char>::empty(),
        run_spec(ns, origs, style, prefix, i, s, cmds).1,
{
}

/// With voice commands disabled the transcript is only trimmed.
pub proof fn law_disabled_is_trim(input: Seq<char>, mode: VoiceCommandMode, prefix: Seq<char>)
    ensures
        process_spec(input, false, mode, prefix) == (trim(input), false, Seq::<(VoiceCommand, int, int)>::empty()),
{
}

// ---------------------------------------------------------------------------
// Execution
// ---------------------------------------------------------------------------

fn append_word(output: &mut Vec<char>, word: &str)
    ensures
        final(output)@ == append_word_spec(old(output)@, word@),
{
    let w = chars_of(word);
    if w.len() == 0 {
        return;
    }
    push_separator(output);
    append_chars(output, &w);
}

fn delete_last_word(output: &mut Vec<char>)
    ensures
        final(output)@ == delete_word_spec(old(output)@),
{
    strip_trailing_spaces(output);
    let ghost t = output@;
    let mut j = output.len();
    assert(output@.take(j as int) == t);
    while j > 0 && !is_whitespace(output[j - 1])
        invariant
            j <= output@.len(),
            output@ == t,
            cut_last_word(t.take(j as int)) == cut_last_word(t),
        decreases j,
    {
        assert(t.take(j as int).drop_last() == t.take(j - 1));
        j -= 1;
    }
    if j == 0 {
        output.clear();
        return;
    }
    assert(t.take(j as int).drop_last() == t.take(j - 1));
    output.truncate(j - 1);
    strip_trailing_spaces(output);
}

/// The position just after the last sentence mark of `v[..end]`.
fn last_stop_before(v: &Vec<char>, end: usize) -> (r: Option<usize>)
    requires
        end <= v.len(),
    ensures
        r is None <==> last_stop(v@.take(end as int)) is None,
        r matches Some(k) ==> 0 < k <= end,
        r matches Some(k) ==> last_stop(v@.take(end as int)) == Some(k as int),
{
    let mut j = end;
    while j > 0 && !(v[j - 1] == '.' || v[j - 1] == '!' || v[j - 1] == '?')
        invariant
            j <= end <= v.len(),
            last_stop(v@.take(j as int)) == last_stop(v@.take(end as int)),
        decreases j,
    {
        assert(v@.take(j as int).drop_last() == v@.take(j - 1));
        j -= 1;
    }
    if j == 0 {
        None
    } else {
        Some(j)
    }
}

fn delete_last_sentence(output: &mut Vec<char>)
    ensures
        final(output)@ == delete_sentence_spec(old(output)@),
{
    strip_trailing_spaces(output);
    if output.len() == 0 {
        return;
    }
    let ghost t = output@;
    let tl = trim_end_len(output, output.len());
    assert(t.take(t.len() as int) == t);
    let ghost tr = trim_end(t);
    assert(tr == t.take(tl as int));
    match last_stop_before(output, tl) {
        None => {
            assert(last_stop(tr) is None);
            output.clear();
        },
        Some(k) => {
            assert(last_stop(tr) == Some(k as int));
            assert(k <= tl);
            let keep = if k == tl {
                assert(tr.take(k - 1) == t.take(k - 1));
                match last_stop_before(output, k - 1) {
                    Some(k2) => {
                        assert(last_stop(tr.take(k - 1)) == Some(k2 as int));
                        k2
                    },
                    None => {
                        assert(last_stop(tr.take(k - 1)) is None);
                        k
                    },
                }
            } else {
                k
            };
            assert(keep <= t.len());
            output.truncate(keep);
            assert(output@ == t.take(keep as int));
            strip_trailing_spaces(output);
        },
    }
}

/// Applies one recognized command to the output, the undo history and the
/// cancelled flag.
pub fn apply_command(
    command: VoiceCommand,
    output: &mut Vec<char>,
    history: &mut CommandHistory,
    cancelled: &mut bool,
)
    ensures
        (final(output)@, final(history)@, *final(cancelled)) == apply_spec(
            command,
            (old(output)@, old(history)@, *old(cancelled)),
        ),
{
    match command {
        VoiceCommand::NewLine => {
            history.push(string_from_chars(output).as_str());
            strip_trailing_spaces(output);
            output.push('\n');
        },
        VoiceCommand::NewParagraph => {
            history.push(string_from_chars(output).as_str());
            strip_trailing_spaces(output);
            push_str(output, "\n\n");
        },
        VoiceCommand::DeleteLastWord => {
            history.push(string_from_chars(output).as_str());
            delete_last_word(output);
        },
        VoiceCommand::DeleteLastSentence => {
            history.push(string_from_chars(output).as_str());
            delete_last_sentence(output);
        },
        VoiceCommand::Undo => {
            if let Some(previous) = history.undo() {
                *output = chars_of(previous.as_str());
            }
        },
        VoiceCommand::ClearDictation => {
            history.push(string_from_chars(output).as_str());
            output.clear();
        },
        VoiceCommand::CancelDictation => {
            *cancelled = true;
        },
    }
}

fn process_tokens(
    tokens: &Vec<Token>,
    style: CommandPhraseStyle,
    prefix: &str,
) -> (r: CommandProcessingResult)
    ensures
        ({
            let run = run_spec(
                norms(tokens@),
                tokens@.map_values(|t: Token| t.original@),
                style,
                prefix@,
                0,
                (Seq::empty(), Seq::empty(), false),
                Seq::empty(),
            );
            result_matches(r, (trim(run.0), run.1, run.2))
        }),
{
    let ghost ns = norms(tokens@);
    let ghost origs = tokens@.map_values(|t: Token| t.original@);
    let ghost total = run_spec(ns, origs, style, prefix@, 0, (Seq::empty(), Seq::empty(), false), Seq::empty());
    let mut output: Vec<char> = Vec::new();
    let mut history = CommandHistory::default();
    let mut commands: Vec<RecognizedCommand> = Vec::new();
    let ghost mut cmds: Seq<(VoiceCommand, int, int)> = Seq::empty();
    let mut index: usize = 0;
    let mut cancelled = false;
    while index < tokens.len()
        invariant
            ns == norms(tokens@),
            origs == tokens@.map_values(|t: Token| t.original@),
            ns.len() == tokens@.len(),
            index <= tokens@.len(),
            !cancelled,
            total == run_spec(ns, origs, style, prefix@, 0, (Seq::empty(), Seq::empty(), false), Seq::empty()),
            run_spec(ns, origs, style, prefix@, index as int, (output@, history@, cancelled), cmds)
                == total,
            commands@.len() == cmds.len(),
            forall|k: int|
                0 <= k < cmds.len() ==> recognized_as(
                    #[trigger] commands@[k],
                    cmds[k].0,
                    cmds[k].1,
                    cmds[k].2,
                ),
        decreases tokens@.len() - index,
    {
        let rec = recognize_at(tokens.as_slice(), index, style, prefix);
        match rec {
            Some(recognized) => {
                proof {
                    lemma_recognize_bounds(ns, index as int, style, prefix@);
                }
                let next_index = recognized.end_token;
                let command = recognized.command;
                let ghost before = (output@, history@, cancelled);
                assert(recognize_spec(ns, index as int, style, prefix@) == Some((command, next_index as int)));
                apply_command(command, &mut output, &mut history, &mut cancelled);
                let ghost entry = (command, index as int, next_index as int);
                commands.push(recognized);
                proof {
                    cmds = cmds.push(entry);
                }
                if cancelled {
                    assert(total == run_spec(ns, origs, style, prefix@, index as int, before, cmds.drop_last()));
                    assert(apply_spec(command, before).2);
                    assert(cmds.drop_last().push(entry) == cmds);
                    assert(total == (Seq::<char>::empty(), true, cmds));
                    output.clear();
                    let text = trim_chars(&output);
                    assert(text@ == trim(Seq::<char>::empty()));
                    assert(recognized_as(commands@[commands@.len() - 1], command, index as int, next_index as int));
                    assert forall|k: int| 0 <= k < cmds.len() implies recognized_as(
                        #[trigger] commands@[k],
                        cmds[k].0,
                        cmds[k].1,
                        cmds[k].2,
                    ) by {
                        if k < cmds.len() - 1 {
                            assert(cmds[k] == cmds.drop_last()[k]);
                        }
                    }
                    let r = CommandProcessingResult {
                        text: string_from_chars(&text),
                        cancelled,
                        commands,
                    };
                    return r;
                }
                index = next_index;
            },
            None => {
                append_word(&mut output, tokens[index].original.as_str());
                index += 1;
            },
        }
    }
    let text = trim_chars(&output);
    CommandProcessingResult { text: string_from_chars(&text), cancelled, commands }
}

/// Applies the voice commands found in `input`, or only trims it when voice
/// commands are disabled.
pub fn process_transcript(input: &str, config: &VoiceCommandConfig) -> (r: CommandProcessingResult)
    ensures
        result_matches(r, process_spec(input@, config.enabled, config.mode, config.prefix@)),
{
    if !config.enabled {
        let v = chars_of(input);
        let t = trim_chars(&v);
        return CommandProcessingResult {
            text: string_from_chars(&t),
            cancelled: false,
            commands: Vec::new(),
        };
    }
    let style = match config.mode {
        VoiceCommandMode::Natural => CommandPhraseStyle::Natural,
        VoiceCommandMode::Prefix => CommandPhraseStyle::Prefix,
    };
    let tokens = tokenize(input);
    proof {
        let toks = tokenize_spec(input@);
        let tv = tokens@.map_values(|t: Token| token_view(t));
        let n1 = norms(tokens@);
        let n2 = toks.map_values(|t: (Seq<char>, Seq<char>)| t.1);
        let o1 = tokens@.map_values(|t: Token| t.original@);
        let o2 = toks.map_values(|t: (Seq<char>, Seq<char>)| t.0);
        assert forall|k: int| 0 <= k < tv.len() implies #[trigger] n1[k] == n2[k] && o1[k] == o2[k] by {
            assert(tv[k] == token_view(tokens@[k]));
        }
        assert(n1 == n2);
        assert(o1 == o2);
    }
    process_tokens(&tokens, style, config.prefix.as_str())
}

} // verus!
