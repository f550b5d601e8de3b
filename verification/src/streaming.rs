//! Live preview: bounded, overlapping audio chunks and de-duplicated preview text.
use vstd::prelude::*;
use crate::audio::{AudioBuffer, WHISPER_SAMPLE_RATE};
use crate::config::StreamingQuality;
use crate::text::{
    append_chars, chars_of, copy_all, copy_range, join_spaces, join_words, lower, split_words,
    string_from_chars, to_ascii_lower, trim, trim_chars, words,
};

verus! {

/// The `uuid` crate's identifier type, carried through as an opaque value.
#[verifier::external_type_specification]
#[verifier::external_body]
pub struct ExUuid(uuid::Uuid);

/// The live-preview state of one recording.
#[derive(Debug)]
pub struct StreamingSession {
    pub session_id: uuid::Uuid,
    pub committed_text: String,
    pub unstable_text: String,
    pub processed_samples: usize,
    pub is_cancelled: bool,
}

pub open spec fn overlap_ms_spec(q: StreamingQuality) -> u64 {
    match q {
        StreamingQuality::Fast => 200,
        StreamingQuality::Balanced => 350,
        StreamingQuality::Accurate => 500,
    }
}

pub open spec fn window_ms_spec(q: StreamingQuality) -> u64 {
    match q {
        StreamingQuality::Fast => 2_500,
        StreamingQuality::Balanced => 4_000,
        StreamingQuality::Accurate => 6_000,
    }
}

/// How much audio before the new part each chunk repeats.
pub fn overlap_ms_of(q: StreamingQuality) -> (r: u64)
    ensures
        r == overlap_ms_spec(q),
{
    match q {
        StreamingQuality::Fast => 200,
        StreamingQuality::Balanced => 350,
        StreamingQuality::Accurate => 500,
    }
}

/// The longest chunk.
pub fn window_ms_of(q: StreamingQuality) -> (r: u64)
    ensures
        r == window_ms_spec(q),
{
    match q {
        StreamingQuality::Fast => 2_500,
        StreamingQuality::Balanced => 4_000,
        StreamingQuality::Accurate => 6_000,
    }
}

/// Overlap and window lengths of each preview quality.
pub trait StreamingQualityExt {
    fn overlap_ms(self) -> u64;

    fn window_ms(self) -> u64;
}

impl StreamingQualityExt for StreamingQuality {
    /// How much audio before the new part each chunk repeats.
    fn overlap_ms(self) -> (r: u64)
        ensures
            r == overlap_ms_spec(self),
    {
        overlap_ms_of(self)
    }

    /// The longest chunk.
    fn window_ms(self) -> (r: u64)
        ensures
            r == window_ms_spec(self),
    {
        window_ms_of(self)
    }
}

/// The rate used for a buffer: its own, or whisper's when it has none.
pub open spec fn effective_rate(sample_rate: u32) -> nat {
    if sample_rate == 0 {
        WHISPER_SAMPLE_RATE as nat
    } else {
        sample_rate as nat
    }
}

/// Frames in `milliseconds` of audio at `sample_rate`, rounded down.
pub open spec fn samples_for_ms_spec(sample_rate: u32, milliseconds: u64) -> usize {
    ((effective_rate(sample_rate) * milliseconds) / 1000) as usize
}

/// Frames in `milliseconds` of audio (a zero rate counts as 16 kHz).
pub fn samples_for_ms(sample_rate: u32, milliseconds: u64) -> (r: usize)
    requires
        effective_rate(sample_rate) * milliseconds <= u64::MAX,
    ensures
        r == samples_for_ms_spec(sample_rate, milliseconds),
{
    let rate = if sample_rate == 0 {
        WHISPER_SAMPLE_RATE
    } else {
        sample_rate
    };
    ((rate as u64 * milliseconds) / 1_000) as usize
}

pub open spec fn sat_sub(a: int, b: int) -> int {
    if a >= b {
        a - b
    } else {
        0
    }
}

/// The first frame of the next chunk: the processed position minus the
/// overlap, but never before the window's start nor at or past the end.
pub open spec fn chunk_start(frames: int, processed: int, overlap: int, window: int) -> int {
    let start_frame = if sat_sub(processed, overlap) < sat_sub(frames, 1) {
        sat_sub(processed, overlap)
    } else {
        sat_sub(frames, 1)
    };
    if sat_sub(frames, window) > start_frame {
        sat_sub(frames, window)
    } else {
        start_frame
    }
}

/// The next preview chunk, as (first sample, end sample), or none when the session
/// is cancelled, the buffer is empty, or fewer than 500 ms of new frames arrived.
pub open spec fn next_chunk_spec(
    cancelled: bool,
    processed: int,
    sample_rate: u32,
    channels: u16,
    len: int,
    quality: StreamingQuality,
) -> Option<(int, int)> {
    if cancelled || channels == 0 || len == 0 {
        None
    } else {
        let frames = len / (channels as int);
        if frames <= processed {
            None
        } else if frames - processed < samples_for_ms_spec(sample_rate, 500) {
            None
        } else {
            let start = chunk_start(
                frames,
                processed,
                samples_for_ms_spec(sample_rate, overlap_ms_spec(quality)) as int,
                samples_for_ms_spec(sample_rate, window_ms_spec(quality)) as int,
            );
            Some((start * channels, frames * channels))
        }
    }
}

/// The preview after the newest partial transcript `next` follows `previous`:
/// when the last words of `previous` equal the first words of `next` (up to 12,
/// ignoring ASCII case, longest overlap first) the two are joined without the
/// repeated words; otherwise `next` replaces `previous`.
pub open spec fn dedupe_spec(previous: Seq<char>, next: Seq<char>) -> Seq<char> {
    let pw = words(previous);
    let nw = words(next);
    if pw.len() == 0 || nw.len() == 0 {
        trim(next)
    } else {
        match best_overlap(pw, nw, max_overlap(pw.len() as int, nw.len() as int)) {
            Some(k) => join_spaces(pw + nw.skip(k)),
            None => trim(next),
        }
    }
}

pub open spec fn max_overlap(a: int, b: int) -> int {
    let m = if a < b { a } else { b };
    if m < 12 { m } else { 12 }
}

/// Whether the last `k` words of `pw` equal the first `k` words of `nw`, ignoring ASCII case.
pub open spec fn overlaps(pw: Seq<Seq<char>>, nw: Seq<Seq<char>>, k: int) -> bool {
    forall|j: int| 0 <= j < k ==> lower(#[trigger] pw[pw.len() - k + j]) == lower(nw[j])
}

/// The largest overlap that is at most `k`.
pub open spec fn best_overlap(pw: Seq<Seq<char>>, nw: Seq<Seq<char>>, k: int) -> Option<int>
    decreases k,
{
    if k <= 0 {
        None
    } else if overlaps(pw, nw, k) {
        Some(k)
    } else {
        best_overlap(pw, nw, k - 1)
    }
}

/// Whether the last `k` words of `pw` are, ignoring ASCII case, the first `k` words of `nw`.
pub open spec fn seam_repeats(pw: Seq<Seq<char>>, nw: Seq<Seq<char>>, k: int) -> bool {
    &&& 1 <= k <= pw.len()
    &&& k <= nw.len()
    &&& forall|j: int| 0 <= j < k ==> #[trigger] lower(pw[pw.len() - k + j]) == lower(nw[j])
}

proof fn lemma_best_overlap(pw: Seq<Seq<char>>, nw: Seq<Seq<char>>, m: int)
    requires
        m <= pw.len(),
        m <= nw.len(),
    ensures
        best_overlap(pw, nw, m) matches Some(k) ==> 1 <= k <= m && seam_repeats(pw, nw, k),
        forall|k: int| 1 <= k <= m && #[trigger] seam_repeats(pw, nw, k) ==> (best_overlap(pw, nw, m) matches Some(k0)
            && k <= k0),
    decreases m,
{
    if m > 0 {
        lemma_best_overlap(pw, nw, m - 1);
        if overlaps(pw, nw, m) {
            assert(seam_repeats(pw, nw, m)) by {
                assert forall|j: int| 0 <= j < m implies #[trigger] lower(pw[pw.len() - m + j]) == lower(nw[j]) by {
                    assert(lower(pw[pw.len() - m + j]) == lower(nw[j]));
                }
            }
        } else {
            assert forall|k: int| 1 <= k <= m && #[trigger] seam_repeats(pw, nw, k) implies (best_overlap(pw, nw, m) matches Some(k0) && k <= k0) by {
                if k == m {
                    assert forall|j: int| 0 <= j < m implies lower(#[trigger] pw[pw.len() - m + j]) == lower(nw[j]) by {
                        assert(lower(pw[pw.len() - k + j]) == lower(nw[j]));
                    }
                }
            }
        }
    }
}

/// Merging a partial transcript never invents a seam: either `next` (trimmed)
/// replaces the preview, or the preview's words are followed by every word of
/// `next` except its first `k`, and those `k` words repeat, ignoring ASCII
/// case, the last `k` words of `previous`. When such a repetition exists (of
/// up to twelve words) it is taken, and no shorter one than it.
pub proof fn law_dedupe_only_drops_repeated_words(previous: Seq<char>, next: Seq<char>)
    ensures
        ({
            let pw = words(previous);
            let nw = words(next);
            ||| dedupe_spec(previous, next) == trim(next)
            ||| exists|k: int| #[trigger] seam_repeats(pw, nw, k) && dedupe_spec(previous, next) == join_spaces(pw + nw.skip(k))
        }),
        ({
            let pw = words(previous);
            let nw = words(next);
            forall|k: int| #[trigger] seam_repeats(pw, nw, k) && k <= 12 ==> exists|k0: int| k <= k0 && #[trigger] seam_repeats(pw, nw, k0)
                && dedupe_spec(previous, next) == join_spaces(pw + nw.skip(k0))
        }),
{
    let pw = words(previous);
    let nw = words(next);
    if pw.len() > 0 && nw.len() > 0 {
        let m = max_overlap(pw.len() as int, nw.len() as int);
        lemma_best_overlap(pw, nw, m);
        match best_overlap(pw, nw, m) {
            Some(k0) => {
                assert(seam_repeats(pw, nw, k0));
                assert forall|k: int| #[trigger] seam_repeats(pw, nw, k) && k <= 12 implies exists|k1: int| k <= k1
                    && #[trigger] seam_repeats(pw, nw, k1) && dedupe_spec(previous, next) == join_spaces(pw + nw.skip(k1)) by {
                    assert(1 <= k <= m);
                    assert(seam_repeats(pw, nw, k0));
                }
            },
            None => {
                assert forall|k: int| #[trigger] seam_repeats(pw, nw, k) && k <= 12 implies exists|k1: int| k <= k1
                    && #[trigger] seam_repeats(pw, nw, k1) && dedupe_spec(previous, next) == join_spaces(pw + nw.skip(k1)) by {
                    assert(1 <= k <= m);
                }
            },
        }
    }
}

/// The preview text shown after the stable and unstable parts.
pub open spec fn preview_spec(committed: Seq<char>, unstable: Seq<char>) -> Seq<char> {
    if committed.len() == 0 {
        trim(unstable)
    } else if unstable.len() == 0 {
        trim(committed)
    } else {
        trim(committed + seq![' '] + unstable)
    }
}

fn lower_words(ws: &Vec<Vec<char>>) -> (r: Vec<Vec<char>>)
    ensures
        r@.len() == ws@.len(),
        forall|i: int| 0 <= i < r@.len() ==> (#[trigger] r@[i])@ == lower(ws@[i]@),
{
    let mut r: Vec<Vec<char>> = Vec::new();
    for i in 0..ws.len()
        invariant
            r@.len() == i,
            forall|k: int| 0 <= k < r@.len() ==> (#[trigger] r@[k])@ == lower(ws@[k]@),
    {
        r.push(to_ascii_lower(&ws[i]));
    }
    r
}

fn overlap_holds(lp: &Vec<Vec<char>>, ln: &Vec<Vec<char>>, k: usize) -> (r: bool)
    requires
        k <= lp@.len(),
        k <= ln@.len(),
    ensures
        r == forall|j: int| 0 <= j < k ==> (#[trigger] lp@[lp@.len() - k + j])@ == ln@[j]@,
{
    let base = lp.len() - k;
    for j in 0..k
        invariant
            base == lp@.len() - k,
            base + k == lp.len(),
            k <= lp@.len(),
            k <= ln@.len(),
            forall|m: int| 0 <= m < j ==> (#[trigger] lp@[lp@.len() - k + m])@ == ln@[m]@,
    {
        if !crate::text::chars_eq(&lp[base + j], &ln[j]) {
            return false;
        }
    }
    true
}

/// Merges the newest partial transcript into the previous one, dropping the
/// words that both share at the seam.
pub fn dedupe_preview(previous: &str, next: &str) -> (r: String)
    ensures
        r@ == dedupe_spec(previous@, next@),
{
    let pv = chars_of(previous);
    let nv = chars_of(next);
    let pws = split_words(&pv);
    let nws = split_words(&nv);
    let ghost pw = words(previous@);
    let ghost nw = words(next@);
    if pws.len() == 0 || nws.len() == 0 {
        let t = trim_chars(&nv);
        return string_from_chars(&t);
    }
    let lp = lower_words(&pws);
    let ln = lower_words(&nws);
    let mut m = if pws.len() < nws.len() { pws.len() } else { nws.len() };
    if m > 12 {
        m = 12;
    }
    let mut k = m;
    assert(k == max_overlap(pw.len() as int, nw.len() as int));
    while k > 0
        invariant
            k <= pws@.len(),
            k <= nws@.len(),
            pws@.len() == pw.len(),
            nws@.len() == nw.len(),
            lp@.len() == pw.len(),
            ln@.len() == nw.len(),
            forall|i: int| 0 <= i < pw.len() ==> (#[trigger] lp@[i])@ == lower(pw[i]),
            forall|i: int| 0 <= i < nw.len() ==> (#[trigger] ln@[i])@ == lower(nw[i]),
            forall|i: int| 0 <= i < pw.len() ==> (#[trigger] pws@[i])@ == pw[i],
            forall|i: int| 0 <= i < nw.len() ==> (#[trigger] nws@[i])@ == nw[i],
            best_overlap(pw, nw, k as int) == best_overlap(pw, nw, max_overlap(pw.len() as int, nw.len() as int)),
            pw == words(previous@),
            nw == words(next@),
        decreases k,
    {
        let holds = overlap_holds(&lp, &ln, k);
        assert(holds == overlaps(pw, nw, k as int)) by {
            if holds {
                assert forall|j: int| 0 <= j < k implies lower(#[trigger] pw[pw.len() - k + j]) == lower(nw[j]) by {
                    assert(lp@[lp@.len() - k + j]@ == ln@[j]@);
                }
            } else {
                let j = choose|j: int| 0 <= j < k && !((#[trigger] lp@[lp@.len() - k + j])@ == ln@[j]@);
                assert(lower(pw[pw.len() - k + j]) != lower(nw[j]));
            }
        }
        if holds {
            let mut combined: Vec<Vec<char>> = Vec::new();
            for i in 0..pws.len()
                invariant
                    combined@.len() == i,
                    pws@.len() == pw.len(),
                    forall|q: int| 0 <= q < i ==> (#[trigger] combined@[q])@ == pw[q],
                    forall|q: int| 0 <= q < pw.len() ==> (#[trigger] pws@[q])@ == pw[q],
            {
                combined.push(copy_all(&pws[i]));
            }
            let mut i = k;
            while i < nws.len()
                invariant
                    k <= i <= nws@.len(),
                    nws@.len() == nw.len(),
                    combined@.len() == pw.len() + (i - k),
                    forall|q: int| 0 <= q < pw.len() ==> (#[trigger] combined@[q])@ == pw[q],
                    forall|q: int| pw.len() <= q < combined@.len() ==> (#[trigger] combined@[q])@ == nw[q - pw.len() + k],
                    forall|q: int| 0 <= q < nw.len() ==> (#[trigger] nws@[q])@ == nw[q],
                decreases nws@.len() - i,
            {
                combined.push(copy_all(&nws[i]));
                i += 1;
            }
            let joined = join_words(&combined, 0, combined.len());
            assert(combined@.subrange(0, combined@.len() as int).map_values(|w: Vec<char>| w@) == pw + nw.skip(k as int));
            return string_from_chars(&joined);
        }
        k -= 1;
    }
    let t = trim_chars(&nv);
    string_from_chars(&t)
}

impl StreamingSession {
    /// A fresh session: no text, nothing processed, not cancelled.
    pub fn new(session_id: uuid::Uuid) -> (r: Self)
        ensures
            r.session_id == session_id,
            r.committed_text@ == Seq::<char>::empty(),
            r.unstable_text@ == Seq::<char>::empty(),
            r.processed_samples == 0,
            !r.is_cancelled,
    {
        StreamingSession {
            session_id,
            committed_text: String::new(),
            unstable_text: String::new(),
            processed_samples: 0,
            is_cancelled: false,
        }
    }

    /// The next chunk of `audio` to preview: from shortly before the processed
    /// position (bounded by the quality's window) to the end of the buffer. A
    /// returned chunk marks all current frames processed.
    pub fn next_chunk<S: Copy>(&mut self, audio: &AudioBuffer<S>, quality: StreamingQuality) -> (r: Option<AudioBuffer<S>>)
        ensures
            match next_chunk_spec(
                old(self).is_cancelled,
                old(self).processed_samples as int,
                audio.sample_rate,
                audio.channels,
                audio.samples@.len() as int,
                quality,
            ) {
                None => r is None && *final(self) == *old(self),
                Some((start, end)) => r matches Some(chunk) && {
                    &&& chunk.sample_rate == audio.sample_rate
                    &&& chunk.channels == audio.channels
                    &&& chunk.samples@ == audio.samples@.subrange(start, end)
                    &&& final(self).processed_samples == audio.samples@.len() as int / audio.channels as int
                    &&& final(self).session_id == old(self).session_id
                    &&& final(self).committed_text == old(self).committed_text
                    &&& final(self).unstable_text == old(self).unstable_text
                    &&& final(self).is_cancelled == old(self).is_cancelled
                },
            },
    {
        if self.is_cancelled || audio.channels == 0 || audio.samples.len() == 0 {
            return None;
        }
        let channels = audio.channels as usize;
        let frames = audio.samples.len() / channels;
        if frames <= self.processed_samples {
            return None;
        }
        let min_step = samples_for_ms(audio.sample_rate, 500);
        if frames - self.processed_samples < min_step {
            return None;
        }
        let overlap = samples_for_ms(audio.sample_rate, overlap_ms_of(quality));
        let max_window = samples_for_ms(audio.sample_rate, window_ms_of(quality));
        let back = self.processed_samples.saturating_sub(overlap);
        let last = frames.saturating_sub(1);
        let start_frame = if back < last { back } else { last };
        let window_start = frames.saturating_sub(max_window);
        let bounded_start = if window_start > start_frame { window_start } else { start_frame };
        let len = audio.samples.len();
        assert(frames * channels <= len) by (nonlinear_arith)
            requires
                frames == len / channels,
                channels > 0,
        ;
        assert(bounded_start * channels <= frames * channels) by (nonlinear_arith)
            requires
                bounded_start <= frames,
        ;
        let start = bounded_start * channels;
        let end = frames * channels;
        self.processed_samples = frames;
        Some(AudioBuffer {
            sample_rate: audio.sample_rate,
            channels: audio.channels,
            samples: copy_range(&audio.samples, start, end),
        })
    }

    /// Merges a new partial transcript into the unstable text and returns the
    /// preview: committed and unstable text joined by a space, trimmed.
    pub fn update_preview(&mut self, next_text: &str) -> (r: String)
        ensures
            final(self).unstable_text@ == dedupe_spec(old(self).unstable_text@, next_text@),
            final(self).committed_text == old(self).committed_text,
            final(self).processed_samples == old(self).processed_samples,
            final(self).is_cancelled == old(self).is_cancelled,
            final(self).session_id == old(self).session_id,
            r@ == preview_spec(old(self).committed_text@, final(self).unstable_text@),
    {
        self.unstable_text = dedupe_preview(self.unstable_text.as_str(), next_text);
        let committed = chars_of(self.committed_text.as_str());
        let unstable = chars_of(self.unstable_text.as_str());
        let preview = if committed.len() == 0 {
            unstable
        } else if unstable.len() == 0 {
            committed
        } else {
            let mut p = committed;
            p.push(' ');
            append_chars(&mut p, &unstable);
            p
        };
        assert(preview@ == (if committed@.len() == 0 {
            unstable@
        } else if unstable@.len() == 0 {
            committed@
        } else {
            committed@ + seq![' '] + unstable@
        }));
        let t = trim_chars(&preview);
        string_from_chars(&t)
    }

    /// Stops chunk generation for this session.
    pub fn cancel(&mut self)
        ensures
            final(self).is_cancelled,
            final(self).session_id == old(self).session_id,
            final(self).committed_text == old(self).committed_text,
            final(self).unstable_text == old(self).unstable_text,
            final(self).processed_samples == old(self).processed_samples,
    {
        self.is_cancelled = true;
    }
}

/// A cancelled session yields no further chunks and keeps its position.
pub proof fn law_cancelled_session_yields_nothing(
    processed: int,
    sample_rate: u32,
    channels: u16,
    len: int,
    quality: StreamingQuality,
)
    ensures
        next_chunk_spec(true, processed, sample_rate, channels, len, quality) is None,
{
}

/// A chunk ends at the end of the buffer, starts before it, and spans at most
/// the quality's window of frames.
pub proof fn law_chunk_bounds(
    cancelled: bool,
    processed: int,
    sample_rate: u32,
    channels: u16,
    len: int,
    quality: StreamingQuality,
)
    requires
        0 <= processed,
        0 <= len,
        next_chunk_spec(cancelled, processed, sample_rate, channels, len, quality) is Some,
        samples_for_ms_spec(sample_rate, window_ms_spec(quality)) > 0,
    ensures
        ({
            let (start, end) = next_chunk_spec(cancelled, processed, sample_rate, channels, len, quality)->0;
            let frames = len / (channels as int);
            let window = samples_for_ms_spec(sample_rate, window_ms_spec(quality)) as int;
            &&& 0 <= start < end <= len
            &&& end == frames * channels
            &&& end - start <= window * channels
        }),
{
    let frames = len / (channels as int);
    let ch = channels as int;
    let window = samples_for_ms_spec(sample_rate, window_ms_spec(quality)) as int;
    let overlap = samples_for_ms_spec(sample_rate, overlap_ms_spec(quality)) as int;
    let s = chunk_start(frames, processed, overlap, window);
    assert(0 <= s < frames);
    assert(frames * ch <= len) by (nonlinear_arith)
        requires
            frames == len / ch,
            ch > 0,
            len >= 0,
    ;
    assert(s * ch < frames * ch) by (nonlinear_arith)
        requires
            0 <= s < frames,
            ch > 0,
    ;
    assert(0 <= s * ch) by (nonlinear_arith)
        requires
            0 <= s,
            ch > 0,
    ;
    let w = window;
    assert(frames - s <= w);
    assert(frames * ch - s * ch <= w * ch) by (nonlinear_arith)
        requires
            frames - s <= w,
            ch > 0,
    ;
}

} // verus!
