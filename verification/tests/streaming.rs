use uuid::Uuid;
use voxta::audio::AudioBuffer;
use voxta::config::StreamingQuality;
use voxta::streaming::{dedupe_preview, samples_for_ms, StreamingQualityExt, StreamingSession};

#[test]
fn removes_duplicate_overlap_words() {
    assert_eq!(
        dedupe_preview("hello from the current", "the current preview"),
        "hello from the current preview"
    );
}

#[test]
fn keeps_latest_text_when_no_overlap_exists() {
    assert_eq!(dedupe_preview("old words", "new words"), "new words");
}

#[test]
fn builds_overlapping_audio_chunks() {
    let mut session = StreamingSession::new(Uuid::nil());
    let audio = AudioBuffer {
        sample_rate: 16_000,
        channels: 1,
        samples: vec![0.01f32; samples_for_ms(16_000, 1_100)],
    };
    let first = session.next_chunk(&audio, StreamingQuality::Balanced).unwrap();
    assert_eq!(first.samples.len(), audio.samples.len());

    let audio = AudioBuffer {
        sample_rate: 16_000,
        channels: 1,
        samples: vec![0.01f32; samples_for_ms(16_000, 1_700)],
    };
    let second = session.next_chunk(&audio, StreamingQuality::Balanced).unwrap();
    assert!(second.samples.len() > samples_for_ms(16_000, 500));
}

#[test]
fn cancellation_stops_chunk_generation() {
    let mut session = StreamingSession::new(Uuid::nil());
    session.cancel();
    let audio = AudioBuffer {
        sample_rate: 16_000,
        channels: 1,
        samples: vec![0.01f32; samples_for_ms(16_000, 1_000)],
    };
    assert!(session.next_chunk(&audio, StreamingQuality::Fast).is_none());
}

// Further cases.

#[test]
fn samples_for_ms_values() {
    assert_eq!(samples_for_ms(16_000, 500), 8_000);
    assert_eq!(samples_for_ms(0, 1_000), 16_000);
    assert_eq!(samples_for_ms(44_100, 350), 15_435);
    assert_eq!(StreamingQuality::Accurate.window_ms(), 6_000);
    assert_eq!(StreamingQuality::Fast.overlap_ms(), 200);
}

#[test]
fn chunk_requires_half_a_second_of_new_audio() {
    let mut session = StreamingSession::new(Uuid::nil());
    let short = AudioBuffer { sample_rate: 16_000, channels: 1, samples: vec![0u8; 7_999] };
    assert!(session.next_chunk(&short, StreamingQuality::Fast).is_none());
    assert_eq!(session.processed_samples, 0);
    let enough = AudioBuffer { sample_rate: 16_000, channels: 1, samples: vec![0u8; 8_000] };
    let chunk = session.next_chunk(&enough, StreamingQuality::Fast).unwrap();
    assert_eq!(chunk.samples.len(), 8_000);
    assert_eq!(session.processed_samples, 8_000);
}

#[test]
fn chunk_is_bounded_by_window_and_overlaps() {
    let mut session = StreamingSession::new(Uuid::nil());
    let samples: Vec<u32> = (0..2 * 100_000).collect();
    // stereo at 16 kHz: 100_000 frames, fast window 2.5 s = 40_000 frames.
    let audio = AudioBuffer { sample_rate: 16_000, channels: 2, samples };
    let chunk = session.next_chunk(&audio, StreamingQuality::Fast).unwrap();
    assert_eq!(chunk.samples.len(), 2 * 40_000);
    assert_eq!(chunk.samples[0], 2 * 60_000);
    let more: Vec<u32> = (0..2 * 110_000).collect();
    let audio = AudioBuffer { sample_rate: 16_000, channels: 2, samples: more };
    let chunk = session.next_chunk(&audio, StreamingQuality::Fast).unwrap();
    // starts 200 ms (3_200 frames) before the processed position.
    assert_eq!(chunk.samples[0], 2 * (100_000 - 3_200));
    assert_eq!(chunk.samples.len(), 2 * (110_000 - 96_800));
}

#[test]
fn dedupe_is_case_insensitive_and_handles_empty() {
    assert_eq!(dedupe_preview("Hello World", "world again"), "Hello World again");
    assert_eq!(dedupe_preview("", "  fresh text "), "fresh text");
    assert_eq!(dedupe_preview("kept", "   "), "");
}

#[test]
fn update_preview_joins_committed_and_unstable() {
    let mut session = StreamingSession::new(Uuid::nil());
    assert_eq!(session.update_preview("one two"), "one two");
    assert_eq!(session.update_preview("two three"), "one two three");
    session.committed_text = "Before.".to_string();
    assert_eq!(session.update_preview("three four"), "Before. one two three four");
}
