# Voxta

Private voice typing: hold (or toggle) a global shortcut, speak, and the
transcript is typed into the application that had focus.

## Layout

- `src/` — the `voxta` library, verified with Verus. Public functions carry
  contracts over a mathematical model of their values (what the system
  clipboard holds is the one thing left unstated):
  - `text` — character-sequence helpers (trimming, words, whitespace) and their specs;
  - `transcription` — transcript clean-up, spoken line breaks, the assembly of
    whisper segments;
  - `voice_commands` — tokenizer, command recognition, command execution and undo history;
  - `hotkeys` — shortcut parsing and the hold/toggle key state machine. The
    keys held down are a `Vec<KeyCode>` without repeats whose view is a
    `Set<KeyCode>`: Verus specifies `HashSet` operations only for keys whose
    hashing it knows, which a derived `Hash` on `KeyCode` is not, so a
    `HashSet<KeyCode>` would carry no provable contents;
  - `state`, `runtime` — the recording life cycle and the dictation steps,
    which leave the runtime idle after every failure;
  - `streaming` — live-preview chunking and preview de-duplication;
  - `models` — the model catalogue, checksums (SHA-1/SHA-256 via `sha1`/`sha2`),
    install lookup and download progress;
  - `config`, `ai_cleanup`, `audio`, `text_injection`, `platform` — settings
    validation and loading decisions, clean-up prompts and answer checks,
    microphone selection, insertion planning and the clipboard (via `arboard`),
    and the per-platform adapters; clipboard writes are recorded as requests.
- `tests/` — tests of the library.
- `app/` — the desktop shell around the library: Tauri commands and tray,
  microphone capture, keyboard listeners, HTTP clean-up providers, file I/O and
  the floating-point audio arithmetic.
