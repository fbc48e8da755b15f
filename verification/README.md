# dikta

The logic of Dikta, a push-to-talk dictation app, as a verified library.

- `src/` — the library, verified with Verus:
  - `text` — Unicode white space, trimming, word counts, prefixes/suffixes, decimal parsing;
  - `models` — the built-in model catalog, custom Hugging Face models, lookup,
    required files, download plans, repository file selection;
  - `asr` — which engine and files each model loads; whisper.cpp segment joining;
  - `settings` — defaults and reading stored settings; the sensitivity label;
  - `vad` — the silence hangover of auto-stop;
  - `state`, `hotkeys` — the recording session and shortcut decisions;
  - `paste` — when text is typed in and what the outcome is;
  - `db` — word counts, search patterns and time windows of the history;
  - `tray` — the tray menu's model groups and item actions.
- `tests/` — tests of the library.
- `app/` — the Tauri application around it: audio capture, recognition
  engines, SQLite storage, downloads, global shortcuts, clipboard and windows.
