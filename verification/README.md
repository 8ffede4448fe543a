# Zecho

Zecho turns speech into text on the desktop: it records, transcribes, has a local
language model clean the transcription up, and pastes the result.

- `src/` is the library: prompts and the reading of responses, the line protocol of
  the inference worker, token-by-token generation, hotkeys, settings, setup, updates,
  window placement and the tray. Its contracts are verified by Verus.
- `tests/` runs the library on concrete values.
- `app/` is the application around it: files, processes, threads and windows. The
  parts that need macOS (`macos.rs`, `llama.rs`) are compiled there only.
