# typeless

The verified core of a push-to-talk voice-input assistant (hold a hotkey,
speak, and the transcript is pasted into the focused application).

- `src/` is the library, written in Verus and proved:
  - `config` — settings and their defaults;
  - `dictionary` — vocabulary hints (built-in and user words, ranked by how
    often they were dictated) and the bounded history of transcriptions;
  - `vocab` — the built-in technical vocabulary;
  - `hotkey` — hotkey names, key events and the listener flag;
  - `injection` — the paste shortcut and clipboard restoration;
  - `llm` — when and how to ask an LLM to correct a transcript, and how to
    read its answer;
  - `recognition` — provider selection, the mock provider and its streaming
    transcript, and reading the HTTP and WebSocket services' replies;
  - `json` — reading service replies as JSON, the model they are read into,
    and HTTP success statuses;
  - `languages` — the display languages offered;
  - `text` — character-level string helpers.
- `app/` is the desktop program around it: audio capture and WAV encoding,
  network calls, the keyboard hook, the clipboard, settings and history files,
  and the user-interface commands.
- `tests/` runs the library on concrete inputs.
