# unmute

The decision logic of a local push-to-talk dictation tool for Windows, as a
Verus-verified library: hotkey recognition, the recording session, the
speech-recogniser pipeline with its GPU-to-CPU fallback, transcript clean-up
requests, the clipboard paste script, model discovery and installation
planning.

## Layout

- `src/` — the verified library.
  - `hotkey.rs`: the low-level keyboard hook as a state machine, with its laws
    (debounced toggle, hold edges).
  - `session.rs`: what each hotkey event does to the recording session.
  - `asr.rs`: the recogniser's arguments, binary and model lookup, runs and
    fallback; special-token stripping.
  - `pipeline.rs`, `processing.rs`: how a recording is processed, and the
    order of its steps as a state machine.
  - `cleanup.rs`: clean-up prompts, requests and replies; the model list.
  - `autostart.rs`: starting the clean-up server when it does not answer,
    as a state machine, with its law.
  - `paste.rs`: the PowerShell paste script and its quoting.
  - `catalog.rs`, `order.rs`: model discovery, string order and sorting.
  - `setup.rs`, `archive.rs`, `download.rs`: installation directories, the
    installation plan and its run, release archive unpacking entry by entry,
    and downloads as state machines.
  - `config.rs`, `logger.rs`, `overlay.rs`, `recording.rs`, `paths.rs`,
    `text.rs`: settings, log records, overlay scripts, recording files, paths
    and text helpers.
- `tests/` — tests of the library on concrete values.
- `app/` — the Windows application around it: the Tauri UI, microphone
  capture, the keyboard hook, processes, HTTP and files.
