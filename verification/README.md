# spkr

A push-to-talk dictation tool: a global shortcut opens the microphone, the
recording is transcribed (by a local whisper model or by the Groq service) and
the text is typed into the focused window.

- `src/` is the verified library (Verus): the recording state machine
  (`state`), the shortcut plan and shortcut decisions (`hotkeys`), the settings
  model (`settings`), the model catalogue (`models`), microphone choice and the
  handling of a stopped capture (`audio`), the WAV encoder (`wav`) and the
  transcription protocol (`transcription`), with their laws as proof functions.
- `tests/` exercises the library on concrete values.
- `app/` is the desktop shell: the Tauri commands, the tray, shortcut
  registration, audio capture, model downloads, whisper inference, HTTP calls
  and keyboard injection, all driven by the library's decisions.
