# Interview Assistant

A desktop helper for technical interviews: hold the left arrow to record system
sound (loopback) or the right arrow to record the microphone; on release the whole
recording is transcribed by the VOSK recogniser and the text is sent to an AI
provider (OpenAI-compatible APIs, a local LLM server, or GigaChat).

## Layout

- `src/` — the library, verified with Verus: the settings and provider presets,
  device recognition and selection, the audio block arithmetic (down-mixing, block
  sizes), the recogniser worker's state machine, the conversation kept with the AI,
  the interface session that decides what each key press, recording, transcript and
  AI reply does, the log/history trimming, and the UI texts.
- `tests/` — tests of the library.
- `app/` — the program around it: the egui window, cpal capture, the recogniser
  library loaded at run time, HTTP requests, global hot keys, and the settings file.
