# Dikt

Speech-to-text dictation for Linux desktops: a background process records the microphone, a speech
model turns the recording into text, and an input engine types it into the focused application.

The logic is a library written in Verus, in `src/`: its functions carry contracts that Verus proves,
and what holds across functions is stated as public proof functions whose names begin with `law_`.
`app/` is the ordinary Rust around it: the session bus, the keyboards, the microphone, the models on
disk, the network and the preferences window. `tests/` holds the library's tests.

| Module | What it decides |
| --- | --- |
| `dbus` | recording sessions, their claims, the texts that wait for them, the live preview |
| `ibus_engine` | what the input engine shows and commits, and how it asks the service |
| `ibus_control` | switching the input method's current engine |
| `global_shortcuts`, `key_mapping` | the dictation shortcut, from key events to recordings |
| `managers` | models and their downloads, the microphone, transcription, the history |
| `audio_toolkit` | what the recorder keeps and hands out |
| `llm_client`, `actions` | post-processing by a language model |
| `settings`, `ui`, `app`, `utils` | stored settings, the window's pages, logging |
| `handy` | the push-to-talk service |
| `json`, `text`, `text_utils`, `clock`, `counter`, `maps` | what the others share |

The offered models are Whisper Small, Medium, Turbo and Large, Parakeet V3 and SenseVoice. All but
Whisper Large can be downloaded from the preferences; its file, `ggml-large-v3.bin`, is put into the
models' directory by hand.

A function whose contract is believed rather than proved is marked `external_body` or
`assume_specification`; its comment names the outside function and says what is claimed of it.
