# voice_input

A lightweight background voice-input tool: press Ctrl+Space, speak, press
Ctrl+Space again, and the transcribed text is typed into the focused
application.

## Layout

- `src/` is the verified library (Verus):
  - `app/state.rs`: the application state machine, its transition function
    `step` and the laws it keeps (every state change is rendered, the
    recorder starts only from Idle, hotkeys are ignored while busy, errors
    are shown then cleared, the overlay mirrors the state over any run, the
    microphone runs only while recording).
  - `app/controller.rs`: executes the machine's effects through the
    recorder, injector and overlay traits, each effect once and in order,
    with every follow-up event the one its call's answer calls for (each
    trait states, as a spec relation, what one call may do);
    transcriptions and the error timer become jobs for the event loop.
  - `hotkey/`: hotkey parsing and display (with the proof that parsing reads
    back what display writes), the portal trigger format, the debouncer,
    and the shortcut registered through the `global-hotkey` crate.
  - `config/`: configuration sections, what the configured values mean at
    startup, and API-key resolution (credential store, then environment,
    then config file).
  - `platform/`: display-server detection and the choice of adapters.
  - `transcription/`: the OpenAI request fields, endpoint, upload body and
    response mapping, how a failed HTTP exchange is reported; the
    vendor-neutral error type.
  - `audio/`, `input/`, `ui/`: audio data and its WAV form, text-injection
    steps and key sequences, the overlay's state view.
  - `clock.rs`, `text.rs`: the std time and string operations the rest
    relies on.
  - `doubles.rs`: fakes for every boundary trait.
- `tests/` runs the library on concrete inputs, including whole dictation
  cycles with the fakes.
- `app/` is the program: the tokio event loop, the cpal recorder, the
  eframe overlay, the hotkey and text-injection adapters, config file and
  keyring access, and the HTTP call.
