//! End-to-end behaviour of the application logic using fakes only: no
//! microphone, no network, no display. The loop below plays the part of the
//! program's event loop: it feeds follow-up events back in order, runs the
//! transcription jobs against a fake provider, and fires the error timer
//! when asked to.

use std::collections::VecDeque;
use std::sync::atomic::{AtomicUsize, Ordering};
use std::sync::{Arc, Mutex};
use std::time::{Duration, Instant};

use voice_input::app::controller::{
    event_after_insert, event_after_start, event_after_stop, event_after_transcription,
    Controller, Dependencies, Job,
};
use voice_input::app::state::{Event, Failure, Stage, State};
use voice_input::audio::audio_data::AudioData;
use voice_input::audio::AudioError;
use voice_input::doubles::{
    FakeAudioRecorder, FakeHotkeyProvider, FakeOverlay, FakeTextInjector,
    FakeTranscriptionProvider,
};
use voice_input::hotkey::{Debouncer, Hotkey, HotkeyProvider, ToggleHandler};
use voice_input::input::InputError;
use voice_input::transcription::TranscriptionError;

const ERROR_DISPLAY: Duration = Duration::from_secs(3);

struct World {
    controller: Controller<FakeAudioRecorder, FakeTextInjector, FakeOverlay>,
    provider: FakeTranscriptionProvider,
    inbox: VecDeque<Event>,
    timers: usize,
}

impl World {
    fn new() -> Self {
        Self::build(
            FakeAudioRecorder::new(),
            FakeTranscriptionProvider::returning("hello world"),
            FakeTextInjector::new(),
        )
    }

    fn build(
        recorder: FakeAudioRecorder,
        provider: FakeTranscriptionProvider,
        injector: FakeTextInjector,
    ) -> Self {
        let controller = Controller::new(Dependencies {
            recorder,
            injector,
            overlay: FakeOverlay::new(),
            error_display: ERROR_DISPLAY,
        });
        Self {
            controller,
            provider,
            inbox: VecDeque::new(),
            timers: 0,
        }
    }

    fn press_hotkey(&mut self) {
        self.inbox.push_back(Event::HotkeyToggled);
    }

    /// Handles queued events until nothing is left to do.
    fn settle(&mut self) {
        loop {
            while let Some(event) = self.inbox.pop_front() {
                self.controller.dispatch(event);
                self.inbox.extend(self.controller.take_follow_ups());
            }
            let jobs = self.controller.take_jobs();
            if jobs.is_empty() {
                return;
            }
            for job in jobs {
                match job {
                    Job::Transcribe(audio) => {
                        let result = self.provider.transcribe(audio);
                        self.inbox.push_back(event_after_transcription(result));
                    }
                    Job::ScheduleIdleReset => self.timers += 1,
                }
            }
        }
    }

    /// Lets the error display time pass.
    fn advance_past_error_display(&mut self) {
        for _ in 0..self.timers {
            self.inbox.push_back(Event::IdleResetElapsed);
        }
        self.timers = 0;
        self.settle();
    }

    fn dictate(&mut self) {
        self.press_hotkey();
        self.settle();
        self.press_hotkey();
        self.settle();
    }

    fn state(&self) -> State {
        self.controller.state()
    }
}

#[test]
fn idle_plus_hotkey_starts_recording() {
    let mut w = World::new();

    w.press_hotkey();
    w.settle();

    assert!(w.state() == State::Recording);
}

#[test]
fn full_cycle_ends_in_idle_after_inserting() {
    let mut w = World::new();

    w.dictate();

    assert!(w.state() == State::Idle);
    assert!(w.controller.overlay().rendered() == vec![
            State::Recording,
            State::Transcribing,
            State::Inserting,
            State::Idle
        ]);
}

#[test]
fn api_error_shows_error_then_returns_to_idle() {
    let mut w = World::build(
        FakeAudioRecorder::new(),
        FakeTranscriptionProvider::failing(TranscriptionError::Timeout),
        FakeTextInjector::new(),
    );

    w.dictate();
    assert!(w.state() == State::Error);
    assert!(w.controller.overlay().last() == Some(State::Error));
    assert!(w.controller.error_display() == ERROR_DISPLAY);

    w.advance_past_error_display();

    assert!(w.state() == State::Idle);
    assert!(w.controller.injector().inserted().is_empty());
}

#[test]
fn microphone_is_only_active_while_recording() {
    let mut w = World::new();
    assert!(!w.controller.recorder().is_recording(), "idle: mic must be off");

    w.press_hotkey();
    w.settle();
    assert!(w.controller.recorder().is_recording(), "recording: mic must be on");

    w.press_hotkey();
    w.settle();
    assert!(!w.controller.recorder().is_recording(), "after stop: mic must be off");
    assert!(w.controller.recorder().start_count() == 1);
    assert!(w.controller.recorder().stop_count() == 1);
}

#[test]
fn stopping_the_recorder_produces_audio_for_the_provider() {
    let audio = AudioData::new(16_000, vec![7; 8_000]);
    let mut w = World::build(
        FakeAudioRecorder::new().with_audio(audio.clone()),
        FakeTranscriptionProvider::returning("x"),
        FakeTextInjector::new(),
    );

    w.dictate();

    assert!(w.provider.received() == vec![audio]);
}

#[test]
fn missing_microphone_is_an_error_not_a_crash() {
    let mut w = World::build(
        FakeAudioRecorder::new().failing_to_start(AudioError::NoDevice),
        FakeTranscriptionProvider::returning("x"),
        FakeTextInjector::new(),
    );

    w.press_hotkey();
    w.settle();

    assert!(w.state() == State::Error);
    assert!(w.provider.received().is_empty());
}

#[test]
fn empty_recording_is_an_error_and_never_hits_the_api() {
    let mut w = World::build(
        FakeAudioRecorder::new().with_audio(AudioData::new(16_000, vec![])),
        FakeTranscriptionProvider::returning("x"),
        FakeTextInjector::new(),
    );

    w.dictate();

    assert!(w.state() == State::Error);
    assert!(w.provider.received().is_empty());
}

#[test]
fn provider_result_is_inserted_exactly_once() {
    let mut w = World::new();

    w.dictate();

    assert!(w.controller.injector().inserted() == vec!["hello world".to_string()]);
}

#[test]
fn empty_transcription_inserts_nothing() {
    let mut w = World::build(
        FakeAudioRecorder::new(),
        FakeTranscriptionProvider::returning("   "),
        FakeTextInjector::new(),
    );

    w.dictate();

    assert!(w.controller.injector().inserted().is_empty());
    assert!(w.state() == State::Idle);
}

#[test]
fn injection_failure_becomes_error_state() {
    let mut w = World::build(
        FakeAudioRecorder::new(),
        FakeTranscriptionProvider::returning("x"),
        FakeTextInjector::failing(InputError::Failed("no focus".into())),
    );

    w.dictate();

    assert!(w.state() == State::Error);
}

#[test]
fn hotkey_events_while_transcribing_do_not_start_a_second_recording() {
    let mut w = World::new();

    w.press_hotkey();
    w.press_hotkey();
    w.press_hotkey(); // arrives while transcription is in flight
    w.press_hotkey();
    w.settle();

    assert!(w.controller.recorder().start_count() == 1);
    assert!(w.controller.injector().inserted().len() == 1);
    assert!(w.state() == State::Idle);
}

#[test]
fn a_failing_stop_is_a_recording_error() {
    let mut w = World::build(
        FakeAudioRecorder::new().failing_to_stop(AudioError::Device("gone".into())),
        FakeTranscriptionProvider::returning("x"),
        FakeTextInjector::new(),
    );
    w.dictate();
    assert!(w.state() == State::Error);
    assert!(!w.controller.recorder().is_recording());
    assert!(w.provider.received().is_empty());
}

#[test]
fn outcome_events_carry_stage_and_message() {
    assert!(event_after_start(Ok(())) == None);
    assert!(event_after_start(Err(AudioError::PermissionDenied)) == Some(Event::Failed(Failure::new(
            Stage::Recording,
            "microphone permission denied".into()
        ))));
    assert!(event_after_stop(Ok(AudioData::new(16_000, vec![]))) == Event::Failed(Failure::new(Stage::Recording, "no audio captured".into())));
    let audio = AudioData::new(16_000, vec![1]);
    assert!(event_after_stop(Ok(audio.clone())) == Event::RecordingFinished(audio));
    assert!(event_after_stop(Err(AudioError::NotRecording)) == Event::Failed(Failure::new(Stage::Recording, "recorder is not recording".into())));
    assert!(event_after_insert(Ok(())) == Event::InsertionSucceeded);
    assert!(event_after_insert(Err(InputError::Unsupported("wayland".into()))) == Event::Failed(Failure::new(
            Stage::Insertion,
            "text injection is not supported on this display server: wayland".into()
        )));
    assert!(event_after_transcription(Ok("hi".into())) == Event::TranscriptionSucceeded("hi".into()));
    assert!(event_after_transcription(Err(TranscriptionError::RateLimited)) == Event::Failed(Failure::new(
            Stage::Transcription,
            "API rate limit or quota exceeded".into()
        )));
}

/// The hotkey as the program wires it: each press goes through the
/// debouncer at the injected clock's instant, and accepted presses are
/// counted for the event loop to deliver.
struct DebouncedPresses {
    debouncer: Mutex<Debouncer>,
    clock: Arc<Mutex<Instant>>,
    accepted: Arc<AtomicUsize>,
}

impl ToggleHandler for DebouncedPresses {
    fn toggled(&self) {
        if self.debouncer.lock().unwrap().accept(*self.clock.lock().unwrap()) {
            self.accepted.fetch_add(1, Ordering::SeqCst);
        }
    }
}

/// A fake hotkey wired to the debouncer, with its clock and the count of
/// accepted presses.
fn debounced_hotkey() -> (FakeHotkeyProvider, Arc<Mutex<Instant>>, Arc<AtomicUsize>) {
    let clock = Arc::new(Mutex::new(Instant::now()));
    let accepted = Arc::new(AtomicUsize::new(0));
    let mut provider = FakeHotkeyProvider::new();
    provider
        .register(
            &Hotkey::default_toggle(),
            Box::new(DebouncedPresses {
                debouncer: Mutex::new(Debouncer::new(Duration::from_millis(250))),
                clock: Arc::clone(&clock),
                accepted: Arc::clone(&accepted),
            }),
        )
        .unwrap();
    (provider, clock, accepted)
}

impl World {
    /// Delivers the accepted presses as hotkey events.
    fn deliver(&mut self, accepted: &AtomicUsize) {
        for _ in 0..accepted.swap(0, Ordering::SeqCst) {
            self.press_hotkey();
        }
        self.settle();
    }
}

#[test]
fn a_burst_of_hotkey_events_starts_recording_exactly_once() {
    let mut w = World::new();
    let (provider, clock, accepted) = debounced_hotkey();

    // Key auto-repeat delivers three presses within 30 ms.
    for _ in 0..3 {
        assert!(provider.press());
        *clock.lock().unwrap() += Duration::from_millis(10);
    }
    w.deliver(&accepted);

    assert!(w.state() == State::Recording);
    assert!(w.controller.recorder().start_count() == 1);
    assert!(w.controller.recorder().stop_count() == 0, "the repeat must not stop the recording");
}

#[test]
fn a_deliberate_second_press_after_the_window_stops_recording() {
    let mut w = World::new();
    let (provider, clock, accepted) = debounced_hotkey();

    provider.press();
    *clock.lock().unwrap() += Duration::from_secs(2);
    provider.press();
    w.deliver(&accepted);

    assert!(w.controller.recorder().start_count() == 1);
    assert!(w.controller.recorder().stop_count() == 1);
}
