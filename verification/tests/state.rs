use voice_input::app::state::{Effect, Event, Failure, Stage, State, StateMachine};
use voice_input::audio::audio_data::AudioData;

#[test]
fn recording_plus_hotkey_transitions_to_transcribing_and_stops_recorder() {
    // Arrange
    let mut sm = StateMachine::new();
    sm.handle(Event::HotkeyToggled);

    // Act
    let effects = sm.handle(Event::HotkeyToggled);

    // Assert
    assert!(sm.state() == State::Transcribing);
    assert!(effects == vec![Effect::StopRecording, Effect::Render(State::Transcribing)]);
}

#[test]
fn finished_recording_is_sent_to_transcription() {
    // Arrange
    let mut sm = StateMachine::new();
    sm.handle(Event::HotkeyToggled);
    sm.handle(Event::HotkeyToggled);
    let audio = AudioData::new(16_000, vec![1, 2, 3]);

    // Act
    let effects = sm.handle(Event::RecordingFinished(audio.clone()));

    // Assert
    assert!(sm.state() == State::Transcribing);
    assert!(effects == vec![Effect::Transcribe(audio)]);
}

#[test]
fn idle_plus_hotkey_transitions_to_recording() {
    // Arrange
    let mut sm = StateMachine::new();

    // Act
    let effects = sm.handle(Event::HotkeyToggled);

    // Assert
    assert!(sm.state() == State::Recording);
    assert!(effects == vec![Effect::StartRecording, Effect::Render(State::Recording)]);
}

fn transcribing() -> StateMachine {
    let mut sm = StateMachine::new();
    sm.handle(Event::HotkeyToggled);
    sm.handle(Event::HotkeyToggled);
    sm
}

#[test]
fn transcribed_text_is_inserted_then_idle_after_insertion() {
    let mut sm = transcribing();

    let effects = sm.handle(Event::TranscriptionSucceeded("hello world".to_string()));
    assert!(sm.state() == State::Inserting);
    assert!(effects == vec![
            Effect::Insert("hello world".to_string()),
            Effect::Render(State::Inserting)
        ]);

    let effects = sm.handle(Event::InsertionSucceeded);
    assert!(sm.state() == State::Idle);
    assert!(effects == vec![Effect::Render(State::Idle)]);
}

#[test]
fn blank_transcription_goes_straight_back_to_idle() {
    let mut sm = transcribing();

    let effects = sm.handle(Event::TranscriptionSucceeded(" \t\n\u{3000}".to_string()));

    assert!(sm.state() == State::Idle);
    assert!(effects == vec![Effect::Render(State::Idle)]);
}

#[test]
fn a_failure_shows_the_error_and_schedules_the_reset() {
    let mut sm = transcribing();

    let effects = sm.handle(Event::Failed(Failure::new(
        Stage::Transcription,
        "request timed out".to_string(),
    )));
    assert!(sm.state() == State::Error);
    assert!(effects == vec![Effect::ScheduleIdleReset, Effect::Render(State::Error)]);

    // A second failure while the error is shown changes nothing.
    let effects = sm.handle(Event::Failed(Failure::new(Stage::Insertion, "x".to_string())));
    assert!(sm.state() == State::Error);
    assert!(effects.is_empty());

    // Hotkey presses are ignored while the error is shown.
    assert!(sm.handle(Event::HotkeyToggled).is_empty());
    assert!(sm.state() == State::Error);

    let effects = sm.handle(Event::IdleResetElapsed);
    assert!(sm.state() == State::Idle);
    assert!(effects == vec![Effect::Render(State::Idle)]);
}

#[test]
fn events_out_of_place_are_ignored() {
    let mut sm = StateMachine::new();
    assert!(sm
        .handle(Event::RecordingFinished(AudioData::new(16_000, vec![1])))
        .is_empty());
    assert!(sm.handle(Event::TranscriptionSucceeded("x".into())).is_empty());
    assert!(sm.handle(Event::InsertionSucceeded).is_empty());
    assert!(sm.handle(Event::IdleResetElapsed).is_empty());
    assert!(sm.state() == State::Idle);

    let mut sm = transcribing();
    assert!(sm.handle(Event::HotkeyToggled).is_empty());
    assert!(sm.state() == State::Transcribing);
}

#[test]
fn a_start_that_failed_while_recording_is_not_stopped_later() {
    let mut sm = StateMachine::new();
    let mut effects = sm.handle(Event::HotkeyToggled);
    effects.extend(sm.handle(Event::Failed(Failure::new(
        Stage::Recording,
        "no input device available".to_owned(),
    ))));
    effects.extend(sm.handle(Event::IdleResetElapsed));
    let starts = effects.iter().filter(|e| **e == Effect::StartRecording).count();
    let stops = effects.iter().filter(|e| **e == Effect::StopRecording).count();
    assert!(starts == 1 && stops == 0);
    assert!(sm.state() == State::Idle);
}
