//! The application state machine.
//!
//! This module is pure: it takes an [`Event`], changes its own [`State`],
//! and returns the list of [`Effect`]s the outside world must perform.
//! It never touches the OS, the network, or the screen.

use crate::audio::audio_data::AudioData;
use crate::text::{is_blank, str_is_blank};
use vstd::prelude::*;

verus! {

/// Observable application state (mirrored 1:1 in the overlay UI).
#[derive(Debug, Clone, Copy, PartialEq, Eq, Structural)]
pub enum State {
    Idle,
    Recording,
    Transcribing,
    Inserting,
    Error,
}

impl Default for State {
    fn default() -> (r: Self)
        ensures
            r == State::Idle,
    {
        State::Idle
    }
}

/// The part of a dictation that failed.
#[derive(Debug, Clone, Copy, PartialEq, Eq, Structural)]
pub enum Stage {
    Recording,
    Transcription,
    Insertion,
}

/// What went wrong, and where. The detail never holds the API key, the
/// audio or the transcribed text.
#[derive(Debug, Clone, PartialEq, Eq)]
pub struct Failure {
    pub stage: Stage,
    pub detail: String,
}

impl Failure {
    pub fn new(stage: Stage, detail: String) -> (r: Failure)
        ensures
            r.stage == stage,
            r.detail@ == detail@,
    {
        Failure { stage, detail }
    }
}

/// Something that happened, reported to the state machine.
#[derive(Clone, PartialEq)]
pub enum Event {
    /// The global hotkey (default Ctrl+Space) was toggled.
    HotkeyToggled,
    /// The recorder stopped and produced audio.
    RecordingFinished(AudioData),
    /// The provider returned the transcribed text.
    TranscriptionSucceeded(String),
    /// The text was typed into the focused application.
    InsertionSucceeded,
    /// A stage failed.
    Failed(Failure),
    /// The Error state has been shown long enough.
    IdleResetElapsed,
}

/// Something the state machine asks the outside world to do.
#[derive(Clone, PartialEq)]
pub enum Effect {
    StartRecording,
    /// Stop the recorder; the controller reports back with
    /// [`Event::RecordingFinished`] or [`Event::Failed`].
    StopRecording,
    /// Send audio to the transcription provider.
    Transcribe(AudioData),
    /// Type the text into the focused application.
    Insert(String),
    /// Report [`Event::IdleResetElapsed`] once the error has been shown.
    ScheduleIdleReset,
    Render(State),
}

/// The transition function: the next state and the effects, in order, for
/// one event in one state.
pub open spec fn step(state: State, event: Event) -> (State, Seq<Effect>) {
    match event {
        Event::HotkeyToggled => {
            if state == State::Idle {
                (State::Recording, seq![Effect::StartRecording, Effect::Render(State::Recording)])
            } else if state == State::Recording {
                (
                    State::Transcribing,
                    seq![Effect::StopRecording, Effect::Render(State::Transcribing)],
                )
            } else {
                (state, seq![])
            }
        },
        Event::RecordingFinished(audio) => {
            if state == State::Transcribing {
                (State::Transcribing, seq![Effect::Transcribe(audio)])
            } else {
                (state, seq![])
            }
        },
        Event::TranscriptionSucceeded(text) => {
            if state != State::Transcribing {
                (state, seq![])
            } else if is_blank(text@) {
                (State::Idle, seq![Effect::Render(State::Idle)])
            } else {
                (State::Inserting, seq![Effect::Insert(text), Effect::Render(State::Inserting)])
            }
        },
        Event::InsertionSucceeded => {
            if state == State::Inserting {
                (State::Idle, seq![Effect::Render(State::Idle)])
            } else {
                (state, seq![])
            }
        },
        Event::Failed(_) => {
            if state == State::Error {
                (state, seq![])
            } else {
                (State::Error, seq![Effect::ScheduleIdleReset, Effect::Render(State::Error)])
            }
        },
        Event::IdleResetElapsed => {
            if state == State::Error {
                (State::Idle, seq![Effect::Render(State::Idle)])
            } else {
                (state, seq![])
            }
        },
    }
}

pub struct StateMachine {
    state: State,
}

impl View for StateMachine {
    type V = State;

    closed spec fn view(&self) -> State {
        self.state
    }
}

impl Default for StateMachine {
    fn default() -> (r: Self)
        ensures
            r@ == State::Idle,
    {
        StateMachine { state: State::Idle }
    }
}

impl StateMachine {
    pub fn new() -> (r: Self)
        ensures
            r@ == State::Idle,
    {
        StateMachine { state: State::Idle }
    }

    pub fn state(&self) -> (r: State)
        ensures
            r == self@,
    {
        self.state
    }

    /// Applies one event: moves to the next state and returns the effects
    /// the outside world must perform, in order.
    pub fn handle(&mut self, event: Event) -> (effects: Vec<Effect>)
        ensures
            final(self)@ == step(old(self)@, event).0,
            effects@ == step(old(self)@, event).1,
    {
        let ghost ev = event;
        let mut effects: Vec<Effect> = Vec::new();
        match event {
            Event::HotkeyToggled => {
                if self.state == State::Idle {
                    self.state = State::Recording;
                    effects.push(Effect::StartRecording);
                    effects.push(Effect::Render(State::Recording));
                } else if self.state == State::Recording {
                    self.state = State::Transcribing;
                    effects.push(Effect::StopRecording);
                    effects.push(Effect::Render(State::Transcribing));
                }
            },
            Event::RecordingFinished(audio) => {
                if self.state == State::Transcribing {
                    effects.push(Effect::Transcribe(audio));
                }
            },
            Event::TranscriptionSucceeded(text) => {
                if self.state == State::Transcribing {
                    if str_is_blank(text.as_str()) {
                        self.state = State::Idle;
                        effects.push(Effect::Render(State::Idle));
                    } else {
                        self.state = State::Inserting;
                        effects.push(Effect::Insert(text));
                        effects.push(Effect::Render(State::Inserting));
                    }
                }
            },
            Event::InsertionSucceeded => {
                if self.state == State::Inserting {
                    self.state = State::Idle;
                    effects.push(Effect::Render(State::Idle));
                }
            },
            Event::Failed(_) => {
                if self.state != State::Error {
                    self.state = State::Error;
                    effects.push(Effect::ScheduleIdleReset);
                    effects.push(Effect::Render(State::Error));
                }
            },
            Event::IdleResetElapsed => {
                if self.state == State::Error {
                    self.state = State::Idle;
                    effects.push(Effect::Render(State::Idle));
                }
            },
        }
        assert(effects@ =~= step(old(self)@, ev).1);
        effects
    }
}

/// The recorder is asked to start exactly when a hotkey press arrives in
/// Idle, and that is exactly when Recording is entered.
pub proof fn start_recording_only_on_hotkey_from_idle(state: State, event: Event)
    ensures
        step(state, event).1.contains(Effect::StartRecording) <==> (state == State::Idle
            && event is HotkeyToggled),
        step(state, event).1.contains(Effect::StartRecording) <==> (state != State::Recording
            && step(state, event).0 == State::Recording),
{
    let effs = step(state, event).1;
    if effs.contains(Effect::StartRecording) {
        let i = choose|i: int| 0 <= i < effs.len() && effs[i] == Effect::StartRecording;
        assert(effs[i] == Effect::StartRecording);
    }
    if state == State::Idle && event is HotkeyToggled {
        assert(effs[0] == Effect::StartRecording);
    }
}

/// The recorder is asked to stop exactly when a hotkey press arrives while
/// recording; Recording is then left for Transcribing.
pub proof fn stop_recording_only_on_hotkey_while_recording(state: State, event: Event)
    ensures
        step(state, event).1.contains(Effect::StopRecording) <==> (state == State::Recording
            && event is HotkeyToggled),
        step(state, event).1.contains(Effect::StopRecording) ==> step(state, event).0
            == State::Transcribing,
{
    let effs = step(state, event).1;
    if effs.contains(Effect::StopRecording) {
        let i = choose|i: int| 0 <= i < effs.len() && effs[i] == Effect::StopRecording;
        assert(effs[i] == Effect::StopRecording);
    }
    if state == State::Recording && event is HotkeyToggled {
        assert(effs[0] == Effect::StopRecording);
    }
}

/// Every change of state is rendered, the new state is the only one
/// rendered, and nothing is rendered when the state stays the same.
pub proof fn every_state_change_is_rendered(state: State, event: Event)
    ensures
        step(state, event).0 != state <==> step(state, event).1.contains(
            Effect::Render(step(state, event).0),
        ),
        forall|i: int|
            0 <= i < step(state, event).1.len() && (#[trigger] step(state, event).1[i]) is Render
                ==> step(state, event).1[i] == Effect::Render(step(state, event).0),
{
    let (next, effs) = step(state, event);
    if effs.contains(Effect::Render(next)) {
        let i = choose|i: int| 0 <= i < effs.len() && effs[i] == Effect::Render(next);
        assert(effs[i] == Effect::Render(next));
    }
    if next != state {
        assert(effs[effs.len() - 1] == Effect::Render(next));
    }
}

/// Hotkey presses while transcribing, inserting or showing an error change
/// nothing: no second recording starts.
pub proof fn hotkey_is_ignored_while_busy(state: State)
    requires
        state == State::Transcribing || state == State::Inserting || state == State::Error,
    ensures
        step(state, Event::HotkeyToggled) == (state, Seq::<Effect>::empty()),
{
}

/// Any failure leads to Error; entering Error schedules the return to Idle,
/// and Error is left only when that reset arrives, for Idle.
pub proof fn errors_are_shown_then_cleared(state: State, event: Event)
    ensures
        event is Failed ==> step(state, event).0 == State::Error,
        (state != State::Error && step(state, event).0 == State::Error)
            ==> step(state, event).1.contains(Effect::ScheduleIdleReset),
        (state == State::Error && step(state, event).0 != State::Error) <==> (state
            == State::Error && event is IdleResetElapsed),
        state == State::Error && event is IdleResetElapsed ==> step(state, event).0
            == State::Idle,
{
    let (next, effs) = step(state, event);
    if state != State::Error && next == State::Error {
        assert(effs[0] == Effect::ScheduleIdleReset);
    }
}

/// Text is typed only after a transcription in Transcribing that is not
/// blank, and it is the transcribed text unchanged; audio is transcribed
/// only when a recording finishes in Transcribing.
pub proof fn insertion_and_transcription_come_from_their_events(
    state: State,
    event: Event,
    text: String,
    audio: AudioData,
)
    ensures
        step(state, event).1.contains(Effect::Insert(text)) <==> (state == State::Transcribing
            && event == Event::TranscriptionSucceeded(text) && !is_blank(text@)),
        step(state, event).1.contains(Effect::Transcribe(audio)) <==> (state
            == State::Transcribing && event == Event::RecordingFinished(audio)),
{
    let effs = step(state, event).1;
    if effs.contains(Effect::Insert(text)) {
        let i = choose|i: int| 0 <= i < effs.len() && effs[i] == Effect::Insert(text);
        assert(effs[i] == Effect::Insert(text));
    }
    if state == State::Transcribing && event == Event::TranscriptionSucceeded(text) && !is_blank(
        text@,
    ) {
        assert(effs[0] == Effect::Insert(text));
    }
    if effs.contains(Effect::Transcribe(audio)) {
        let i = choose|i: int| 0 <= i < effs.len() && effs[i] == Effect::Transcribe(audio);
        assert(effs[i] == Effect::Transcribe(audio));
    }
    if state == State::Transcribing && event == Event::RecordingFinished(audio) {
        assert(effs[0] == Effect::Transcribe(audio));
    }
}

/// A blank transcription types nothing and returns to Idle.
pub proof fn blank_transcription_returns_to_idle(text: String)
    requires
        is_blank(text@),
    ensures
        step(State::Transcribing, Event::TranscriptionSucceeded(text)) == (
            State::Idle,
            seq![Effect::Render(State::Idle)],
        ),
{
}


/// The state after a sequence of events, and all the effects on the way.
pub open spec fn run(state: State, events: Seq<Event>) -> (State, Seq<Effect>)
    decreases events.len(),
{
    if events.len() == 0 {
        (state, seq![])
    } else {
        let (mid, before) = run(state, events.drop_last());
        let (next, more) = step(mid, events.last());
        (next, before + more)
    }
}

/// The states rendered by a sequence of effects, in order.
pub open spec fn rendered(effects: Seq<Effect>) -> Seq<State>
    decreases effects.len(),
{
    if effects.len() == 0 {
        seq![]
    } else {
        match effects.last() {
            Effect::Render(s) => rendered(effects.drop_last()).push(s),
            _ => rendered(effects.drop_last()),
        }
    }
}

proof fn lemma_rendered_append(a: Seq<Effect>, b: Seq<Effect>)
    ensures
        rendered(a + b) == rendered(a) + rendered(b),
    decreases b.len(),
{
    if b.len() == 0 {
        assert(a + b =~= a);
        assert(rendered(a) + rendered(b) =~= rendered(a));
    } else {
        lemma_rendered_append(a, b.drop_last());
        assert((a + b).drop_last() =~= a + b.drop_last());
        assert((a + b).last() == b.last());
        match b.last() {
            Effect::Render(s) => {
                assert(rendered(a) + rendered(b) =~= (rendered(a) + rendered(b.drop_last())).push(s));
            },
            _ => {},
        }
    }
}

proof fn lemma_step_renders(state: State, event: Event)
    ensures
        rendered(step(state, event).1) == if step(state, event).0 != state {
            seq![step(state, event).0]
        } else {
            Seq::<State>::empty()
        },
{
    let (next, effs) = step(state, event);
    reveal_with_fuel(rendered, 3);
    if effs.len() == 2 {
        assert(effs.drop_last() =~= seq![effs[0]]);
        assert(effs.drop_last().drop_last() =~= Seq::<Effect>::empty());
    } else if effs.len() == 1 {
        assert(effs.drop_last() =~= Seq::<Effect>::empty());
    }
}

/// The overlay mirrors the state: starting from Idle, after any sequence of
/// events the last state rendered is the current state (and while nothing
/// has been rendered yet, the machine is still Idle).
pub proof fn the_overlay_mirrors_the_state(events: Seq<Event>)
    ensures
        rendered(run(State::Idle, events).1).len() == 0 ==> run(State::Idle, events).0
            == State::Idle,
        rendered(run(State::Idle, events).1).len() > 0 ==> rendered(
            run(State::Idle, events).1,
        ).last() == run(State::Idle, events).0,
    decreases events.len(),
{
    if events.len() > 0 {
        let init = events.drop_last();
        the_overlay_mirrors_the_state(init);
        let (mid, before) = run(State::Idle, init);
        lemma_step_renders(mid, events.last());
        lemma_rendered_append(before, step(mid, events.last()).1);
    }
}

/// How many times an effect occurs in a sequence of effects.
pub open spec fn occurrences(effects: Seq<Effect>, e: Effect) -> nat
    decreases effects.len(),
{
    if effects.len() == 0 {
        0
    } else {
        occurrences(effects.drop_last(), e) + if effects.last() == e {
            1nat
        } else {
            0nat
        }
    }
}

proof fn lemma_occurrences_append(a: Seq<Effect>, b: Seq<Effect>, e: Effect)
    ensures
        occurrences(a + b, e) == occurrences(a, e) + occurrences(b, e),
    decreases b.len(),
{
    if b.len() == 0 {
        assert(a + b =~= a);
    } else {
        lemma_occurrences_append(a, b.drop_last(), e);
        assert((a + b).drop_last() =~= a + b.drop_last());
    }
}

proof fn lemma_step_uses_the_recorder(state: State, event: Event)
    ensures
        occurrences(step(state, event).1, Effect::StartRecording) == if state == State::Idle
            && event is HotkeyToggled {
            1nat
        } else {
            0nat
        },
        occurrences(step(state, event).1, Effect::StopRecording) == if state == State::Recording
            && event is HotkeyToggled {
            1nat
        } else {
            0nat
        },
{
    let effs = step(state, event).1;
    reveal_with_fuel(occurrences, 3);
    if effs.len() == 2 {
        assert(effs.drop_last() =~= seq![effs[0]]);
        assert(effs.drop_last().drop_last() =~= Seq::<Effect>::empty());
    } else if effs.len() == 1 {
        assert(effs.drop_last() =~= Seq::<Effect>::empty());
    }
}

/// The microphone runs only while recording: starting from Idle, and as
/// long as no failure is reported, the recorder has been started once more
/// than it has been stopped exactly when the state is Recording, and as
/// often as it has been stopped in every other state.
pub proof fn the_microphone_runs_only_while_recording(events: Seq<Event>)
    requires
        forall|i: int| 0 <= i < events.len() ==> !(#[trigger] events[i] is Failed),
    ensures
        occurrences(run(State::Idle, events).1, Effect::StartRecording) == occurrences(
            run(State::Idle, events).1,
            Effect::StopRecording,
        ) + if run(State::Idle, events).0 == State::Recording {
            1nat
        } else {
            0nat
        },
    decreases events.len(),
{
    if events.len() > 0 {
        let init = events.drop_last();
        assert forall|i: int| 0 <= i < init.len() implies !(#[trigger] init[i] is Failed) by {
            assert(init[i] == events[i]);
        }
        the_microphone_runs_only_while_recording(init);
        let (mid, before) = run(State::Idle, init);
        let ev = events.last();
        assert(!(events[events.len() - 1] is Failed));
        lemma_step_uses_the_recorder(mid, ev);
        lemma_occurrences_append(before, step(mid, ev).1, Effect::StartRecording);
        lemma_occurrences_append(before, step(mid, ev).1, Effect::StopRecording);
    }
}

/// How many failure events a run from `state` receives while in Recording.
/// (`Controller::dispatch` queues a failure there only when the recorder
/// refused to start.)
pub open spec fn failures_while_recording(state: State, events: Seq<Event>) -> nat
    decreases events.len(),
{
    if events.len() == 0 {
        0
    } else {
        failures_while_recording(state, events.drop_last()) + if run(state, events.drop_last()).0
            == State::Recording && events.last() is Failed {
            1nat
        } else {
            0nat
        }
    }
}

/// Every start of the recorder is accounted for, over any run from Idle:
/// it was stopped, it is the recording still going on (exactly when the
/// state is Recording), or it ended in a failure reported while recording.
pub proof fn every_recorder_start_is_stopped_current_or_failed(events: Seq<Event>)
    ensures
        occurrences(run(State::Idle, events).1, Effect::StartRecording) == occurrences(
            run(State::Idle, events).1,
            Effect::StopRecording,
        ) + failures_while_recording(State::Idle, events) + if run(State::Idle, events).0
            == State::Recording {
            1nat
        } else {
            0nat
        },
    decreases events.len(),
{
    if events.len() > 0 {
        let init = events.drop_last();
        every_recorder_start_is_stopped_current_or_failed(init);
        let (mid, before) = run(State::Idle, init);
        let ev = events.last();
        lemma_step_uses_the_recorder(mid, ev);
        lemma_occurrences_append(before, step(mid, ev).1, Effect::StartRecording);
        lemma_occurrences_append(before, step(mid, ev).1, Effect::StopRecording);
    }
}

} // verus!
