//! Wires the pure [`StateMachine`] to the boundary traits.
//!
//! The controller is the only place that executes [`Effect`]s. Effects the
//! recorder, the injector and the overlay can perform at once are performed
//! here; what needs to wait (a transcription request, the timer that clears
//! the Error state) becomes a [`Job`] for the event loop that drives the
//! controller. Follow-up events are queued, never dispatched recursively, so
//! the effects of one event always complete (in order) before the next event
//! is handled.

use super::state::{
    insertion_and_transcription_come_from_their_events, step, Effect, Event, Failure, Stage,
    State, StateMachine,
};
use crate::audio::audio_data::AudioData;
use crate::audio::{audio_error_text, AudioError, AudioRecorder};
use crate::input::{input_error_text, InputError, TextInjector};
use crate::text::owned;
use crate::transcription::provider::{transcription_error_text, TranscriptionError};
use crate::ui::Overlay;
use std::time::Duration;
use vstd::prelude::*;

verus! {

/// Work that outlives one dispatch: the event loop performs it and reports
/// back with an event.
#[derive(Clone, PartialEq)]
pub enum Job {
    /// Send the audio to the transcription provider; report the result with
    /// [`event_after_transcription`].
    Transcribe(AudioData),
    /// Wait for the error display time, then report
    /// [`Event::IdleResetElapsed`].
    ScheduleIdleReset,
}

/// Everything the controller needs from the outside world that answers at
/// once.
pub struct Dependencies<R, I, O> {
    pub recorder: R,
    pub injector: I,
    pub overlay: O,
    /// How long the Error state stays on screen before returning to Idle.
    pub error_display: Duration,
}

/// `ev` reports a failure of `stage` with the given detail.
pub open spec fn reports_failure(ev: Event, stage: Stage, detail: Seq<char>) -> bool {
    ev matches Event::Failed(f) && f.stage == stage && f.detail@ == detail
}

/// The event that follows starting the recorder: none when it started, a
/// recording failure with the recorder's message otherwise.
pub open spec fn after_start(result: Result<(), AudioError>, r: Option<Event>) -> bool {
    match result {
        Ok(_) => r is None,
        Err(e) => r matches Some(ev) && reports_failure(ev, Stage::Recording, audio_error_text(e)),
    }
}

/// The event that follows stopping the recorder: the captured audio, or a
/// recording failure when the recorder failed or captured nothing.
pub open spec fn after_stop(result: Result<AudioData, AudioError>, r: Event) -> bool {
    match result {
        Ok(audio) => if audio@.1.len() == 0 {
            reports_failure(r, Stage::Recording, "no audio captured"@)
        } else {
            r == Event::RecordingFinished(audio)
        },
        Err(e) => reports_failure(r, Stage::Recording, audio_error_text(e)),
    }
}

/// The event that follows typing the text: success, or an insertion failure
/// with the injector's message.
pub open spec fn after_insert(result: Result<(), InputError>, r: Event) -> bool {
    match result {
        Ok(_) => r == Event::InsertionSucceeded,
        Err(e) => reports_failure(r, Stage::Insertion, input_error_text(e)),
    }
}

/// The event that reports a transcription result.
pub open spec fn after_transcription(result: Result<String, TranscriptionError>, r: Event) -> bool {
    match result {
        Ok(text) => r == Event::TranscriptionSucceeded(text),
        Err(e) => reports_failure(r, Stage::Transcription, transcription_error_text(e)),
    }
}

/// The event that follows starting the recorder: none when it started, a
/// recording failure otherwise.
pub fn event_after_start(result: Result<(), AudioError>) -> (r: Option<Event>)
    ensures
        after_start(result, r),
{
    match result {
        Ok(()) => None,
        Err(e) => Some(Event::Failed(Failure::new(Stage::Recording, e.message()))),
    }
}

/// The event that follows stopping the recorder: the captured audio, or a
/// recording failure when the recorder failed or captured nothing.
pub fn event_after_stop(result: Result<AudioData, AudioError>) -> (r: Event)
    ensures
        after_stop(result, r),
{
    match result {
        Ok(audio) => {
            if audio.is_empty() {
                Event::Failed(Failure::new(Stage::Recording, owned("no audio captured")))
            } else {
                Event::RecordingFinished(audio)
            }
        },
        Err(e) => Event::Failed(Failure::new(Stage::Recording, e.message())),
    }
}

/// The event that follows typing the text: success, or an insertion failure.
pub fn event_after_insert(result: Result<(), InputError>) -> (r: Event)
    ensures
        after_insert(result, r),
{
    match result {
        Ok(()) => Event::InsertionSucceeded,
        Err(e) => Event::Failed(Failure::new(Stage::Insertion, e.message())),
    }
}

/// The event that reports a transcription result.
pub fn event_after_transcription(result: Result<String, TranscriptionError>) -> (r: Event)
    ensures
        after_transcription(result, r),
{
    match result {
        Ok(text) => Event::TranscriptionSucceeded(text),
        Err(e) => Event::Failed(Failure::new(Stage::Transcription, e.message())),
    }
}

/// The follow-up events an effect may produce, whatever the outside world
/// answered.
pub open spec fn follow_up_allowed(effect: Effect, ev: Option<Event>) -> bool {
    match effect {
        Effect::StartRecording => ev is None || (ev matches Some(e) && e matches Event::Failed(f)
            && f.stage == Stage::Recording),
        Effect::StopRecording => ev matches Some(e) && ((e matches Event::RecordingFinished(a)
            && a@.1.len() > 0) || (e matches Event::Failed(f) && f.stage == Stage::Recording)),
        Effect::Insert(_) => ev matches Some(e) && (e is InsertionSucceeded || (
        e matches Event::Failed(f) && f.stage == Stage::Insertion)),
        _ => ev is None,
    }
}

/// Carrying out `effect` on the recorder, injector and overlay `before`
/// leaves them as `after` and yields the follow-up `out`: the recorder is
/// asked to start or stop, the injector to type the text, the overlay to
/// show the state, each exactly once, and the follow-up is the event that
/// the answer calls for. The other effects touch none of them.
pub open spec fn performs<R: AudioRecorder, I: TextInjector, O: Overlay>(
    effect: Effect,
    before: (R, I, O),
    after: (R, I, O),
    out: Option<Event>,
) -> bool {
    match effect {
        Effect::StartRecording => {
            &&& after.1 == before.1
            &&& after.2 == before.2
            &&& exists|a: Result<(), AudioError>|
                #![trigger before.0.starts(&after.0, a)]
                before.0.starts(&after.0, a) && after_start(a, out)
        },
        Effect::StopRecording => {
            &&& after.1 == before.1
            &&& after.2 == before.2
            &&& exists|a: Result<AudioData, AudioError>|
                #![trigger before.0.stops(&after.0, a)]
                before.0.stops(&after.0, a) && (out matches Some(ev) && after_stop(a, ev))
        },
        Effect::Insert(text) => {
            &&& after.0 == before.0
            &&& after.2 == before.2
            &&& exists|a: Result<(), InputError>|
                #![trigger before.1.inserts(text@, &after.1, a)]
                before.1.inserts(text@, &after.1, a) && (out matches Some(ev) && after_insert(
                    a,
                    ev,
                ))
        },
        Effect::Render(state) => {
            &&& after.0 == before.0
            &&& after.1 == before.1
            &&& before.2.renders(state, &after.2)
            &&& out is None
        },
        _ => after == before && out is None,
    }
}

/// The events present in a sequence of optional events, in order.
pub open spec fn present(outs: Seq<Option<Event>>) -> Seq<Event>
    decreases outs.len(),
{
    if outs.len() == 0 {
        seq![]
    } else {
        match outs.last() {
            Some(e) => present(outs.drop_last()).push(e),
            None => present(outs.drop_last()),
        }
    }
}

/// The job an effect hands to the event loop, if any.
pub open spec fn job_of(effect: Effect) -> Option<Job> {
    match effect {
        Effect::Transcribe(audio) => Some(Job::Transcribe(audio)),
        Effect::ScheduleIdleReset => Some(Job::ScheduleIdleReset),
        _ => None,
    }
}

/// The jobs a sequence of effects hands to the event loop, in order.
pub open spec fn jobs_of(effects: Seq<Effect>) -> Seq<Job>
    decreases effects.len(),
{
    if effects.len() == 0 {
        seq![]
    } else {
        match job_of(effects.last()) {
            Some(j) => jobs_of(effects.drop_last()).push(j),
            None => jobs_of(effects.drop_last()),
        }
    }
}

proof fn lemma_jobs_come_from_effects(effects: Seq<Effect>, audio: AudioData)
    ensures
        jobs_of(effects).contains(Job::Transcribe(audio)) ==> effects.contains(
            Effect::Transcribe(audio),
        ),
    decreases effects.len(),
{
    if effects.len() > 0 {
        let init = effects.drop_last();
        lemma_jobs_come_from_effects(init, audio);
        let jobs = jobs_of(effects);
        if jobs.contains(Job::Transcribe(audio)) {
            let k = choose|k: int| 0 <= k < jobs.len() && jobs[k] == Job::Transcribe(audio);
            if k < jobs_of(init).len() {
                assert(jobs_of(init)[k] == Job::Transcribe(audio));
                let m = choose|m: int| 0 <= m < init.len() && init[m] == Effect::Transcribe(audio);
                assert(effects[m] == Effect::Transcribe(audio));
            } else {
                assert(effects[effects.len() - 1] == Effect::Transcribe(audio));
            }
        }
    }
}

/// Audio reaches the provider only through a recording that finished while
/// transcribing, and stopping the recorder only ever queues a finished
/// recording that holds audio: an empty recording never reaches the
/// provider.
pub proof fn empty_recordings_never_reach_the_provider(
    state: State,
    event: Event,
    follow_up: Option<Event>,
    audio: AudioData,
)
    ensures
        jobs_of(step(state, event).1).contains(Job::Transcribe(audio)) ==> state
            == State::Transcribing && event == Event::RecordingFinished(audio),
        follow_up_allowed(Effect::StopRecording, follow_up) && follow_up == Some(
            Event::RecordingFinished(audio),
        ) ==> audio@.1.len() > 0,
{
    lemma_jobs_come_from_effects(step(state, event).1, audio);
    insertion_and_transcription_come_from_their_events(state, event, arbitrary(), audio);
}

pub struct Controller<R, I, O> {
    machine: StateMachine,
    deps: Dependencies<R, I, O>,
    follow_ups: Vec<Event>,
    jobs: Vec<Job>,
}

impl<R, I, O> View for Controller<R, I, O> {
    /// The state, the follow-up events not yet taken, the jobs not yet taken.
    type V = (State, Seq<Event>, Seq<Job>);

    closed spec fn view(&self) -> (State, Seq<Event>, Seq<Job>) {
        (self.machine@, self.follow_ups@, self.jobs@)
    }
}

impl<R: AudioRecorder, I: TextInjector, O: Overlay> Controller<R, I, O> {
    /// The error display time the controller was built with.
    pub closed spec fn error_display_time(&self) -> Duration {
        self.deps.error_display
    }

    /// The recorder, injector and overlay, as one value.
    pub closed spec fn spec_deps(&self) -> (R, I, O) {
        (self.deps.recorder, self.deps.injector, self.deps.overlay)
    }

    /// The recorder the controller drives.
    pub open spec fn spec_recorder(&self) -> R {
        self.spec_deps().0
    }

    /// The injector the controller drives.
    pub open spec fn spec_injector(&self) -> I {
        self.spec_deps().1
    }

    /// The overlay the controller drives.
    pub open spec fn spec_overlay(&self) -> O {
        self.spec_deps().2
    }

    pub fn new(deps: Dependencies<R, I, O>) -> (r: Self)
        ensures
            r@ == (State::Idle, Seq::<Event>::empty(), Seq::<Job>::empty()),
            r.error_display_time() == deps.error_display,
            r.spec_recorder() == deps.recorder,
            r.spec_injector() == deps.injector,
            r.spec_overlay() == deps.overlay,
    {
        Controller { machine: StateMachine::new(), deps, follow_ups: Vec::new(), jobs: Vec::new() }
    }

    pub fn state(&self) -> (r: State)
        ensures
            r == self@.0,
    {
        self.machine.state()
    }

    /// How long the Error state stays on screen.
    pub fn error_display(&self) -> (r: Duration)
        ensures
            r == self.error_display_time(),
    {
        self.deps.error_display
    }

    pub fn recorder(&self) -> (r: &R)
        ensures
            *r == self.spec_recorder(),
    {
        &self.deps.recorder
    }

    pub fn injector(&self) -> (r: &I)
        ensures
            *r == self.spec_injector(),
    {
        &self.deps.injector
    }

    pub fn overlay(&self) -> (r: &O)
        ensures
            *r == self.spec_overlay(),
    {
        &self.deps.overlay
    }

    /// Performs one effect; returns the follow-up event it produced, if any.
    fn perform(&mut self, effect: Effect) -> (r: Option<Event>)
        ensures
            performs(effect, old(self).spec_deps(), final(self).spec_deps(), r),
            follow_up_allowed(effect, r),
            final(self).machine == old(self).machine,
            final(self).follow_ups == old(self).follow_ups,
            final(self).jobs@ == match job_of(effect) {
                Some(j) => old(self).jobs@.push(j),
                None => old(self).jobs@,
            },
            final(self).deps.error_display == old(self).deps.error_display,
    {
        let ghost before = self.spec_deps();
        match effect {
            Effect::StartRecording => {
                let result = self.deps.recorder.start();
                let out = event_after_start(result);
                assert(before.0.starts(&self.spec_deps().0, result));
                out
            },
            Effect::StopRecording => {
                let result = self.deps.recorder.stop();
                let ev = event_after_stop(result);
                assert(before.0.stops(&self.spec_deps().0, result));
                Some(ev)
            },
            Effect::Transcribe(audio) => {
                self.jobs.push(Job::Transcribe(audio));
                None
            },
            Effect::Insert(text) => {
                let result = self.deps.injector.insert(text.as_str());
                let ev = event_after_insert(result);
                assert(before.1.inserts(text@, &self.spec_deps().1, result));
                Some(ev)
            },
            Effect::ScheduleIdleReset => {
                self.jobs.push(Job::ScheduleIdleReset);
                None
            },
            Effect::Render(state) => {
                self.deps.overlay.render(state);
                None
            },
        }
    }

    /// Handles one event: moves the state machine and performs all the
    /// resulting effects, each once and in order. Follow-up events are
    /// queued (see [`Self::take_follow_ups`]), never handled here;
    /// transcriptions and the error timer become jobs (see
    /// [`Self::take_jobs`]).
    pub fn dispatch(&mut self, event: Event)
        ensures
            final(self)@.0 == step(old(self)@.0, event).0,
            final(self)@.2 == old(self)@.2 + jobs_of(step(old(self)@.0, event).1),
            exists|chain: Seq<(R, I, O)>, outs: Seq<Option<Event>>|
                {
                    &&& outs.len() == step(old(self)@.0, event).1.len()
                    &&& chain.len() == outs.len() + 1
                    &&& chain[0] == old(self).spec_deps()
                    &&& chain.last() == final(self).spec_deps()
                    &&& forall|i: int|
                        0 <= i < outs.len() ==> #[trigger] performs(
                            step(old(self)@.0, event).1[i],
                            chain[i],
                            chain[i + 1],
                            outs[i],
                        )
                    &&& forall|i: int|
                        0 <= i < outs.len() ==> follow_up_allowed(
                            #[trigger] step(old(self)@.0, event).1[i],
                            outs[i],
                        )
                    &&& final(self)@.1 == old(self)@.1 + present(outs)
                },
            final(self).error_display_time() == old(self).error_display_time(),
    {
        let ghost effs = step(old(self)@.0, event).1;
        let ghost jobs0 = self.jobs@;
        let ghost queue0 = self.follow_ups@;
        let effects = self.machine.handle(event);
        let ghost mut outs: Seq<Option<Event>> = Seq::empty();
        let ghost mut chain: Seq<(R, I, O)> = seq![self.spec_deps()];
        let mut rest = effects;
        let n = rest.len();
        let mut i: usize = 0;
        while i < n
            invariant
                n == effs.len(),
                i <= n,
                rest@ == effs.subrange(i as int, n as int),
                outs.len() == i,
                chain.len() == i + 1,
                chain[0] == old(self).spec_deps(),
                chain.last() == self.spec_deps(),
                forall|k: int|
                    0 <= k < i ==> #[trigger] performs(effs[k], chain[k], chain[k + 1], outs[k]),
                forall|k: int| 0 <= k < i ==> follow_up_allowed(#[trigger] effs[k], outs[k]),
                self.follow_ups@ == queue0 + present(outs),
                self.jobs@ == jobs0 + jobs_of(effs.take(i as int)),
                self.machine@ == step(old(self)@.0, event).0,
                self.deps.error_display == old(self).deps.error_display,
            decreases n - i,
        {
            let effect = rest.remove(0);
            let ghost e = effect;
            assert(e == effs[i as int]);
            let ghost before = self.spec_deps();
            let out = self.perform(effect);
            let ghost prev = outs;
            let ghost prev_chain = chain;
            proof {
                outs = outs.push(out);
                chain = chain.push(self.spec_deps());
                assert(outs.drop_last() =~= prev);
                assert(effs.take(i + 1).drop_last() =~= effs.take(i as int));
                assert(effs.take(i + 1).last() == e);
                assert(chain[i as int] == before);
                assert forall|k: int| 0 <= k < i + 1 implies #[trigger] performs(
                    effs[k],
                    chain[k],
                    chain[k + 1],
                    outs[k],
                ) by {
                    if k < i {
                        assert(chain[k] == prev_chain[k]);
                        assert(chain[k + 1] == prev_chain[k + 1]);
                        assert(outs[k] == prev[k]);
                    }
                }
            }
            match out {
                Some(ev) => self.follow_ups.push(ev),
                None => {},
            }
            i = i + 1;
            proof {
                assert(outs.drop_last() =~= prev);
                assert(self.follow_ups@ =~= queue0 + present(outs));
                assert(self.jobs@ =~= jobs0 + jobs_of(effs.take(i as int)));
                assert(rest@ =~= effs.subrange(i as int, n as int));
            }
        }
        assert(effs.take(n as int) =~= effs);
        assert(self.follow_ups@ == queue0 + present(outs));
    }

    /// Removes and returns the queued follow-up events, oldest first.
    pub fn take_follow_ups(&mut self) -> (r: Vec<Event>)
        ensures
            r@ == old(self)@.1,
            final(self)@ == (old(self)@.0, Seq::<Event>::empty(), old(self)@.2),
            final(self).error_display_time() == old(self).error_display_time(),
            final(self).spec_recorder() == old(self).spec_recorder(),
            final(self).spec_injector() == old(self).spec_injector(),
            final(self).spec_overlay() == old(self).spec_overlay(),
    {
        let mut taken: Vec<Event> = Vec::new();
        std::mem::swap(&mut taken, &mut self.follow_ups);
        taken
    }

    /// Removes and returns the pending jobs, oldest first.
    pub fn take_jobs(&mut self) -> (r: Vec<Job>)
        ensures
            r@ == old(self)@.2,
            final(self)@ == (old(self)@.0, old(self)@.1, Seq::<Job>::empty()),
            final(self).error_display_time() == old(self).error_display_time(),
            final(self).spec_recorder() == old(self).spec_recorder(),
            final(self).spec_injector() == old(self).spec_injector(),
            final(self).spec_overlay() == old(self).spec_overlay(),
    {
        let mut taken: Vec<Job> = Vec::new();
        std::mem::swap(&mut taken, &mut self.jobs);
        taken
    }
}

} // verus!
