//! Test doubles (fakes) for the boundary traits.
//!
//! They live in the library so that the whole application logic can be
//! exercised without a microphone, a network connection, or a display. Each
//! fake is a plain value: hand it to the controller, then read what it saw
//! back through the controller's accessors.

use crate::app::state::State;
use crate::audio::audio_data::AudioData;
use crate::audio::{AudioError, AudioRecorder};
use crate::config::credentials::{CredentialError, CredentialStore};
use crate::hotkey::{hotkey_text, Hotkey, HotkeyError, HotkeyProvider, ToggleHandler};
use crate::input::{InputError, TextInjector};
use crate::text::{owned, str_eq};
use crate::transcription::provider::TranscriptionError;
use crate::ui::Overlay;
use vstd::prelude::*;

verus! {

/// Copies of every recording, in order.
pub fn copy_recordings(v: &Vec<AudioData>) -> (r: Vec<AudioData>)
    ensures
        r@.len() == v@.len(),
        forall|i: int| 0 <= i < v@.len() ==> (#[trigger] r@[i])@ == v@[i]@,
{
    let mut r: Vec<AudioData> = Vec::new();
    let mut i: usize = 0;
    while i < v.len()
        invariant
            i <= v.len(),
            r@.len() == i,
            forall|j: int| 0 <= j < i ==> (#[trigger] r@[j])@ == v@[j]@,
        decreases v.len() - i,
    {
        r.push(v[i].clone());
        i = i + 1;
    }
    r
}

/// Copies of every string, in order.
pub fn copy_strings(v: &Vec<String>) -> (r: Vec<String>)
    ensures
        r@.len() == v@.len(),
        forall|i: int| 0 <= i < v@.len() ==> (#[trigger] r@[i])@ == v@[i]@,
{
    let mut r: Vec<String> = Vec::new();
    let mut i: usize = 0;
    while i < v.len()
        invariant
            i <= v.len(),
            r@.len() == i,
            forall|j: int| 0 <= j < i ==> (#[trigger] r@[j])@ == v@[j]@,
        decreases v.len() - i,
    {
        r.push(v[i].clone());
        i = i + 1;
    }
    r
}

/// The audio a fake recorder hands back when none was given: one second of
/// silence at 16 kHz.
pub fn one_second_of_silence() -> (r: AudioData)
    ensures
        r@.0 == 16_000,
        r@.1.len() == 16_000,
        forall|i: int| 0 <= i < 16_000 ==> r@.1[i] == 0,
{
    let mut samples: Vec<i16> = Vec::new();
    let mut i: usize = 0;
    while i < 16_000
        invariant
            i <= 16_000,
            samples@.len() == i,
            forall|j: int| 0 <= j < i ==> samples@[j] == 0,
        decreases 16_000 - i,
    {
        samples.push(0);
        i = i + 1;
    }
    AudioData::new(16_000, samples)
}

/// A microphone that records nothing and reports what was asked of it.
pub struct FakeAudioRecorder {
    recording: bool,
    start_count: usize,
    stop_count: usize,
    start_result: Option<AudioError>,
    stop_result: Option<AudioError>,
    audio: Option<AudioData>,
}

impl FakeAudioRecorder {
    pub closed spec fn spec_recording(&self) -> bool {
        self.recording
    }

    pub closed spec fn spec_start_count(&self) -> nat {
        self.start_count as nat
    }

    pub closed spec fn spec_stop_count(&self) -> nat {
        self.stop_count as nat
    }

    /// The error `start` reports, if it is set to fail.
    pub closed spec fn spec_start_failure(&self) -> Option<AudioError> {
        self.start_result
    }

    /// The error `stop` reports, if it is set to fail.
    pub closed spec fn spec_stop_failure(&self) -> Option<AudioError> {
        self.stop_result
    }

    /// The audio `stop` hands back, if one was given.
    pub closed spec fn spec_audio(&self) -> Option<(u32, Seq<i16>)> {
        match self.audio {
            Some(a) => Some(a@),
            None => None,
        }
    }

    pub fn new() -> (r: Self)
        ensures
            !r.spec_recording(),
            r.spec_start_count() == 0,
            r.spec_stop_count() == 0,
            r.spec_start_failure() is None,
            r.spec_stop_failure() is None,
            r.spec_audio() is None,
    {
        FakeAudioRecorder {
            recording: false,
            start_count: 0,
            stop_count: 0,
            start_result: None,
            stop_result: None,
            audio: None,
        }
    }

    /// Audio to hand back from `stop()`. Defaults to one second of silence.
    pub fn with_audio(self, audio: AudioData) -> (r: Self)
        ensures
            r.spec_audio() == Some(audio@),
            r.spec_recording() == self.spec_recording(),
            r.spec_start_count() == self.spec_start_count(),
            r.spec_stop_count() == self.spec_stop_count(),
            r.spec_start_failure() == self.spec_start_failure(),
            r.spec_stop_failure() == self.spec_stop_failure(),
    {
        FakeAudioRecorder { audio: Some(audio), ..self }
    }

    pub fn failing_to_start(self, err: AudioError) -> (r: Self)
        ensures
            r.spec_start_failure() == Some(err),
            r.spec_audio() == self.spec_audio(),
            r.spec_recording() == self.spec_recording(),
            r.spec_start_count() == self.spec_start_count(),
            r.spec_stop_count() == self.spec_stop_count(),
            r.spec_stop_failure() == self.spec_stop_failure(),
    {
        FakeAudioRecorder { start_result: Some(err), ..self }
    }

    pub fn failing_to_stop(self, err: AudioError) -> (r: Self)
        ensures
            r.spec_stop_failure() == Some(err),
            r.spec_audio() == self.spec_audio(),
            r.spec_recording() == self.spec_recording(),
            r.spec_start_count() == self.spec_start_count(),
            r.spec_stop_count() == self.spec_stop_count(),
            r.spec_start_failure() == self.spec_start_failure(),
    {
        FakeAudioRecorder { stop_result: Some(err), ..self }
    }

    pub fn is_recording(&self) -> (r: bool)
        ensures
            r == self.spec_recording(),
    {
        self.recording
    }

    pub fn start_count(&self) -> (r: usize)
        ensures
            r == self.spec_start_count(),
    {
        self.start_count
    }

    pub fn stop_count(&self) -> (r: usize)
        ensures
            r == self.spec_stop_count(),
    {
        self.stop_count
    }

    /// Starts recording unless set to fail; counts every call (saturating).
    pub fn start_recording(&mut self) -> (r: Result<(), AudioError>)
        ensures
            final(self).spec_start_count() == if old(self).spec_start_count() < usize::MAX {
                old(self).spec_start_count() + 1
            } else {
                old(self).spec_start_count()
            },
            final(self).spec_stop_count() == old(self).spec_stop_count(),
            final(self).spec_start_failure() == old(self).spec_start_failure(),
            final(self).spec_stop_failure() == old(self).spec_stop_failure(),
            final(self).spec_audio() == old(self).spec_audio(),
            match old(self).spec_start_failure() {
                Some(e) => r == Err::<(), AudioError>(e) && final(self).spec_recording() == old(
                    self,
                ).spec_recording(),
                None => r is Ok && final(self).spec_recording(),
            },
    {
        self.start_count = self.start_count.saturating_add(1);
        match &self.start_result {
            Some(err) => Err(err.clone()),
            None => {
                self.recording = true;
                Ok(())
            },
        }
    }

    /// Stops recording: fails when not recording or when set to fail,
    /// otherwise hands back the given audio (one second of silence by
    /// default). Counts every call (saturating).
    pub fn stop_recording(&mut self) -> (r: Result<AudioData, AudioError>)
        ensures
            final(self).spec_stop_count() == if old(self).spec_stop_count() < usize::MAX {
                old(self).spec_stop_count() + 1
            } else {
                old(self).spec_stop_count()
            },
            final(self).spec_start_count() == old(self).spec_start_count(),
            final(self).spec_start_failure() == old(self).spec_start_failure(),
            final(self).spec_stop_failure() == old(self).spec_stop_failure(),
            final(self).spec_audio() == old(self).spec_audio(),
            !final(self).spec_recording(),
            !old(self).spec_recording() ==> r == Err::<AudioData, AudioError>(
                AudioError::NotRecording,
            ),
            old(self).spec_recording() ==> match old(self).spec_stop_failure() {
                Some(e) => r == Err::<AudioData, AudioError>(e),
                None => (r matches Ok(a) && match old(self).spec_audio() {
                    Some(given) => a@ == given,
                    None => a@.0 == 16_000 && a@.1.len() == 16_000 && forall|i: int|
                        0 <= i < 16_000 ==> a@.1[i] == 0,
                }),
            },
    {
        self.stop_count = self.stop_count.saturating_add(1);
        if !self.recording {
            return Err(AudioError::NotRecording);
        }
        self.recording = false;
        match &self.stop_result {
            Some(err) => {
                return Err(err.clone());
            },
            None => {},
        }
        match &self.audio {
            Some(a) => Ok(a.clone()),
            None => Ok(one_second_of_silence()),
        }
    }
}

impl FakeAudioRecorder {
    /// What `start` does to the fake: counts the call (saturating), then
    /// fails as set without starting, or starts; nothing else changes.
    pub open spec fn start_step(&self, after: &Self, r: Result<(), AudioError>) -> bool {
        &&& after.spec_start_count() == if self.spec_start_count() < usize::MAX {
            self.spec_start_count() + 1
        } else {
            self.spec_start_count()
        }
        &&& after.spec_stop_count() == self.spec_stop_count()
        &&& after.spec_start_failure() == self.spec_start_failure()
        &&& after.spec_stop_failure() == self.spec_stop_failure()
        &&& after.spec_audio() == self.spec_audio()
        &&& match self.spec_start_failure() {
            Some(e) => r == Err::<(), AudioError>(e) && after.spec_recording()
                == self.spec_recording(),
            None => r is Ok && after.spec_recording(),
        }
    }

    /// What `stop` does to the fake: counts the call (saturating) and stops;
    /// fails when it was not recording or is set to fail, otherwise hands
    /// back the given audio or one second of silence.
    pub open spec fn stop_step(&self, after: &Self, r: Result<AudioData, AudioError>) -> bool {
        &&& after.spec_stop_count() == if self.spec_stop_count() < usize::MAX {
            self.spec_stop_count() + 1
        } else {
            self.spec_stop_count()
        }
        &&& after.spec_start_count() == self.spec_start_count()
        &&& after.spec_start_failure() == self.spec_start_failure()
        &&& after.spec_stop_failure() == self.spec_stop_failure()
        &&& after.spec_audio() == self.spec_audio()
        &&& !after.spec_recording()
        &&& !self.spec_recording() ==> r == Err::<AudioData, AudioError>(AudioError::NotRecording)
        &&& self.spec_recording() ==> match self.spec_stop_failure() {
            Some(e) => r == Err::<AudioData, AudioError>(e),
            None => (r matches Ok(a) && match self.spec_audio() {
                Some(given) => a@ == given,
                None => a@.0 == 16_000 && a@.1.len() == 16_000 && forall|i: int|
                    0 <= i < 16_000 ==> a@.1[i] == 0,
            }),
        }
    }
}

impl AudioRecorder for FakeAudioRecorder {
    open spec fn starts(&self, after: &Self, answer: Result<(), AudioError>) -> bool {
        self.start_step(after, answer)
    }

    open spec fn stops(&self, after: &Self, answer: Result<AudioData, AudioError>) -> bool {
        self.stop_step(after, answer)
    }

    /// As [`FakeAudioRecorder::start_recording`].
    fn start(&mut self) -> (r: Result<(), AudioError>) {
        self.start_recording()
    }

    /// As [`FakeAudioRecorder::stop_recording`].
    fn stop(&mut self) -> (r: Result<AudioData, AudioError>) {
        self.stop_recording()
    }
}

/// A provider that returns a canned result and remembers what it received.
pub struct FakeTranscriptionProvider {
    result: Result<String, TranscriptionError>,
    received: Vec<AudioData>,
}

impl FakeTranscriptionProvider {
    pub closed spec fn spec_received(&self) -> Seq<AudioData> {
        self.received@
    }

    pub closed spec fn spec_result(&self) -> Result<String, TranscriptionError> {
        self.result
    }

    pub fn returning(text: &str) -> (r: Self)
        ensures
            (r.spec_result() matches Ok(t) && t@ == text@),
            r.spec_received().len() == 0,
    {
        FakeTranscriptionProvider { result: Ok(owned(text)), received: Vec::new() }
    }

    pub fn failing(err: TranscriptionError) -> (r: Self)
        ensures
            r.spec_result() == Err::<String, TranscriptionError>(err),
            r.spec_received().len() == 0,
    {
        FakeTranscriptionProvider { result: Err(err), received: Vec::new() }
    }

    /// Copies of the audio received so far, in order.
    pub fn received(&self) -> (r: Vec<AudioData>)
        ensures
            r@.len() == self.spec_received().len(),
            forall|i: int|
                0 <= i < r@.len() ==> (#[trigger] r@[i])@ == self.spec_received()[i]@,
    {
        copy_recordings(&self.received)
    }

    /// Remembers the audio and answers with the canned result.
    pub fn transcribe(&mut self, audio: AudioData) -> (r: Result<String, TranscriptionError>)
        ensures
            final(self).spec_received() == old(self).spec_received().push(audio),
            final(self).spec_result() == old(self).spec_result(),
            match old(self).spec_result() {
                Ok(t) => (r matches Ok(u) && u@ == t@),
                Err(e) => r == Err::<String, TranscriptionError>(e),
            },
    {
        self.received.push(audio);
        match &self.result {
            Ok(t) => Ok(t.clone()),
            Err(e) => Err(e.clone()),
        }
    }
}

/// An injector that records every insertion instead of typing.
pub struct FakeTextInjector {
    inserted: Vec<String>,
    failure: Option<InputError>,
}

impl FakeTextInjector {
    pub closed spec fn spec_inserted(&self) -> Seq<Seq<char>> {
        self.inserted@.map_values(|s: String| s@)
    }

    pub closed spec fn spec_failure(&self) -> Option<InputError> {
        self.failure
    }

    pub fn new() -> (r: Self)
        ensures
            r.spec_inserted().len() == 0,
            r.spec_failure() is None,
    {
        FakeTextInjector { inserted: Vec::new(), failure: None }
    }

    pub fn failing(err: InputError) -> (r: Self)
        ensures
            r.spec_inserted().len() == 0,
            r.spec_failure() == Some(err),
    {
        FakeTextInjector { inserted: Vec::new(), failure: Some(err) }
    }

    /// Copies of the texts inserted so far, in order.
    pub fn inserted(&self) -> (r: Vec<String>)
        ensures
            r@.map_values(|s: String| s@) == self.spec_inserted(),
    {
        let r = copy_strings(&self.inserted);
        assert(r@.map_values(|s: String| s@) =~= self.spec_inserted());
        r
    }

    /// Records the text, or fails without recording when set to fail.
    pub fn insert_text(&mut self, text: &str) -> (r: Result<(), InputError>)
        ensures
            final(self).spec_failure() == old(self).spec_failure(),
            match old(self).spec_failure() {
                Some(e) => r == Err::<(), InputError>(e) && final(self).spec_inserted() == old(
                    self,
                ).spec_inserted(),
                None => r is Ok && final(self).spec_inserted() == old(self).spec_inserted().push(
                    text@,
                ),
            },
    {
        match &self.failure {
            Some(err) => {
                return Err(err.clone());
            },
            None => {},
        }
        let ghost before = self.inserted@;
        self.inserted.push(owned(text));
        assert(self.inserted@.map_values(|s: String| s@) =~= before.map_values(|s: String| s@).push(
            text@,
        ));
        Ok(())
    }
}

impl FakeTextInjector {
    /// What typing does to the fake: fails as set without recording, or
    /// records the text.
    pub open spec fn insert_step(&self, text: Seq<char>, after: &Self, r: Result<(), InputError>) -> bool {
        &&& after.spec_failure() == self.spec_failure()
        &&& match self.spec_failure() {
            Some(e) => r == Err::<(), InputError>(e) && after.spec_inserted()
                == self.spec_inserted(),
            None => r is Ok && after.spec_inserted() == self.spec_inserted().push(text),
        }
    }
}

impl TextInjector for FakeTextInjector {
    open spec fn inserts(&self, text: Seq<char>, after: &Self, answer: Result<(), InputError>) -> bool {
        self.insert_step(text, after, answer)
    }

    /// As [`FakeTextInjector::insert_text`].
    fn insert(&mut self, text: &str) -> (r: Result<(), InputError>) {
        self.insert_text(text)
    }
}

/// A hotkey with no keyboard behind it: `press` fires the registered
/// handler, and a provider made `failing` refuses every registration.
pub struct FakeHotkeyProvider {
    handler: Option<Box<dyn ToggleHandler>>,
    refuse: bool,
}

impl FakeHotkeyProvider {
    /// Whether a handler has been registered.
    pub closed spec fn is_registered(&self) -> bool {
        self.handler is Some
    }

    /// Whether every registration is refused.
    pub closed spec fn refuses(&self) -> bool {
        self.refuse
    }

    pub fn new() -> (r: Self)
        ensures
            !r.is_registered(),
            !r.refuses(),
    {
        FakeHotkeyProvider { handler: None, refuse: false }
    }

    pub fn failing() -> (r: Self)
        ensures
            !r.is_registered(),
            r.refuses(),
    {
        FakeHotkeyProvider { handler: None, refuse: true }
    }

    /// Fires the hotkey once: the registered handler, if any, is called.
    /// Returns whether one was.
    pub fn press(&self) -> (r: bool)
        ensures
            r == self.is_registered(),
    {
        match &self.handler {
            Some(h) => {
                h.toggled();
                true
            },
            None => false,
        }
    }

    /// Keeps the handler, or refuses with `Register` naming the hotkey.
    pub fn register_handler(&mut self, hotkey: &Hotkey, on_toggle: Box<dyn ToggleHandler>) -> (r:
        Result<(), HotkeyError>)
        ensures
            final(self).refuses() == old(self).refuses(),
            old(self).refuses() ==> (r matches Err(HotkeyError::Register(h, why)) && h@
                == hotkey_text(hotkey.modifiers@, hotkey.key) && why@ == "registration refused"@)
                && final(self).is_registered() == old(self).is_registered(),
            !old(self).refuses() ==> r is Ok && final(self).is_registered(),
    {
        if self.refuse {
            proof {
                reveal_strlit("registration refused");
            }
            return Err(HotkeyError::Register(hotkey.to_string(), owned("registration refused")));
        }
        self.handler = Some(on_toggle);
        Ok(())
    }
}

impl HotkeyProvider for FakeHotkeyProvider {
    /// As [`FakeHotkeyProvider::register_handler`].
    fn register(&mut self, hotkey: &Hotkey, on_toggle: Box<dyn ToggleHandler>) -> (r: Result<
        (),
        HotkeyError,
    >)
        ensures
            final(self).refuses() == old(self).refuses(),
            old(self).refuses() ==> (r matches Err(HotkeyError::Register(h, why)) && h@
                == hotkey_text(hotkey.modifiers@, hotkey.key) && why@ == "registration refused"@)
                && final(self).is_registered() == old(self).is_registered(),
            !old(self).refuses() ==> r is Ok && final(self).is_registered(),
    {
        self.register_handler(hotkey, on_toggle)
    }
}

/// An overlay that records the sequence of rendered states.
pub struct FakeOverlay {
    rendered: Vec<State>,
}

impl FakeOverlay {
    pub closed spec fn spec_rendered(&self) -> Seq<State> {
        self.rendered@
    }

    pub fn new() -> (r: Self)
        ensures
            r.spec_rendered().len() == 0,
    {
        FakeOverlay { rendered: Vec::new() }
    }

    pub fn rendered(&self) -> (r: Vec<State>)
        ensures
            r@ == self.spec_rendered(),
    {
        let mut r: Vec<State> = Vec::new();
        let mut i: usize = 0;
        while i < self.rendered.len()
            invariant
                i <= self.rendered.len(),
                r@ == self.rendered@.take(i as int),
            decreases self.rendered.len() - i,
        {
            r.push(self.rendered[i]);
            i = i + 1;
            assert(r@ =~= self.rendered@.take(i as int));
        }
        assert(self.rendered@.take(self.rendered@.len() as int) =~= self.rendered@);
        r
    }

    pub fn last(&self) -> (r: Option<State>)
        ensures
            self.spec_rendered().len() == 0 ==> r is None,
            self.spec_rendered().len() > 0 ==> r == Some(self.spec_rendered().last()),
    {
        if self.rendered.len() == 0 {
            None
        } else {
            Some(self.rendered[self.rendered.len() - 1])
        }
    }

    pub fn show(&mut self, state: State)
        ensures
            final(self).spec_rendered() == old(self).spec_rendered().push(state),
    {
        self.rendered.push(state);
    }
}

impl Overlay for FakeOverlay {
    /// Showing a state records it.
    open spec fn renders(&self, state: State, after: &Self) -> bool {
        after.spec_rendered() == self.spec_rendered().push(state)
    }

    /// Records the state, as [`FakeOverlay::show`].
    fn render(&mut self, state: State) {
        self.show(state)
    }
}

/// What a broken fake store answers every request with.
pub const BROKEN_STORE: &'static str = "fake store is broken";

/// A credential store in memory; a broken one fails every request.
pub struct FakeCredentialStore {
    entries: Vec<(String, String)>,
    broken: bool,
}

/// The secret stored for `account`: the latest entry wins.
pub open spec fn lookup(entries: Seq<(String, String)>, account: Seq<char>) -> Option<Seq<char>>
    decreases entries.len(),
{
    if entries.len() == 0 {
        None
    } else if entries.last().0@ == account {
        Some(entries.last().1@)
    } else {
        lookup(entries.drop_last(), account)
    }
}

impl FakeCredentialStore {
    pub closed spec fn spec_entries(&self) -> Seq<(String, String)> {
        self.entries@
    }

    pub closed spec fn spec_broken(&self) -> bool {
        self.broken
    }

    /// An empty store.
    pub fn new() -> (r: Self)
        ensures
            r.spec_entries().len() == 0,
            !r.spec_broken(),
    {
        FakeCredentialStore { entries: Vec::new(), broken: false }
    }

    /// A store holding one secret.
    pub fn with(account: &str, secret: &str) -> (r: Self)
        ensures
            lookup(r.spec_entries(), account@) == Some(secret@),
            forall|other: Seq<char>| other != account@ ==> lookup(r.spec_entries(), other) is None,
            !r.spec_broken(),
    {
        let mut entries: Vec<(String, String)> = Vec::new();
        entries.push((owned(account), owned(secret)));
        let ghost e = entries@;
        assert(e.len() == 1 && e.last().0@ == account@ && e.last().1@ == secret@);
        assert(e.drop_last() =~= Seq::<(String, String)>::empty());
        let r = FakeCredentialStore { entries, broken: false };
        assert forall|other: Seq<char>| other != account@ implies lookup(e, other) is None by {
            assert(lookup(e.drop_last(), other) is None);
        }
        r
    }

    /// A store that fails every request.
    pub fn broken() -> (r: Self)
        ensures
            r.spec_broken(),
    {
        FakeCredentialStore { entries: Vec::new(), broken: true }
    }

    pub fn get_secret(&self, account: &str) -> (r: Result<Option<String>, CredentialError>)
        ensures
            self.spec_broken() ==> (r matches Err(CredentialError::Unavailable(m)) && m@
                == BROKEN_STORE@),
            !self.spec_broken() ==> (r matches Ok(found) && match lookup(
                self.spec_entries(),
                account@,
            ) {
                Some(s) => (found matches Some(f) && f@ == s),
                None => found is None,
            }),
    {
        if self.broken {
            return Err(CredentialError::Unavailable(owned(BROKEN_STORE)));
        }
        let mut i: usize = self.entries.len();
        assert(self.entries@.take(i as int) =~= self.entries@);
        while i > 0
            invariant
                !self.broken,
                i <= self.entries.len(),
                lookup(self.entries@, account@) == lookup(self.entries@.take(i as int), account@),
            decreases i,
        {
            let ghost prefix = self.entries@.take(i as int);
            assert(prefix.drop_last() =~= self.entries@.take(i - 1));
            if str_eq(self.entries[i - 1].0.as_str(), account) {
                return Ok(Some(self.entries[i - 1].1.clone()));
            }
            i = i - 1;
        }
        Ok(None)
    }

    pub fn set_secret(&mut self, account: &str, secret: &str) -> (r: Result<(), CredentialError>)
        ensures
            final(self).spec_broken() == old(self).spec_broken(),
            old(self).spec_broken() ==> (r matches Err(CredentialError::Unavailable(m))
                && m@ == BROKEN_STORE@) && final(self).spec_entries() == old(self).spec_entries(),
            !old(self).spec_broken() ==> r is Ok && lookup(final(self).spec_entries(), account@)
                == Some(secret@) && forall|other: Seq<char>|
                other != account@ ==> lookup(final(self).spec_entries(), other) == lookup(
                    old(self).spec_entries(),
                    other,
                ),
    {
        if self.broken {
            return Err(CredentialError::Unavailable(owned(BROKEN_STORE)));
        }
        let ghost before = self.entries@;
        self.entries.push((owned(account), owned(secret)));
        assert(self.entries@.drop_last() =~= before);
        Ok(())
    }

    pub fn delete_secret(&mut self, account: &str) -> (r: Result<(), CredentialError>)
        ensures
            final(self).spec_broken() == old(self).spec_broken(),
            old(self).spec_broken() ==> (r matches Err(CredentialError::Unavailable(m))
                && m@ == BROKEN_STORE@) && final(self).spec_entries() == old(self).spec_entries(),
            !old(self).spec_broken() ==> r is Ok && lookup(final(self).spec_entries(), account@)
                is None && forall|other: Seq<char>|
                other != account@ ==> lookup(final(self).spec_entries(), other) == lookup(
                    old(self).spec_entries(),
                    other,
                ),
    {
        if self.broken {
            return Err(CredentialError::Unavailable(owned(BROKEN_STORE)));
        }
        let ghost before = self.entries@;
        let mut kept: Vec<(String, String)> = Vec::new();
        let mut i: usize = 0;
        while i < self.entries.len()
            invariant
                i <= self.entries.len(),
                self.entries@ == before,
                lookup(kept@, account@) is None,
                forall|other: Seq<char>|
                    other != account@ ==> lookup(kept@, other) == lookup(
                        before.take(i as int),
                        other,
                    ),
            decreases self.entries.len() - i,
        {
            let ghost old_kept = kept@;
            assert(before.take(i + 1).drop_last() =~= before.take(i as int));
            let ghost entry = before[i as int];
            let same = str_eq(self.entries[i].0.as_str(), account);
            if !same {
                let a = self.entries[i].0.clone();
                let s = self.entries[i].1.clone();
                kept.push((a, s));
                assert(kept@.drop_last() =~= old_kept);
                assert(kept@.last().0@ == entry.0@ && kept@.last().1@ == entry.1@);
            }
            assert(before.take(i + 1).last() == entry);
            assert forall|other: Seq<char>| other != account@ implies lookup(kept@, other)
                == lookup(before.take(i + 1), other) by {
                assert(lookup(old_kept, other) == lookup(before.take(i as int), other));
                assert(before.take(i + 1).drop_last() == before.take(i as int));
                if same {
                    assert(kept@ == old_kept);
                } else {
                    assert(kept@.drop_last() == old_kept);
                }
            }
            assert(lookup(kept@, account@) is None) by {
                if same {
                    assert(kept@ == old_kept);
                } else {
                    assert(kept@.drop_last() == old_kept);
                }
            }
            i = i + 1;
        }
        assert(before.take(before.len() as int) =~= before);
        self.entries = kept;
        Ok(())
    }
}

impl CredentialStore for FakeCredentialStore {
    /// A broken store fails with its message; any other answers with the
    /// latest secret stored for the account.
    open spec fn answers(&self, account: Seq<char>, answer: Result<Option<Seq<char>>, Seq<char>>) -> bool {
        answer == if self.spec_broken() {
            Err("credential store unavailable: "@ + BROKEN_STORE@)
        } else {
            Ok(lookup(self.spec_entries(), account))
        }
    }

    /// As [`FakeCredentialStore::get_secret`].
    fn get(&self, account: &str) -> (r: Result<Option<String>, CredentialError>)
        ensures
            self.spec_broken() ==> (r matches Err(CredentialError::Unavailable(m)) && m@
                == BROKEN_STORE@),
            !self.spec_broken() ==> (r matches Ok(found) && match lookup(
                self.spec_entries(),
                account@,
            ) {
                Some(s) => (found matches Some(f) && f@ == s),
                None => found is None,
            }),
    {
        self.get_secret(account)
    }

    /// As [`FakeCredentialStore::set_secret`].
    fn set(&mut self, account: &str, secret: &str) -> (r: Result<(), CredentialError>)
        ensures
            final(self).spec_broken() == old(self).spec_broken(),
            old(self).spec_broken() ==> (r matches Err(CredentialError::Unavailable(m))
                && m@ == BROKEN_STORE@) && final(self).spec_entries() == old(self).spec_entries(),
            !old(self).spec_broken() ==> r is Ok && lookup(final(self).spec_entries(), account@)
                == Some(secret@) && forall|other: Seq<char>|
                other != account@ ==> lookup(final(self).spec_entries(), other) == lookup(
                    old(self).spec_entries(),
                    other,
                ),
    {
        self.set_secret(account, secret)
    }

    /// As [`FakeCredentialStore::delete_secret`].
    fn delete(&mut self, account: &str) -> (r: Result<(), CredentialError>)
        ensures
            final(self).spec_broken() == old(self).spec_broken(),
            old(self).spec_broken() ==> (r matches Err(CredentialError::Unavailable(m))
                && m@ == BROKEN_STORE@) && final(self).spec_entries() == old(self).spec_entries(),
            !old(self).spec_broken() ==> r is Ok && lookup(final(self).spec_entries(), account@)
                is None && forall|other: Seq<char>|
                other != account@ ==> lookup(final(self).spec_entries(), other) == lookup(
                    old(self).spec_entries(),
                    other,
                ),
    {
        self.delete_secret(account)
    }
}

} // verus!
