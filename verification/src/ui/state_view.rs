//! Pure presentation logic for the overlay: which glyph to draw and whether
//! the window needs to animate.

use crate::app::state::State;
use crate::clock::{
    duration_from_millis, duration_of, earlier_than, instant_after, instant_before, instant_plus,
};
use std::time::{Duration, Instant};
use vstd::prelude::*;

verus! {

/// How long, in milliseconds, the check mark is shown after a successful
/// insertion.
pub const COMPLETE_FLASH_MILLIS: u64 = 1200;

/// How long the check mark is shown after a successful insertion: 1.2 s.
pub fn complete_flash() -> (d: Duration)
    ensures
        d == duration_of(1, 200_000_000),
{
    duration_from_millis(COMPLETE_FLASH_MILLIS)
}

/// The only visual vocabulary the overlay has.
#[derive(Debug, Clone, Copy, PartialEq, Eq, Structural)]
pub enum Glyph {
    /// Idle: a ring
    Ring,
    /// Recording: a dot
    Dot,
    /// Transcribing / Inserting: three dots
    Dots,
    /// Complete (brief): a check mark
    Check,
    /// Error: an exclamation mark
    Bang,
}

/// The glyph of every state but Idle, which shows a ring or, briefly after
/// an insertion, a check mark.
pub open spec fn busy_glyph(state: State) -> Glyph {
    match state {
        State::Recording => Glyph::Dot,
        State::Transcribing | State::Inserting => Glyph::Dots,
        State::Error => Glyph::Bang,
        State::Idle => Glyph::Ring,
    }
}

/// Tracks the current state plus the short "complete" flash.
#[derive(Debug)]
pub struct StateView {
    state: State,
    complete_until: Option<Instant>,
}

impl Default for StateView {
    fn default() -> (r: Self)
        ensures
            r.shown() == State::Idle,
            r.flash_until() is None,
    {
        StateView { state: State::Idle, complete_until: None }
    }
}

impl StateView {
    /// The state on screen.
    pub closed spec fn shown(&self) -> State {
        self.state
    }

    /// When the check mark stops showing, if one is pending.
    pub closed spec fn flash_until(&self) -> Option<Instant> {
        self.complete_until
    }

    pub fn new() -> (r: Self)
        ensures
            r.shown() == State::Idle,
            r.flash_until() is None,
    {
        StateView { state: State::Idle, complete_until: None }
    }

    pub fn state(&self) -> (r: State)
        ensures
            r == self.shown(),
    {
        self.state
    }

    /// Whether the check mark still shows at `now`.
    pub open spec fn flash_on(&self, now: Instant) -> bool {
        match self.flash_until() {
            Some(until) => earlier_than(now, until),
            None => false,
        }
    }

    /// Records a state change observed at `now`. Going from Inserting to
    /// Idle starts the check-mark flash, to end the flash time after `now`
    /// (none starts where that instant does not fit the clock); any other
    /// change cancels a pending one.
    pub fn apply(&mut self, next: State, now: Instant)
        ensures
            final(self).shown() == next,
            final(self).flash_until() == if old(self).shown() == State::Inserting && next
                == State::Idle {
                instant_plus(now, duration_of(1, 200_000_000))
            } else {
                None
            },
    {
        self.complete_until = if self.state == State::Inserting && next == State::Idle {
            instant_after(now, complete_flash())
        } else {
            None
        };
        self.state = next;
    }

    fn flashing(&self, now: Instant) -> (r: bool)
        ensures
            r == self.flash_on(now),
            forall|c: Instant, s1: u64, n1: u32, s2: u64, n2: u32|
                #![trigger instant_plus(c, duration_of(s1, n1)), instant_plus(c, duration_of(s2, n2))]
                n1 < 1_000_000_000 && n2 < 1_000_000_000 && (s1 < s2 || (s1 == s2 && n1 < n2))
                    && instant_plus(c, duration_of(s1, n1)) == Some(now) && self.flash_until()
                    == instant_plus(c, duration_of(s2, n2)) && self.flash_until() is Some
                    ==> self.flash_on(now),
            self.flash_until() == Some(now) ==> !self.flash_on(now),
            forall|s: u64, n: u32|
                #![trigger instant_plus(now, duration_of(s, n))]
                n < 1_000_000_000 && (s > 0 || n > 0) && instant_plus(now, duration_of(s, n))
                    is Some && self.flash_until() == instant_plus(now, duration_of(s, n))
                    ==> self.flash_on(now),
    {
        match self.complete_until {
            Some(until) => instant_before(now, until),
            None => false,
        }
    }

    /// The glyph at `now`: one per state, except that Idle shows the check
    /// mark while the flash lasts.
    pub fn glyph(&self, now: Instant) -> (r: Glyph)
        ensures
            r == if self.shown() == State::Idle {
                if self.flash_on(now) {
                    Glyph::Check
                } else {
                    Glyph::Ring
                }
            } else {
                busy_glyph(self.shown())
            },
            self.shown() == State::Idle && self.flash_until() == Some(now) ==> r == Glyph::Ring,
            forall|s: u64, n: u32|
                #![trigger instant_plus(now, duration_of(s, n))]
                self.shown() == State::Idle && n < 1_000_000_000 && (s > 0 || n > 0)
                    && instant_plus(now, duration_of(s, n)) is Some && self.flash_until()
                    == instant_plus(now, duration_of(s, n)) ==> r == Glyph::Check,
            forall|c: Instant, s1: u64, n1: u32, s2: u64, n2: u32|
                #![trigger instant_plus(c, duration_of(s1, n1)), instant_plus(c, duration_of(s2, n2))]
                self.shown() == State::Idle && n1 < 1_000_000_000 && n2 < 1_000_000_000 && (s1
                    < s2 || (s1 == s2 && n1 < n2)) && instant_plus(c, duration_of(s1, n1)) == Some(
                    now,
                ) && self.flash_until() == instant_plus(c, duration_of(s2, n2))
                    && self.flash_until() is Some ==> r == Glyph::Check,
    {
        match self.state {
            State::Idle => if self.flashing(now) {
                Glyph::Check
            } else {
                Glyph::Ring
            },
            State::Recording => Glyph::Dot,
            State::Transcribing | State::Inserting => Glyph::Dots,
            State::Error => Glyph::Bang,
        }
    }

    /// `true` while something on screen is moving: recording, transcribing,
    /// inserting, and the check-mark flash. Idle without a flash and Error
    /// are static, so the UI thread can sleep.
    pub fn needs_animation(&self, now: Instant) -> (r: bool)
        ensures
            r == match self.shown() {
                State::Recording | State::Transcribing | State::Inserting => true,
                State::Idle => self.flash_on(now),
                State::Error => false,
            },
            self.shown() == State::Idle && self.flash_until() == Some(now) ==> r == false,
            forall|s: u64, n: u32|
                #![trigger instant_plus(now, duration_of(s, n))]
                self.shown() == State::Idle && n < 1_000_000_000 && (s > 0 || n > 0)
                    && instant_plus(now, duration_of(s, n)) is Some && self.flash_until()
                    == instant_plus(now, duration_of(s, n)) ==> r == true,
            forall|c: Instant, s1: u64, n1: u32, s2: u64, n2: u32|
                #![trigger instant_plus(c, duration_of(s1, n1)), instant_plus(c, duration_of(s2, n2))]
                self.shown() == State::Idle && n1 < 1_000_000_000 && n2 < 1_000_000_000 && (s1
                    < s2 || (s1 == s2 && n1 < n2)) && instant_plus(c, duration_of(s1, n1)) == Some(
                    now,
                ) && self.flash_until() == instant_plus(c, duration_of(s2, n2))
                    && self.flash_until() is Some ==> r == true,
    {
        match self.state {
            State::Recording | State::Transcribing | State::Inserting => true,
            State::Idle => self.flashing(now),
            State::Error => false,
        }
    }
}

} // verus!
