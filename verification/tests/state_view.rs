use std::time::Instant;
use voice_input::app::state::State;
use voice_input::ui::state_view::{complete_flash, Glyph, StateView};

fn t0() -> Instant {
    Instant::now()
}

#[test]
fn each_state_has_one_glyph() {
    let now = t0();
    let cases = [
        (State::Idle, Glyph::Ring),
        (State::Recording, Glyph::Dot),
        (State::Transcribing, Glyph::Dots),
        (State::Inserting, Glyph::Dots),
        (State::Error, Glyph::Bang),
    ];
    for (state, glyph) in cases {
        let mut view = StateView::new();
        view.apply(state, now);
        assert_eq!(view.glyph(now), glyph, "{state:?}");
    }
}

#[test]
fn idle_after_inserting_flashes_a_check_then_returns_to_ring() {
    let now = t0();
    let mut view = StateView::new();
    view.apply(State::Inserting, now);

    view.apply(State::Idle, now);

    assert_eq!(view.glyph(now), Glyph::Check);
    assert_eq!(view.glyph(now + complete_flash() / 2), Glyph::Check);
    assert_eq!(view.glyph(now + complete_flash()), Glyph::Ring);
}

#[test]
fn idle_after_error_does_not_flash_a_check() {
    let now = t0();
    let mut view = StateView::new();
    view.apply(State::Error, now);

    view.apply(State::Idle, now);

    assert_eq!(view.glyph(now), Glyph::Ring);
}

#[test]
fn a_new_recording_cancels_a_pending_check_flash() {
    let now = t0();
    let mut view = StateView::new();
    view.apply(State::Inserting, now);
    view.apply(State::Idle, now);

    view.apply(State::Recording, now);

    assert_eq!(view.glyph(now), Glyph::Dot);
}

#[test]
fn only_recording_transcribing_and_the_flash_need_animation() {
    let now = t0();
    let mut view = StateView::new();
    assert!(!view.needs_animation(now), "idle must be static");

    view.apply(State::Recording, now);
    assert!(view.needs_animation(now));

    view.apply(State::Transcribing, now);
    assert!(view.needs_animation(now));

    view.apply(State::Error, now);
    assert!(!view.needs_animation(now), "error is static");

    view.apply(State::Idle, now);
    assert!(!view.needs_animation(now));

    view.apply(State::Inserting, now);
    view.apply(State::Idle, now);
    assert!(view.needs_animation(now), "flash is animated");
    assert!(
        !view.needs_animation(now + complete_flash()),
        "then static again"
    );
}

#[test]
fn the_view_reports_the_state_it_shows() {
    let now = t0();
    let mut view = StateView::default();
    assert_eq!(view.state(), State::Idle);
    view.apply(State::Transcribing, now);
    assert_eq!(view.state(), State::Transcribing);
    assert_eq!(complete_flash().as_millis(), 1200);
}
