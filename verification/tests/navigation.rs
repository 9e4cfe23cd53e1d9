use tracker_core::engine::Engine;
use tracker_core::navigation::{eased_permille, go_to_instrument_screen, progress_permille};
use tracker_core::screen::{Screen, Screens};
use tracker_core::wtime::Winstant;

#[test]
fn go_to_starts_transition_at_zero_progress() {
    let mut e = Engine::new();
    let now = e.now;
    go_to_instrument_screen(
        &mut e.tracker,
        &mut e.timers,
        &mut e.inputs,
        &mut e.nav,
        Screen::Pattern,
        now,
    );
    assert_eq!(
        *e.tracker.screens(),
        Screens::Transition(Screen::Pattern, Screen::Instrument, 0)
    );
    let id = e.nav.active.as_ref().unwrap().id;
    assert!(e.timers.has_interval(id));
}

#[test]
fn transition_completes_after_duration_and_unregisters() {
    let mut e = Engine::new();
    let now = e.now;
    go_to_instrument_screen(
        &mut e.tracker,
        &mut e.timers,
        &mut e.inputs,
        &mut e.nav,
        Screen::Pattern,
        now,
    );
    let id = e.nav.active.as_ref().unwrap().id;
    // The animation lasts 300 ms = 18.75 frames: after 19 further frames
    // the destination screen stands alone and the interval is gone.
    for _ in 0..19 {
        assert!(matches!(*e.tracker.screens(), Screens::Transition(..)));
        e.frame(0);
    }
    e.frame(0);
    assert_eq!(*e.tracker.screens(), Screens::Single(Screen::Instrument));
    assert!(!e.timers.has_interval(id));
    assert!(e.nav.active.is_none());
}

#[test]
fn transition_progress_grows_each_frame() {
    let mut e = Engine::new();
    let now = e.now;
    go_to_instrument_screen(
        &mut e.tracker,
        &mut e.timers,
        &mut e.inputs,
        &mut e.nav,
        Screen::Pattern,
        now,
    );
    e.frame(0);
    // The first animation frame still reads the starting instant.
    assert_eq!(
        *e.tracker.screens(),
        Screens::Transition(Screen::Pattern, Screen::Instrument, 0)
    );
    e.frame(0);
    // One frame in: 16 ms of 300, in per-mille.
    assert_eq!(
        *e.tracker.screens(),
        Screens::Transition(Screen::Pattern, Screen::Instrument, 53)
    );
}

#[test]
fn starting_a_new_transition_cancels_the_old_interval() {
    let mut e = Engine::new();
    let now = e.now;
    go_to_instrument_screen(
        &mut e.tracker,
        &mut e.timers,
        &mut e.inputs,
        &mut e.nav,
        Screen::Pattern,
        now,
    );
    let first_id = e.nav.active.as_ref().unwrap().id;
    go_to_instrument_screen(
        &mut e.tracker,
        &mut e.timers,
        &mut e.inputs,
        &mut e.nav,
        Screen::Song,
        now,
    );
    let second_id = e.nav.active.as_ref().unwrap().id;
    assert_ne!(first_id, second_id);
    assert!(!e.timers.has_interval(first_id));
    assert!(e.timers.has_interval(second_id));
}

#[test]
fn progress_is_measured_in_permille() {
    assert_eq!(progress_permille(Winstant(0), Winstant(0)), 0);
    assert_eq!(progress_permille(Winstant(0), Winstant(1)), 53);
    assert_eq!(progress_permille(Winstant(0), Winstant(9)), 480);
    assert_eq!(progress_permille(Winstant(0), Winstant(18)), 960);
    assert_eq!(progress_permille(Winstant(0), Winstant(19)), 1000);
    assert_eq!(progress_permille(Winstant(0), Winstant(1000)), 1000);
}

#[test]
fn easing_is_quartic_ease_out() {
    assert_eq!(eased_permille(0), 0);
    assert_eq!(eased_permille(1000), 1000);
    // 1 - (1 - 0.5)^4 = 0.9375, floored in per-mille arithmetic.
    assert_eq!(eased_permille(500), 938);
    // The curve starts fast: a quarter in, nearly 70% of the way.
    assert_eq!(eased_permille(250), 684);
}
