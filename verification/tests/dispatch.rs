use tracker_core::engine::Engine;
use tracker_core::inputs::{
    Command, InputEvent, Inputs, BUTTON_1, BUTTON_2, BUTTON_DOWN, BUTTON_UP,
};
use tracker_core::screen::{Screen, Screens};
use tracker_core::tracker::Column;
use tracker_core::wtime::Winstant;

#[test]
fn pressing_button1_creates_a_note() {
    let mut e = Engine::new();
    assert!(e.tracker.current_note().is_none());
    let out = e.frame(BUTTON_1);
    assert!(!out.persist_requested);
    let note = e.tracker.current_note().expect("note should be created");
    assert_eq!(note.note_index(), 36);
    assert_eq!(note.instrument_index(), 0);
}

#[test]
fn double_press_deletes_the_note_within_window() {
    let mut e = Engine::new();
    // First press records its instant and creates a note.
    e.frame(BUTTON_1);
    // Release for 4 frames: past the minimum gap, within the 200 ms window.
    for _ in 0..4 {
        e.frame(0);
    }
    // Second press: the double-press binding fires and empties the step.
    e.frame(BUTTON_1);
    assert!(e.tracker.current_note().is_none());
}

#[test]
fn second_press_outside_window_is_a_plain_press() {
    let mut e = Engine::new();
    e.frame(BUTTON_1);
    // Empty the step again by hand so a plain press would re-create it.
    e.tracker.set_current_note(&None);
    // Wait out the 200 ms window (12 frames) before pressing again.
    for _ in 0..14 {
        e.frame(0);
    }
    e.frame(BUTTON_1);
    assert!(e.tracker.current_note().is_some());
}

#[test]
fn immediate_retrigger_is_filtered() {
    let mut inputs = Inputs::new();
    inputs.listen(InputEvent::Button1DoublePress, Command::PatternButton1Double);
    // A press one frame after the recorded one lies inside the minimum
    // gap: no double press.
    inputs.tick(BUTTON_1, Winstant(10));
    let fired = inputs.tick(BUTTON_1, Winstant(11));
    assert!(fired.is_empty());
    // Three frames after the record is inside the window.
    let mut inputs2 = Inputs::new();
    inputs2.listen(InputEvent::Button1DoublePress, Command::PatternButton1Double);
    inputs2.tick(BUTTON_1, Winstant(10));
    let fired2 = inputs2.tick(BUTTON_1, Winstant(13));
    assert_eq!(fired2, vec![Command::PatternButton1Double]);
}

#[test]
fn unlisten_clears_all_bindings() {
    let mut inputs = Inputs::new();
    inputs.listen(InputEvent::Button2Press, Command::SongButton1);
    inputs.unlisten();
    let fired = inputs.tick(BUTTON_2, Winstant(0));
    assert!(fired.is_empty());
}

#[test]
fn bindings_fire_in_binding_order() {
    let mut inputs = Inputs::new();
    inputs.listen(InputEvent::ButtonDownPress, Command::SongButtonDown);
    inputs.listen(InputEvent::ButtonUpPress, Command::SongButtonUp);
    inputs.listen(InputEvent::ButtonDownPress, Command::PatternButtonDown);
    let fired = inputs.tick(BUTTON_DOWN | BUTTON_UP, Winstant(0));
    assert_eq!(
        fired,
        vec![Command::SongButtonDown, Command::SongButtonUp, Command::PatternButtonDown]
    );
}

#[test]
fn button_helpers_read_the_bitmask() {
    let inputs = Inputs::new();
    assert!(inputs.is_button1_pressed(BUTTON_1));
    assert!(!inputs.is_button1_pressed(BUTTON_2));
    assert!(inputs.is_button2_pressed(BUTTON_2 | BUTTON_1));
}

#[test]
fn save_is_requested_by_second_button_and_up() {
    let mut e = Engine::new();
    let out = e.frame(BUTTON_2 | BUTTON_UP);
    assert!(out.persist_requested);
    // Held for the following frames, the request stays debounced away.
    let out2 = e.frame(BUTTON_2 | BUTTON_UP);
    assert!(!out2.persist_requested);
}

#[test]
fn down_moves_the_pattern_cursor() {
    let mut e = Engine::new();
    e.frame(BUTTON_DOWN);
    assert_eq!(e.tracker.cursor_tick(), 1);
    // Held down, the debounce suppresses an immediate repeat.
    e.frame(BUTTON_DOWN);
    assert_eq!(e.tracker.cursor_tick(), 1);
    // Once the interval has passed, it fires again.
    for _ in 0..7 {
        e.frame(0);
    }
    e.frame(BUTTON_DOWN);
    assert_eq!(e.tracker.cursor_tick(), 2);
}

#[test]
fn right_switches_column_then_edits_instrument() {
    let mut e = Engine::new();
    e.frame(BUTTON_1);
    assert_eq!(e.tracker.selected_column(), Column::Note);
    // Plain right moves the cursor to the instrument column.
    for _ in 0..14 {
        e.frame(0);
    }
    e.frame(tracker_core::inputs::BUTTON_RIGHT);
    assert_eq!(e.tracker.selected_column(), Column::Instrument);
    // Right with the first button held steps the note's instrument.
    for _ in 0..14 {
        e.frame(0);
    }
    e.frame(BUTTON_1 | tracker_core::inputs::BUTTON_RIGHT);
    assert_eq!(e.tracker.current_note().unwrap().instrument_index(), 1);
}

#[test]
fn navigating_replaces_screen_and_bindings() {
    let mut e = Engine::new();
    // Second button plus right on the pattern screen navigates to the
    // instrument screen.
    let out = e.frame(BUTTON_2 | tracker_core::inputs::BUTTON_RIGHT);
    assert!(!out.persist_requested);
    assert!(matches!(
        *e.tracker.screens(),
        Screens::Transition(Screen::Pattern, Screen::Instrument, _)
    ));
    // Let the transition finish; the instrument screen stands alone.
    for _ in 0..25 {
        e.frame(0);
    }
    assert_eq!(*e.tracker.screens(), Screens::Single(Screen::Instrument));
    assert!(e.nav.active.is_none());
}
