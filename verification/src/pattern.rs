//! The pattern screen's input handlers: editing the selected pattern's
//! steps (pitch, octave, instrument), moving the cursor, toggling pattern
//! playback, and navigating to the neighbouring screens.

use vstd::prelude::*;

use crate::inputs::{
    spec_button1_held, spec_button2_held, Binding, Command, InputEvent, Inputs,
};
use crate::navigation::{go_to_instrument_screen, go_to_song_screen, spec_transition_intervals, ActiveTransition, Navigation};
use crate::screen::Screen;
use crate::timers::{spec_debounce_fires, spec_debounced_to, ActionId, Timers};
use crate::tracker::{spec_current_note_set, Column, Note, PlayMode, Tracker};
use crate::wtime::{Duration, Winstant};

verus! {

/// The dispatch list the pattern screen installs.
pub open spec fn spec_pattern_screen_bindings() -> Seq<Binding> {
    seq![
        Binding { event: InputEvent::ButtonDownPress, command: Command::PatternButtonDown },
        Binding { event: InputEvent::ButtonUpPress, command: Command::PatternButtonUp },
        Binding { event: InputEvent::Button1Press, command: Command::PatternButton1 },
        Binding { event: InputEvent::Button1DoublePress, command: Command::PatternButton1Double },
        Binding { event: InputEvent::ButtonRightPress, command: Command::PatternButtonRight },
        Binding { event: InputEvent::ButtonLeftPress, command: Command::PatternButtonLeft },
    ]
}

/// Appends the pattern screen's bindings to the dispatch list.
pub fn add_pattern_screen_handlers(inputs: &mut Inputs)
    ensures
        final (inputs).handlers@ == old(inputs).handlers@ + spec_pattern_screen_bindings(),
        final (inputs).last_fire_button1 == old(inputs).last_fire_button1,
        final (inputs).double_press_activated == old(inputs).double_press_activated,
{
    inputs.listen(InputEvent::ButtonDownPress, Command::PatternButtonDown);
    inputs.listen(InputEvent::ButtonUpPress, Command::PatternButtonUp);
    inputs.listen(InputEvent::Button1Press, Command::PatternButton1);
    inputs.listen(InputEvent::Button1DoublePress, Command::PatternButton1Double);
    inputs.listen(InputEvent::ButtonRightPress, Command::PatternButtonRight);
    inputs.listen(InputEvent::ButtonLeftPress, Command::PatternButtonLeft);
    proof {
        assert(final (inputs).handlers@ =~= old(inputs).handlers@
            + spec_pattern_screen_bindings());
    }
}

/// Down on the pattern screen: with the first button held on the note
/// column, drop the current note an octave (debounced); with the second
/// button held, toggle pattern playback (debounced); with the first button
/// held on the instrument column, nothing; otherwise move the cursor a
/// step down and, when the step it lands on holds a note, select that
/// note's instrument (debounced).
pub fn on_button_down_press(tracker: &mut Tracker, timers: &mut Timers, gamepad: u8, now: Winstant)
    requires
        old(tracker).wf(),
        old(timers).wf(),
    ensures
        final (tracker).wf(),
        final (timers).wf(),
        ({
            let b1 = spec_button1_held(gamepad);
            let b2 = spec_button2_held(gamepad);
            let t0 = *old(tracker);
            let t1 = *final (tracker);
            if b1 && t0.selected_column == Column::Note {
                &&& spec_debounced_to(
                    *old(timers),
                    *final (timers),
                    ActionId::PatternPitchOctaveDown,
                    Duration(100),
                    now,
                )
                &&& if spec_debounce_fires(
                    old(timers).spec_last_call(ActionId::PatternPitchOctaveDown),
                    Duration(100),
                    now,
                ) {
                    match t0.spec_current_note() {
                        Some(n) => spec_current_note_set(t0, t1, Some(n.spec_octave_down())),
                        None => t1 == t0,
                    }
                } else {
                    t1 == t0
                }
            } else if b2 {
                &&& spec_debounced_to(
                    *old(timers),
                    *final (timers),
                    ActionId::Play,
                    Duration(200),
                    now,
                )
                &&& t1 == if spec_debounce_fires(
                    old(timers).spec_last_call(ActionId::Play),
                    Duration(200),
                    now,
                ) {
                    t0.spec_toggled(PlayMode::Pattern)
                } else {
                    t0
                }
            } else if b1 {
                &&& t1 == t0
                &&& *final (timers) == *old(timers)
            } else {
                &&& spec_debounced_to(
                    *old(timers),
                    *final (timers),
                    ActionId::PatternNavDown,
                    Duration(100),
                    now,
                )
                &&& if spec_debounce_fires(
                    old(timers).spec_last_call(ActionId::PatternNavDown),
                    Duration(100),
                    now,
                ) {
                    match t0.spec_cursor_down().spec_current_note() {
                        Some(n) => t1 == (Tracker {
                            selected_instrument_index: n.instrument,
                            ..t0.spec_cursor_down()
                        }),
                        None => t1 == t0.spec_cursor_down(),
                    }
                } else {
                    t1 == t0
                }
            }
        }),
{
    let b1 = inputs_button1(gamepad);
    let b2 = inputs_button2(gamepad);
    if b1 && tracker.selected_column() == Column::Note {
        if timers.run_action_debounced(
            ActionId::PatternPitchOctaveDown,
            Duration::from_millis(100),
            now,
        ) {
            match *tracker.current_note() {
                Some(n) => {
                    let mut note = n;
                    note.decrease_octave();
                    tracker.set_current_note(&Some(note));
                },
                None => {},
            }
        }
    } else if b2 {
        if timers.run_action_debounced(ActionId::Play, Duration::from_millis(200), now) {
            tracker.toggle_play(PlayMode::Pattern);
        }
    } else if b1 {
    } else {
        if timers.run_action_debounced(ActionId::PatternNavDown, Duration::from_millis(100), now) {
            tracker.saturating_increase_cursor_tick();
            match *tracker.current_note() {
                Some(note) => {
                    tracker.set_selected_instrument_index(note.instrument_index());
                },
                None => {},
            }
        }
    }
}

/// Up on the pattern screen: with the first button held on the note
/// column, raise the current note an octave (debounced); with the first
/// button held on the instrument column, nothing; with the second button
/// held, request a save of the tracker (debounced, answered true);
/// otherwise move the cursor a step up and, when the step it lands on
/// holds a note, select that note's instrument (debounced).
pub fn on_button_up_press(tracker: &mut Tracker, timers: &mut Timers, gamepad: u8, now: Winstant) -> (persist:
    bool)
    requires
        old(tracker).wf(),
        old(timers).wf(),
    ensures
        final (tracker).wf(),
        final (timers).wf(),
        ({
            let b1 = spec_button1_held(gamepad);
            let b2 = spec_button2_held(gamepad);
            let t0 = *old(tracker);
            let t1 = *final (tracker);
            if b1 && t0.selected_column == Column::Note {
                &&& spec_debounced_to(
                    *old(timers),
                    *final (timers),
                    ActionId::PatternPitchOctaveUp,
                    Duration(100),
                    now,
                )
                &&& if spec_debounce_fires(
                    old(timers).spec_last_call(ActionId::PatternPitchOctaveUp),
                    Duration(100),
                    now,
                ) {
                    match t0.spec_current_note() {
                        Some(n) => spec_current_note_set(t0, t1, Some(n.spec_octave_up())),
                        None => t1 == t0,
                    }
                } else {
                    t1 == t0
                }
                &&& !persist
            } else if b1 {
                &&& t1 == t0
                &&& *final (timers) == *old(timers)
                &&& !persist
            } else if b2 {
                &&& spec_debounced_to(
                    *old(timers),
                    *final (timers),
                    ActionId::Persist,
                    Duration(1000),
                    now,
                )
                &&& t1 == t0
                &&& persist == spec_debounce_fires(
                    old(timers).spec_last_call(ActionId::Persist),
                    Duration(1000),
                    now,
                )
            } else {
                &&& spec_debounced_to(
                    *old(timers),
                    *final (timers),
                    ActionId::PatternNavUp,
                    Duration(100),
                    now,
                )
                &&& if spec_debounce_fires(
                    old(timers).spec_last_call(ActionId::PatternNavUp),
                    Duration(100),
                    now,
                ) {
                    match t0.spec_cursor_up().spec_current_note() {
                        Some(n) => t1 == (Tracker {
                            selected_instrument_index: n.instrument,
                            ..t0.spec_cursor_up()
                        }),
                        None => t1 == t0.spec_cursor_up(),
                    }
                } else {
                    t1 == t0
                }
                &&& !persist
            }
        }),
{
    let b1 = inputs_button1(gamepad);
    let b2 = inputs_button2(gamepad);
    if b1 && tracker.selected_column() == Column::Note {
        if timers.run_action_debounced(
            ActionId::PatternPitchOctaveUp,
            Duration::from_millis(100),
            now,
        ) {
            match *tracker.current_note() {
                Some(n) => {
                    let mut note = n;
                    note.increase_octave();
                    tracker.set_current_note(&Some(note));
                },
                None => {},
            }
        }
        false
    } else if b1 {
        false
    } else if b2 {
        timers.run_action_debounced(ActionId::Persist, Duration::from_millis(1000), now)
    } else {
        if timers.run_action_debounced(ActionId::PatternNavUp, Duration::from_millis(100), now) {
            tracker.saturating_decrease_cursor_tick();
            match *tracker.current_note() {
                Some(note) => {
                    tracker.set_selected_instrument_index(note.instrument_index());
                },
                None => {},
            }
        }
        false
    }
}

/// The first button on the pattern screen: an empty step under the cursor
/// gets a fresh note.
pub fn on_button_1_press(tracker: &mut Tracker)
    requires
        old(tracker).wf(),
    ensures
        final (tracker).wf(),
        (match old(tracker).spec_current_note() {
            None => spec_current_note_set(
                *old(tracker),
                *final (tracker),
                Some(Note { index: crate::notes::NOTE_C3_INDEX, instrument: 0 }),
            ),
            Some(_) => *final (tracker) == *old(tracker),
        }),
{
    match *tracker.current_note() {
        None => {
            let new_note = Note::new();
            tracker.set_current_note(&Some(new_note));
        },
        Some(_) => {},
    }
}

/// A double press of the first button on the pattern screen: a step
/// holding a note empties.
pub fn on_button_1_double_press(tracker: &mut Tracker)
    requires
        old(tracker).wf(),
    ensures
        final (tracker).wf(),
        (match old(tracker).spec_current_note() {
            Some(_) => spec_current_note_set(*old(tracker), *final (tracker), None),
            None => *final (tracker) == *old(tracker),
        }),
{
    match *tracker.current_note() {
        Some(_) => {
            tracker.set_current_note(&None);
        },
        None => {},
    }
}

/// Right on the pattern screen: with the first button held, raise the
/// current note a semitone (note column) or move it to the next
/// instrument (instrument column), debounced; with the second button
/// held, select the current note's instrument (when there is one) and
/// navigate to the instrument screen (debounced); otherwise move the
/// cursor from the note column to the instrument column.
pub fn on_button_right_press(
    tracker: &mut Tracker,
    timers: &mut Timers,
    inputs: &mut Inputs,
    nav: &mut Navigation,
    gamepad: u8,
    now: Winstant,
)
    requires
        old(tracker).wf(),
        old(timers).wf(),
    ensures
        final (tracker).wf(),
        final (timers).wf(),
        ({
            let b1 = spec_button1_held(gamepad);
            let b2 = spec_button2_held(gamepad);
            let t0 = *old(tracker);
            let t1 = *final (tracker);
            if b1 {
                let (action, interval) = if t0.selected_column == Column::Note {
                    (ActionId::PatternPitchUp, Duration(100))
                } else {
                    (ActionId::PatternInstrumentNext, Duration(200))
                };
                &&& spec_debounced_to(*old(timers), *final (timers), action, interval, now)
                &&& if spec_debounce_fires(
                    old(timers).spec_last_call(action),
                    interval,
                    now,
                ) {
                    match t0.spec_current_note() {
                        Some(n) => spec_current_note_set(
                            t0,
                            t1,
                            Some(
                                if t0.selected_column == Column::Note {
                                    n.spec_pitch_up()
                                } else {
                                    n.spec_next_instrument()
                                },
                            ),
                        ),
                        None => t1 == t0,
                    }
                } else {
                    t1 == t0
                }
                &&& final (inputs).handlers == old(inputs).handlers
                &&& final (nav).active == old(nav).active
            } else if b2 {
                let fires = spec_debounce_fires(
                    old(timers).spec_last_call(ActionId::NavNextScreen),
                    Duration(200),
                    now,
                );
                &&& final (timers).last_calls@ == (if fires {
                    old(timers).last_calls@.update(ActionId::NavNextScreen.spec_index(), Some(now))
                } else {
                    old(timers).last_calls@
                })
                &&& if fires {
                    let selected = (match t0.spec_current_note() {
                        Some(n) => (Tracker { selected_instrument_index: n.instrument, ..t0 }),
                        None => t0,
                    });
                    &&& t1 == (Tracker {
                        screens: crate::screen::Screens::Transition(
                            Screen::Pattern,
                            Screen::Instrument,
                            0,
                        ),
                        ..selected
                    })
                    &&& final (timers).intervals@ == spec_transition_intervals(
                        *old(timers),
                        old(nav).active,
                        old(nav).next_id,
                    )
                    &&& final (inputs).handlers@
                        == crate::instrument::spec_instrument_screen_bindings()
                    &&& final (nav).active == Some(
                        ActiveTransition {
                            id: old(nav).next_id,
                            from: Screen::Pattern,
                            to: Screen::Instrument,
                            start: now,
                        },
                    )
                } else {
                    &&& t1 == t0
                    &&& final (timers).intervals == old(timers).intervals
                    &&& final (inputs).handlers == old(inputs).handlers
                    &&& final (nav).active == old(nav).active
                }
            } else {
                &&& *final (timers) == *old(timers)
                &&& t1 == (if t0.selected_column == Column::Note {
                    (Tracker { selected_column: Column::Instrument, ..t0 })
                } else {
                    t0
                })
                &&& final (inputs).handlers == old(inputs).handlers
                &&& final (nav).active == old(nav).active
            }
        }),
{
    let b1 = inputs_button1(gamepad);
    let b2 = inputs_button2(gamepad);
    if b1 {
        match tracker.selected_column() {
            Column::Note => {
                if timers.run_action_debounced(
                    ActionId::PatternPitchUp,
                    Duration::from_millis(100),
                    now,
                ) {
                    match *tracker.current_note() {
                        Some(n) => {
                            let mut note = n;
                            note.increase_pitch();
                            tracker.set_current_note(&Some(note));
                        },
                        None => {},
                    }
                }
            },
            Column::Instrument => {
                if timers.run_action_debounced(
                    ActionId::PatternInstrumentNext,
                    Duration::from_millis(200),
                    now,
                ) {
                    match *tracker.current_note() {
                        Some(n) => {
                            let mut note = n;
                            note.next_instrument();
                            tracker.set_current_note(&Some(note));
                        },
                        None => {},
                    }
                }
            },
        }
    } else if b2 {
        if timers.run_action_debounced(ActionId::NavNextScreen, Duration::from_millis(200), now) {
            match *tracker.current_note() {
                Some(note) => {
                    tracker.set_selected_instrument_index(note.instrument_index());
                },
                None => {},
            }
            go_to_instrument_screen(tracker, timers, inputs, nav, Screen::Pattern, now);
        }
    } else {
        if tracker.selected_column() == Column::Note {
            tracker.set_selected_column(Column::Instrument);
        }
    }
}

/// Left on the pattern screen: with the first button held, drop the
/// current note a semitone (note column) or move it to the previous
/// instrument (instrument column), debounced; with the second button
/// held, navigate to the song screen (debounced); otherwise move the
/// cursor from the instrument column to the note column.
pub fn on_button_left_press(
    tracker: &mut Tracker,
    timers: &mut Timers,
    inputs: &mut Inputs,
    nav: &mut Navigation,
    gamepad: u8,
    now: Winstant,
)
    requires
        old(tracker).wf(),
        old(timers).wf(),
    ensures
        final (tracker).wf(),
        final (timers).wf(),
        ({
            let b1 = spec_button1_held(gamepad);
            let b2 = spec_button2_held(gamepad);
            let t0 = *old(tracker);
            let t1 = *final (tracker);
            if b1 {
                let (action, interval) = if t0.selected_column == Column::Note {
                    (ActionId::PatternPitchDown, Duration(100))
                } else {
                    (ActionId::PatternInstrumentPrev, Duration(200))
                };
                &&& spec_debounced_to(*old(timers), *final (timers), action, interval, now)
                &&& if spec_debounce_fires(
                    old(timers).spec_last_call(action),
                    interval,
                    now,
                ) {
                    match t0.spec_current_note() {
                        Some(n) => spec_current_note_set(
                            t0,
                            t1,
                            Some(
                                if t0.selected_column == Column::Note {
                                    n.spec_pitch_down()
                                } else {
                                    n.spec_prev_instrument()
                                },
                            ),
                        ),
                        None => t1 == t0,
                    }
                } else {
                    t1 == t0
                }
                &&& final (inputs).handlers == old(inputs).handlers
                &&& final (nav).active == old(nav).active
            } else if b2 {
                let fires = spec_debounce_fires(
                    old(timers).spec_last_call(ActionId::NavPrevScreen),
                    Duration(200),
                    now,
                );
                &&& final (timers).last_calls@ == (if fires {
                    old(timers).last_calls@.update(ActionId::NavPrevScreen.spec_index(), Some(now))
                } else {
                    old(timers).last_calls@
                })
                &&& if fires {
                    &&& t1 == (Tracker {
                        screens: crate::screen::Screens::Transition(
                            Screen::Pattern,
                            Screen::Song,
                            0,
                        ),
                        ..t0
                    })
                    &&& final (timers).intervals@ == spec_transition_intervals(
                        *old(timers),
                        old(nav).active,
                        old(nav).next_id,
                    )
                    &&& final (inputs).handlers@ == crate::song::spec_song_screen_bindings()
                    &&& final (nav).active == Some(
                        ActiveTransition {
                            id: old(nav).next_id,
                            from: Screen::Pattern,
                            to: Screen::Song,
                            start: now,
                        },
                    )
                } else {
                    &&& t1 == t0
                    &&& final (timers).intervals == old(timers).intervals
                    &&& final (inputs).handlers == old(inputs).handlers
                    &&& final (nav).active == old(nav).active
                }
            } else {
                &&& *final (timers) == *old(timers)
                &&& t1 == (if t0.selected_column == Column::Instrument {
                    (Tracker { selected_column: Column::Note, ..t0 })
                } else {
                    t0
                })
                &&& final (inputs).handlers == old(inputs).handlers
                &&& final (nav).active == old(nav).active
            }
        }),
{
    let b1 = inputs_button1(gamepad);
    let b2 = inputs_button2(gamepad);
    if b1 {
        match tracker.selected_column() {
            Column::Note => {
                if timers.run_action_debounced(
                    ActionId::PatternPitchDown,
                    Duration::from_millis(100),
                    now,
                ) {
                    match *tracker.current_note() {
                        Some(n) => {
                            let mut note = n;
                            note.decrease_pitch();
                            tracker.set_current_note(&Some(note));
                        },
                        None => {},
                    }
                }
            },
            Column::Instrument => {
                if timers.run_action_debounced(
                    ActionId::PatternInstrumentPrev,
                    Duration::from_millis(200),
                    now,
                ) {
                    match *tracker.current_note() {
                        Some(n) => {
                            let mut note = n;
                            note.prev_instrument();
                            tracker.set_current_note(&Some(note));
                        },
                        None => {},
                    }
                }
            },
        }
    } else if b2 {
        if timers.run_action_debounced(ActionId::NavPrevScreen, Duration::from_millis(200), now) {
            go_to_song_screen(tracker, timers, inputs, nav, Screen::Pattern, now);
        }
    } else {
        if tracker.selected_column() == Column::Instrument {
            tracker.set_selected_column(Column::Note);
        }
    }
}

fn inputs_button1(gamepad: u8) -> (r: bool)
    ensures
        r == spec_button1_held(gamepad),
{
    gamepad & crate::inputs::BUTTON_1 != 0
}

fn inputs_button2(gamepad: u8) -> (r: bool)
    ensures
        r == spec_button2_held(gamepad),
{
    gamepad & crate::inputs::BUTTON_2 != 0
}

} // verus!
