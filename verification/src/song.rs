//! The song screen's input handlers: assigning patterns to the song
//! arrangement's rows and channels, moving the song cursor, selecting the
//! channel lane, toggling song playback, and navigating to the pattern
//! screen.

use vstd::prelude::*;

use crate::inputs::{
    spec_button1_held, spec_button2_held, Binding, Command, InputEvent, Inputs,
};
use crate::navigation::{
    go_to_pattern_screen, spec_transition_intervals, ActiveTransition, Navigation,
};
use crate::screen::Screen;
use crate::timers::{spec_debounce_fires, spec_debounced_to, ActionId, Timers};
use crate::tracker::{spec_song_row_set, PlayMode, Tracker, MAX_PATTERNS};
use crate::wtime::{Duration, Winstant};

verus! {

/// The dispatch list the song screen installs.
pub open spec fn spec_song_screen_bindings() -> Seq<Binding> {
    seq![
        Binding { event: InputEvent::ButtonDownPress, command: Command::SongButtonDown },
        Binding { event: InputEvent::ButtonUpPress, command: Command::SongButtonUp },
        Binding { event: InputEvent::ButtonLeftPress, command: Command::SongButtonLeft },
        Binding { event: InputEvent::ButtonRightPress, command: Command::SongButtonRight },
        Binding { event: InputEvent::Button1Press, command: Command::SongButton1 },
    ]
}

/// Appends the song screen's bindings to the dispatch list.
pub fn add_song_screen_handlers(inputs: &mut Inputs)
    ensures
        final (inputs).handlers@ == old(inputs).handlers@ + spec_song_screen_bindings(),
        final (inputs).last_fire_button1 == old(inputs).last_fire_button1,
        final (inputs).double_press_activated == old(inputs).double_press_activated,
{
    inputs.listen(InputEvent::ButtonDownPress, Command::SongButtonDown);
    inputs.listen(InputEvent::ButtonUpPress, Command::SongButtonUp);
    inputs.listen(InputEvent::ButtonLeftPress, Command::SongButtonLeft);
    inputs.listen(InputEvent::ButtonRightPress, Command::SongButtonRight);
    inputs.listen(InputEvent::Button1Press, Command::SongButton1);
    proof {
        assert(final (inputs).handlers@ =~= old(inputs).handlers@ + spec_song_screen_bindings());
    }
}


fn held_button1(gamepad: u8) -> (r: bool)
    ensures
        r == spec_button1_held(gamepad),
{
    gamepad & crate::inputs::BUTTON_1 != 0
}

fn held_button2(gamepad: u8) -> (r: bool)
    ensures
        r == spec_button2_held(gamepad),
{
    gamepad & crate::inputs::BUTTON_2 != 0
}

/// Down on the song screen: with the second button held, toggle song
/// playback (debounced); with the first button held, nothing; otherwise
/// move the song cursor a row down (debounced).
pub fn on_button_down_press(tracker: &mut Tracker, timers: &mut Timers, gamepad: u8, now: Winstant)
    requires
        old(tracker).wf(),
        old(timers).wf(),
    ensures
        final (tracker).wf(),
        final (timers).wf(),
        ({
            let b1 = spec_button1_held(gamepad);
            let b2 = spec_button2_held(gamepad);
            let t0 = *old(tracker);
            let t1 = *final (tracker);
            if b2 {
                &&& spec_debounced_to(
                    *old(timers),
                    *final (timers),
                    ActionId::Play,
                    Duration(200),
                    now,
                )
                &&& t1 == if spec_debounce_fires(
                    old(timers).spec_last_call(ActionId::Play),
                    Duration(200),
                    now,
                ) {
                    t0.spec_toggled(PlayMode::Song)
                } else {
                    t0
                }
            } else if b1 {
                &&& t1 == t0
                &&& *final (timers) == *old(timers)
            } else {
                &&& spec_debounced_to(
                    *old(timers),
                    *final (timers),
                    ActionId::SongNextRow,
                    Duration(200),
                    now,
                )
                &&& t1 == if spec_debounce_fires(
                    old(timers).spec_last_call(ActionId::SongNextRow),
                    Duration(200),
                    now,
                ) {
                    t0.spec_song_cursor_down()
                } else {
                    t0
                }
            }
        }),
{
    let b1 = held_button1(gamepad);
    let b2 = held_button2(gamepad);
    if b2 {
        if timers.run_action_debounced(ActionId::Play, Duration::from_millis(200), now) {
            tracker.toggle_play(PlayMode::Song);
        }
    } else if b1 {
    } else {
        if timers.run_action_debounced(ActionId::SongNextRow, Duration::from_millis(200), now) {
            tracker.next_row_song_cursor();
        }
    }
}

/// Up on the song screen: with the first button held, nothing; with the
/// second button held, request a save of the tracker (debounced, answered
/// true); otherwise move the song cursor a row up (debounced).
pub fn on_button_up_press(tracker: &mut Tracker, timers: &mut Timers, gamepad: u8, now: Winstant) -> (persist:
    bool)
    requires
        old(tracker).wf(),
        old(timers).wf(),
    ensures
        final (tracker).wf(),
        final (timers).wf(),
        ({
            let b1 = spec_button1_held(gamepad);
            let b2 = spec_button2_held(gamepad);
            let t0 = *old(tracker);
            let t1 = *final (tracker);
            if b1 {
                &&& t1 == t0
                &&& *final (timers) == *old(timers)
                &&& !persist
            } else if b2 {
                &&& spec_debounced_to(
                    *old(timers),
                    *final (timers),
                    ActionId::Persist,
                    Duration(1000),
                    now,
                )
                &&& t1 == t0
                &&& persist == spec_debounce_fires(
                    old(timers).spec_last_call(ActionId::Persist),
                    Duration(1000),
                    now,
                )
            } else {
                &&& spec_debounced_to(
                    *old(timers),
                    *final (timers),
                    ActionId::SongPrevRow,
                    Duration(200),
                    now,
                )
                &&& t1 == if spec_debounce_fires(
                    old(timers).spec_last_call(ActionId::SongPrevRow),
                    Duration(200),
                    now,
                ) {
                    t0.spec_song_cursor_up()
                } else {
                    t0
                }
                &&& !persist
            }
        }),
{
    let b1 = held_button1(gamepad);
    let b2 = held_button2(gamepad);
    if b1 {
        false
    } else if b2 {
        timers.run_action_debounced(ActionId::Persist, Duration::from_millis(1000), now)
    } else {
        if timers.run_action_debounced(ActionId::SongPrevRow, Duration::from_millis(200), now) {
            tracker.prev_row_song_cursor();
        }
        false
    }
}

/// Left on the song screen: with the second button held, nothing; with
/// the first button held, move the cursor row's selected-channel slot to
/// the previous pattern (debounced); otherwise select the previous
/// channel lane (debounced).
pub fn on_button_left_press(tracker: &mut Tracker, timers: &mut Timers, gamepad: u8, now: Winstant)
    requires
        old(tracker).wf(),
        old(timers).wf(),
    ensures
        final (tracker).wf(),
        final (timers).wf(),
        ({
            let b1 = spec_button1_held(gamepad);
            let b2 = spec_button2_held(gamepad);
            let t0 = *old(tracker);
            let t1 = *final (tracker);
            if b2 {
                &&& t1 == t0
                &&& *final (timers) == *old(timers)
            } else if b1 {
                &&& spec_debounced_to(
                    *old(timers),
                    *final (timers),
                    ActionId::SongDecrementPattern,
                    Duration(200),
                    now,
                )
                &&& if spec_debounce_fires(
                    old(timers).spec_last_call(ActionId::SongDecrementPattern),
                    Duration(200),
                    now,
                ) {
                    let row = t0.song@[t0.song_cursor_row_index as int];
                    spec_song_row_set(
                        t0,
                        t1,
                        row.spec_set_channel(
                            t0.selected_channel,
                            (match row.spec_channel(t0.selected_channel) {
                                Some(a) => Some(
                                    if a > 0 {
                                        (a - 1) as usize
                                    } else {
                                        0
                                    },
                                ),
                                None => None,
                            }),
                        ),
                    )
                } else {
                    t1 == t0
                }
            } else {
                &&& spec_debounced_to(
                    *old(timers),
                    *final (timers),
                    ActionId::SongPrevChannel,
                    Duration(200),
                    now,
                )
                &&& if spec_debounce_fires(
                    old(timers).spec_last_call(ActionId::SongPrevChannel),
                    Duration(200),
                    now,
                ) {
                    &&& t1.selected_channel.spec_rank() == (if t0.selected_channel.spec_rank()
                        > 0 {
                        t0.selected_channel.spec_rank() - 1
                    } else {
                        0int
                    })
                    &&& t1 == (Tracker { selected_channel: t1.selected_channel, ..t0 })
                } else {
                    t1 == t0
                }
            }
        }),
{
    let b1 = held_button1(gamepad);
    let b2 = held_button2(gamepad);
    if b2 {
    } else if b1 {
        if timers.run_action_debounced(
            ActionId::SongDecrementPattern,
            Duration::from_millis(200),
            now,
        ) {
            let idx = tracker.song_cursor_row();
            let ch = *tracker.selected_channel();
            let song = tracker.song_mut();
            let mut row = song[idx];
            row.decrement_channel_value(&ch);
            song[idx] = row;
        }
    } else {
        if timers.run_action_debounced(ActionId::SongPrevChannel, Duration::from_millis(200), now) {
            tracker.prev_channel();
        }
    }
}

/// Right on the song screen: with the second button held, select the
/// cursor row's assigned pattern on the selected channel (the first
/// pattern when none is assigned) and navigate to the pattern screen
/// (debounced); with the first button held, move that slot to the next
/// pattern (debounced); otherwise select the next channel lane
/// (debounced).
pub fn on_button_right_press(
    tracker: &mut Tracker,
    timers: &mut Timers,
    inputs: &mut Inputs,
    nav: &mut Navigation,
    gamepad: u8,
    now: Winstant,
)
    requires
        old(tracker).wf(),
        old(timers).wf(),
    ensures
        final (tracker).wf(),
        final (timers).wf(),
        ({
            let b1 = spec_button1_held(gamepad);
            let b2 = spec_button2_held(gamepad);
            let t0 = *old(tracker);
            let t1 = *final (tracker);
            if b2 {
                let fires = spec_debounce_fires(
                    old(timers).spec_last_call(ActionId::NavNextScreen),
                    Duration(200),
                    now,
                );
                &&& final (timers).last_calls@ == (if fires {
                    old(timers).last_calls@.update(ActionId::NavNextScreen.spec_index(), Some(now))
                } else {
                    old(timers).last_calls@
                })
                &&& if fires {
                    let selected = (match t0.song@[t0.song_cursor_row_index as int].spec_channel(
                        t0.selected_channel,
                    ) {
                        Some(p) => p,
                        None => 0,
                    });
                    &&& t1 == (Tracker {
                        selected_pattern: selected,
                        screens: crate::screen::Screens::Transition(
                            Screen::Song,
                            Screen::Pattern,
                            0,
                        ),
                        ..t0
                    })
                    &&& final (timers).intervals@ == spec_transition_intervals(
                        *old(timers),
                        old(nav).active,
                        old(nav).next_id,
                    )
                    &&& final (inputs).handlers@ == crate::pattern::spec_pattern_screen_bindings()
                    &&& final (nav).active == Some(
                        ActiveTransition {
                            id: old(nav).next_id,
                            from: Screen::Song,
                            to: Screen::Pattern,
                            start: now,
                        },
                    )
                } else {
                    &&& t1 == t0
                    &&& final (timers).intervals == old(timers).intervals
                    &&& final (inputs).handlers == old(inputs).handlers
                    &&& final (nav).active == old(nav).active
                }
            } else if b1 {
                &&& spec_debounced_to(
                    *old(timers),
                    *final (timers),
                    ActionId::SongIncrementPattern,
                    Duration(200),
                    now,
                )
                &&& if spec_debounce_fires(
                    old(timers).spec_last_call(ActionId::SongIncrementPattern),
                    Duration(200),
                    now,
                ) {
                    let row = t0.song@[t0.song_cursor_row_index as int];
                    spec_song_row_set(
                        t0,
                        t1,
                        row.spec_set_channel(
                            t0.selected_channel,
                            (match row.spec_channel(t0.selected_channel) {
                                Some(a) => Some(
                                    if a < MAX_PATTERNS - 1 {
                                        (a + 1) as usize
                                    } else {
                                        a
                                    },
                                ),
                                None => None,
                            }),
                        ),
                    )
                } else {
                    t1 == t0
                }
                &&& final (inputs).handlers == old(inputs).handlers
                &&& final (nav).active == old(nav).active
            } else {
                &&& spec_debounced_to(
                    *old(timers),
                    *final (timers),
                    ActionId::SongNextChannel,
                    Duration(200),
                    now,
                )
                &&& if spec_debounce_fires(
                    old(timers).spec_last_call(ActionId::SongNextChannel),
                    Duration(200),
                    now,
                ) {
                    &&& t1.selected_channel.spec_rank() == (if t0.selected_channel.spec_rank()
                        < 3 {
                        t0.selected_channel.spec_rank() + 1
                    } else {
                        3int
                    })
                    &&& t1 == (Tracker { selected_channel: t1.selected_channel, ..t0 })
                } else {
                    t1 == t0
                }
                &&& final (inputs).handlers == old(inputs).handlers
                &&& final (nav).active == old(nav).active
            }
        }),
{
    let b1 = held_button1(gamepad);
    let b2 = held_button2(gamepad);
    if b2 {
        if timers.run_action_debounced(ActionId::NavNextScreen, Duration::from_millis(200), now) {
            let idx = tracker.song_cursor_row();
            let ch = *tracker.selected_channel();
            let selected = match *tracker.song()[idx].channel(&ch) {
                Some(p) => p,
                None => 0,
            };
            tracker.set_selected_pattern(selected);
            go_to_pattern_screen(tracker, timers, inputs, nav, Screen::Song, now);
        }
    } else if b1 {
        if timers.run_action_debounced(
            ActionId::SongIncrementPattern,
            Duration::from_millis(200),
            now,
        ) {
            let idx = tracker.song_cursor_row();
            let ch = *tracker.selected_channel();
            let song = tracker.song_mut();
            let mut row = song[idx];
            row.increment_channel_value(&ch);
            song[idx] = row;
        }
    } else {
        if timers.run_action_debounced(ActionId::SongNextChannel, Duration::from_millis(200), now) {
            tracker.next_channel();
        }
    }
}

/// The first button on the song screen: when the cursor row's
/// selected-channel slot is empty, assign the first pattern to it
/// (debounced).
pub fn on_button_1_press(tracker: &mut Tracker, timers: &mut Timers, now: Winstant)
    requires
        old(tracker).wf(),
        old(timers).wf(),
    ensures
        final (tracker).wf(),
        final (timers).wf(),
        spec_debounced_to(*old(timers), *final (timers), ActionId::SongAddPattern, Duration(200), now),
        ({
            let t0 = *old(tracker);
            let t1 = *final (tracker);
            if spec_debounce_fires(
                old(timers).spec_last_call(ActionId::SongAddPattern),
                Duration(200),
                now,
            ) {
                let row = t0.song@[t0.song_cursor_row_index as int];
                match row.spec_channel(t0.selected_channel) {
                    None => spec_song_row_set(
                        t0,
                        t1,
                        row.spec_set_channel(t0.selected_channel, Some(0)),
                    ),
                    Some(_) => t1 == t0,
                }
            } else {
                t1 == t0
            }
        }),
{
    if timers.run_action_debounced(ActionId::SongAddPattern, Duration::from_millis(200), now) {
        let idx = tracker.song_cursor_row();
        let ch = *tracker.selected_channel();
        let has_pattern = match *tracker.song()[idx].channel(&ch) {
            Some(_) => true,
            None => false,
        };
        if !has_pattern {
            let song = tracker.song_mut();
            let mut row = song[idx];
            row.set_channel_value(&ch, Some(0));
            song[idx] = row;
        }
    }
}

} // verus!
