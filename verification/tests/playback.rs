use tracker_core::channel::Channel;
use tracker_core::instrument::InstrumentInput;
use tracker_core::tracker::{Note, PlayMode, Tracker};

#[test]
fn pattern_playback_emits_first_step_once() {
    let mut t = Tracker::new();
    t.set_current_note(&Some(Note { index: 36, instrument: 0 }));
    t.toggle_play(PlayMode::Pattern);

    // The very first frame after toggling plays step 0: pitch C3 with the
    // default envelope's packed words, on the selected channel (Pulse1,
    // flag 0) with the default duty cycle (flag 0).
    let tones = t.update();
    assert_eq!(tones.len(), 1);
    assert_eq!(tones[0].frequency, 131);
    assert_eq!(tones[0].duration, 0x0f0f);
    assert_eq!(tones[0].volume, 100);
    assert_eq!(tones[0].flags, 0);

    // The next 7 frames stay inside tick 0 and emit nothing.
    for _ in 0..7 {
        assert!(t.update().is_empty());
    }
    // The 8th subsequent frame starts tick 1, whose step is empty.
    assert!(t.update().is_empty());
    assert_eq!(t.tick(), 1);
}

#[test]
fn idle_update_emits_nothing() {
    let mut t = Tracker::new();
    t.set_current_note(&Some(Note { index: 36, instrument: 0 }));
    for _ in 0..32 {
        assert!(t.update().is_empty());
    }
    assert_eq!(t.tick(), 0);
}

#[test]
fn toggle_play_rewinds_and_toggles_back_to_idle() {
    let mut t = Tracker::new();
    t.toggle_play(PlayMode::Pattern);
    assert_eq!(*t.play_mode(), PlayMode::Pattern);
    for _ in 0..20 {
        t.update();
    }
    assert_ne!(t.tick(), 0);
    // Toggling while playing always stops, whatever mode is requested.
    t.toggle_play(PlayMode::Song);
    assert_eq!(*t.play_mode(), PlayMode::Idle);
    t.toggle_play(PlayMode::Song);
    assert_eq!(*t.play_mode(), PlayMode::Song);
    assert_eq!(t.tick(), 0);
    assert_eq!(t.song_tick(), 0);
}

#[test]
fn song_mode_plays_all_channels_of_a_row() {
    let mut t = Tracker::new();
    // Pattern 0 step 0 and pattern 1 step 0 hold notes.
    t.set_selected_pattern(0);
    t.set_current_note(&Some(Note { index: 36, instrument: 0 }));
    t.set_selected_pattern(1);
    t.set_current_note(&Some(Note { index: 48, instrument: 0 }));
    {
        let song = t.song_mut();
        song[0].set_channel_value(&Channel::Pulse1, Some(0));
        song[0].set_channel_value(&Channel::Triangle, Some(1));
    }
    t.toggle_play(PlayMode::Song);
    let tones = t.update();
    assert_eq!(tones.len(), 2);
    // Channel order is fixed: pulse1 then triangle.
    assert_eq!(tones[0].frequency, 131);
    assert_eq!(tones[0].flags, 0);
    assert_eq!(tones[1].frequency, 262);
    assert_eq!(tones[1].flags, 2);
}

#[test]
fn song_loops_after_full_pass() {
    let mut t = Tracker::new();
    t.toggle_play(PlayMode::Song);
    // 4 rows x 16 ticks x 8 frames of continuous song playback return the
    // song row counter to 0.
    for frame in 0..(4 * 16 * 8) {
        assert_eq!(t.song_tick(), (frame / (16 * 8)) % 4);
        t.update();
    }
    assert_eq!(t.song_tick(), 0);
    assert_eq!(t.tick(), 0);
}

#[test]
fn song_row_advances_every_sixteen_ticks() {
    let mut t = Tracker::new();
    t.toggle_play(PlayMode::Song);
    for _ in 0..(16 * 8) {
        t.update();
    }
    assert_eq!(t.song_tick(), 1);
    for _ in 0..(16 * 8) {
        t.update();
    }
    assert_eq!(t.song_tick(), 2);
}

#[test]
fn note_at_reads_selected_pattern() {
    let mut t = Tracker::new();
    t.set_current_note(&Some(Note { index: 40, instrument: 7 }));
    assert_eq!(t.note_at(0).unwrap().note_index(), 40);
    assert!(t.note_at(1).is_none());
    assert!(t.note_at(99).is_none());
    t.set_selected_pattern(3);
    assert!(t.note_at(0).is_none());
}

#[test]
fn cursor_clamps_at_pattern_ends() {
    let mut t = Tracker::new();
    t.saturating_decrease_cursor_tick();
    assert_eq!(t.cursor_tick(), 0);
    for _ in 0..40 {
        t.saturating_increase_cursor_tick();
    }
    assert_eq!(t.cursor_tick(), 15);
}

#[test]
fn song_cursor_clamps_at_song_ends() {
    let mut t = Tracker::new();
    t.prev_row_song_cursor();
    assert_eq!(t.song_cursor_row(), 0);
    for _ in 0..10 {
        t.next_row_song_cursor();
    }
    assert_eq!(t.song_cursor_row(), 3);
}

#[test]
fn instrument_focus_walks_all_fields() {
    let mut t = Tracker::new();
    assert_eq!(t.instrument_focus(), InstrumentInput::DutyCycle);
    let expected = [
        InstrumentInput::Attack,
        InstrumentInput::Decay,
        InstrumentInput::Sustain,
        InstrumentInput::Release,
        InstrumentInput::Volume,
        InstrumentInput::Peak,
        InstrumentInput::Peak,
    ];
    for want in expected {
        t.instrument_focus_next();
        assert_eq!(t.instrument_focus(), want);
    }
    t.instrument_focus_prev();
    assert_eq!(t.instrument_focus(), InstrumentInput::Volume);
}

#[test]
fn channel_selection_moves_through_lanes() {
    let mut t = Tracker::new();
    assert_eq!(*t.selected_channel(), Channel::Pulse1);
    t.next_channel();
    t.next_channel();
    assert_eq!(*t.selected_channel(), Channel::Triangle);
    t.prev_channel();
    assert_eq!(*t.selected_channel(), Channel::Pulse2);
}

#[test]
fn update_current_note_applies_function() {
    let mut t = Tracker::new();
    t.set_current_note(&Some(Note { index: 36, instrument: 0 }));
    t.update_current_note(|n| {
        n.map(|mut note| {
            note.increase_pitch();
            note
        })
    });
    assert_eq!(t.current_note().unwrap().note_index(), 37);
    t.update_current_note(|_| None);
    assert!(t.current_note().is_none());
}

#[test]
fn current_note_mut_edits_in_place() {
    let mut t = Tracker::new();
    t.set_current_note(&Some(Note { index: 36, instrument: 0 }));
    if let Some(note) = t.current_note_mut() {
        note.increase_octave();
    }
    assert_eq!(t.current_note().unwrap().note_index(), 48);
}
