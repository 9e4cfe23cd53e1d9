use tracker_core::channel::Channel;
use tracker_core::instrument::{DutyCycle, Instrument};
use tracker_core::screen::{Screen, Screens};
use tracker_core::tracker::{Column, Note, PlayMode, Tracker, STORED_SIZE};

fn populated_tracker() -> Tracker {
    let mut t = Tracker::new();
    // Some notes set, some steps left empty, across two patterns.
    t.set_selected_pattern(0);
    t.set_current_note(&Some(Note { index: 36, instrument: 0 }));
    t.saturating_increase_cursor_tick();
    t.set_current_note(&Some(Note { index: 48, instrument: 3 }));
    t.set_selected_pattern(5);
    t.saturating_increase_cursor_tick();
    t.set_current_note(&Some(Note { index: 107, instrument: 31 }));
    // Instruments with non-default envelopes.
    {
        t.set_selected_instrument_index(0);
        let inst = t.selected_instrument_mut();
        *inst = Instrument::new(DutyCycle::Half, 0x10, 0x20, 0x30, 0x40, 77, 88);
    }
    {
        t.set_selected_instrument_index(31);
        let inst = t.selected_instrument_mut();
        *inst = Instrument::new(DutyCycle::ThreeFourth, 1, 2, 3, 4, 5, 6);
    }
    // Song rows with mixed assigned/unassigned channels.
    {
        let song = t.song_mut();
        song[0].set_channel_value(&Channel::Pulse1, Some(0));
        song[0].set_channel_value(&Channel::Triangle, Some(5));
        song[2].set_channel_value(&Channel::Noise, Some(15));
    }
    t
}

#[test]
fn round_trip_reproduces_everything() {
    let t = populated_tracker();
    let bytes = t.persist();
    assert_eq!(bytes.len(), STORED_SIZE);
    let r = Tracker::restore(&bytes);

    // Every pattern step.
    for p in 0..16 {
        let mut a = t.clone();
        let mut b = r.clone();
        a.set_selected_pattern(p);
        b.set_selected_pattern(p);
        for s in 0..16 {
            match (a.note_at(s), b.note_at(s)) {
                (None, None) => {}
                (Some(x), Some(y)) => {
                    assert_eq!(x.note_index(), y.note_index());
                    assert_eq!(x.instrument_index(), y.instrument_index());
                }
                _ => panic!("pattern {} step {} did not round-trip", p, s),
            }
        }
    }
    // Every instrument field.
    for i in 0..32 {
        let mut a = t.clone();
        let mut b = r.clone();
        a.set_selected_instrument_index(i);
        b.set_selected_instrument_index(i);
        let x = *a.selected_instrument();
        let y = *b.selected_instrument();
        assert_eq!(x, y);
    }
    // Every song-row channel assignment.
    for row in 0..4 {
        assert_eq!(t.song()[row], r.song()[row]);
    }
}

#[test]
fn restored_tracker_starts_idle_on_pattern_screen() {
    let t = populated_tracker();
    let bytes = t.persist();
    let r = Tracker::restore(&bytes);
    assert_eq!(*r.play_mode(), PlayMode::Idle);
    assert_eq!(*r.screens(), Screens::Single(Screen::Pattern));
    assert_eq!(r.cursor_tick(), 0);
    assert_eq!(r.selected_pattern(), 0);
    assert_eq!(r.selected_column(), Column::Note);
}

#[test]
fn version_mismatch_discards_data() {
    let t = populated_tracker();
    let mut bytes = t.persist();
    bytes[0] = 99;
    let r = Tracker::restore(&bytes);
    // A fresh tracker: every step empty, every row unassigned.
    let mut fresh_check = r.clone();
    for p in 0..16 {
        fresh_check.set_selected_pattern(p);
        for s in 0..16 {
            assert!(fresh_check.note_at(s).is_none());
        }
    }
    for row in 0..4 {
        assert!(r.song()[row].channel(&Channel::Pulse1).is_none());
        assert!(r.song()[row].channel(&Channel::Noise).is_none());
    }
}

#[test]
fn layout_is_fixed_and_versioned() {
    let t = populated_tracker();
    let bytes = t.persist();
    assert_eq!(bytes[0], 1);
    // Song section: row 0 is pulse1=0, pulse2=none, triangle=5, noise=none.
    assert_eq!(&bytes[1..5], &[0, 255, 5, 255]);
    // Row 1 is fully unassigned.
    assert_eq!(&bytes[5..9], &[255, 255, 255, 255]);
    // Row 2 assigns only noise.
    assert_eq!(&bytes[9..13], &[255, 255, 255, 15]);
}

#[test]
fn instrument_bytes_interleave_release_before_sustain() {
    let inst = Instrument::new(DutyCycle::Half, 0x10, 0x20, 0x30, 0x40, 77, 88);
    let bytes = inst.to_bytes(1);
    // duty code, attack, decay, then release *before* sustain, volume, peak.
    assert_eq!(bytes, vec![2, 0x10, 0x20, 0x40, 0x30, 77, 88]);
    let back = Instrument::from_bytes((bytes[0], bytes[1], bytes[2], bytes[4], bytes[3], bytes[5], bytes[6]));
    assert_eq!(back, inst);
}

#[test]
fn instrument_decode_tolerates_junk() {
    // An unknown duty code falls back to the narrowest duty cycle, and
    // out-of-range amplitudes clamp.
    let inst = Instrument::from_bytes((9, 1, 2, 3, 4, 250, 251));
    assert!(matches!(inst.duty_cycle(), DutyCycle::Eighth));
    assert_eq!(inst.volume(), 100);
    assert_eq!(inst.peak(), 100);
}

#[test]
fn note_sentinel_encodes_empty_step() {
    let t = Tracker::new();
    let bytes = t.persist();
    // The pattern section starts at byte 241; a fresh tracker holds only
    // empty steps, each the sentinel pair.
    assert_eq!(&bytes[241..245], &[255, 255, 255, 255]);
    let note = Note { index: 36, instrument: 2 };
    assert_eq!(note.to_bytes(), (36, 2));
}

#[test]
fn row_to_bytes_uses_channel_order() {
    let row = tracker_core::tracker::Row {
        pulse1: Some(1),
        pulse2: None,
        triangle: Some(2),
        noise: Some(3),
    };
    assert_eq!(row.to_bytes(1), vec![1, 255, 2, 3]);
}
