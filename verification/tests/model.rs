use tracker_core::channel::Channel;
use tracker_core::instrument::{DutyCycle, Instrument};
use tracker_core::notes::{note_freq, note_from_string, note_to_render};
use tracker_core::tracker::{Note, Row};

#[test]
fn pitch_clamps_at_top() {
    let mut note = Note { index: 107, instrument: 0 };
    for _ in 0..5 {
        note.increase_pitch();
    }
    assert_eq!(note.note_index(), 107);
}

#[test]
fn pitch_clamps_at_bottom() {
    let mut note = Note { index: 0, instrument: 0 };
    for _ in 0..5 {
        note.decrease_pitch();
    }
    assert_eq!(note.note_index(), 0);
}

#[test]
fn octave_up_clamps_near_top() {
    // Any index within an octave of the top clamps to the last entry.
    let mut note = Note { index: 100, instrument: 0 };
    note.increase_octave();
    assert_eq!(note.note_index(), 107);
    let mut low = Note { index: 36, instrument: 0 };
    low.increase_octave();
    assert_eq!(low.note_index(), 48);
}

#[test]
fn octave_down_clamps_near_bottom() {
    let mut note = Note { index: 7, instrument: 0 };
    note.decrease_octave();
    assert_eq!(note.note_index(), 0);
    let mut mid = Note { index: 48, instrument: 0 };
    mid.decrease_octave();
    assert_eq!(mid.note_index(), 36);
}

#[test]
fn instrument_selection_clamps() {
    let mut note = Note::new();
    assert_eq!(note.instrument_index(), 0);
    note.prev_instrument();
    assert_eq!(note.instrument_index(), 0);
    for _ in 0..40 {
        note.next_instrument();
    }
    assert_eq!(note.instrument_index(), 31);
}

#[test]
fn fresh_note_is_c3() {
    let note = Note::new();
    assert_eq!(note.note_index(), 36);
    assert_eq!(note_freq(note.note_index()), 131);
}

#[test]
fn volume_update_clamps_above() {
    let mut inst = Instrument::new(DutyCycle::Eighth, 0, 0, 0, 0, 50, 50);
    inst.update_volume(|_| 200);
    assert_eq!(inst.volume(), 100);
    inst.update_peak(|_| 255);
    assert_eq!(inst.peak(), 100);
}

#[test]
fn volume_update_saturates_below() {
    let mut inst = Instrument::new(DutyCycle::Eighth, 0, 0, 0, 0, 5, 5);
    inst.update_volume(|v| v.saturating_sub(16));
    assert_eq!(inst.volume(), 0);
    inst.update_peak(|v| v.saturating_sub(16));
    assert_eq!(inst.peak(), 0);
}

#[test]
fn envelope_updates_saturate() {
    let mut inst = Instrument::new(DutyCycle::Eighth, 250, 1, 0, 0, 0, 0);
    inst.update_attack(|a| a.saturating_add(16));
    assert_eq!(inst.attack(), 255);
    inst.update_decay(|d| d.saturating_sub(16));
    assert_eq!(inst.decay(), 0);
}

#[test]
fn new_instrument_clamps_amplitudes() {
    let inst = Instrument::new(DutyCycle::Half, 1, 2, 3, 4, 200, 180);
    assert_eq!(inst.volume(), 100);
    assert_eq!(inst.peak(), 100);
    assert_eq!(inst.attack(), 1);
}

#[test]
fn duration_word_packs_envelope() {
    let inst = Instrument::new(DutyCycle::Eighth, 0x01, 0x02, 0x03, 0x04, 0, 0);
    assert_eq!(inst.get_duration(), 0x0102_0003 | 0x0400);
    let default_like = Instrument::new(DutyCycle::Eighth, 0, 0, 0x0f, 0x0f, 100, 0);
    assert_eq!(default_like.get_duration(), 0x0f0f);
}

#[test]
fn volume_word_packs_peak_and_volume() {
    let inst = Instrument::new(DutyCycle::Eighth, 0, 0, 0, 0, 100, 0);
    assert_eq!(inst.get_volume(), 100);
    let loud = Instrument::new(DutyCycle::Eighth, 0, 0, 0, 0, 25, 80);
    assert_eq!(loud.get_volume(), (80 << 8) | 25);
}

#[test]
fn duty_cycle_steps_clamp() {
    assert!(matches!(DutyCycle::Eighth.next(), DutyCycle::Fourth));
    assert!(matches!(DutyCycle::ThreeFourth.next(), DutyCycle::ThreeFourth));
    assert!(matches!(DutyCycle::Eighth.prev(), DutyCycle::Eighth));
    assert!(matches!(DutyCycle::Half.prev(), DutyCycle::Fourth));
}

#[test]
fn duty_cycle_flags() {
    assert_eq!(DutyCycle::Eighth.to_flag(), 0);
    assert_eq!(DutyCycle::Fourth.to_flag(), 4);
    assert_eq!(DutyCycle::Half.to_flag(), 8);
    assert_eq!(DutyCycle::ThreeFourth.to_flag(), 12);
}

#[test]
fn channel_order_clamps_at_ends() {
    assert_eq!(Channel::Pulse1.next(), Channel::Pulse2);
    assert_eq!(Channel::Noise.next(), Channel::Noise);
    assert_eq!(Channel::Pulse1.prev(), Channel::Pulse1);
    assert_eq!(Channel::Noise.prev(), Channel::Triangle);
    assert_eq!(
        Channel::iterator(),
        vec![Channel::Pulse1, Channel::Pulse2, Channel::Triangle, Channel::Noise]
    );
}

#[test]
fn row_channel_values_clamp() {
    let mut row = Row { pulse1: Some(0), pulse2: Some(15), triangle: None, noise: Some(3) };
    row.decrement_channel_value(&Channel::Pulse1);
    assert_eq!(row.pulse1, Some(0));
    row.increment_channel_value(&Channel::Pulse2);
    assert_eq!(row.pulse2, Some(15));
    row.increment_channel_value(&Channel::Triangle);
    assert_eq!(row.triangle, None);
    row.increment_channel_value(&Channel::Noise);
    assert_eq!(row.noise, Some(4));
    row.set_channel_value(&Channel::Triangle, Some(2));
    assert_eq!(*row.channel(&Channel::Triangle), Some(2));
}

#[test]
fn parses_note_names() {
    assert_eq!(note_from_string("C0"), Some(0));
    assert_eq!(note_from_string("C3"), Some(36));
    assert_eq!(note_from_string("C#3"), Some(37));
    assert_eq!(note_from_string("A4"), Some(57));
    assert_eq!(note_from_string("B8"), Some(107));
    assert_eq!(note_from_string("H3"), None);
    assert_eq!(note_from_string("C9"), None);
    assert_eq!(note_from_string("C"), None);
    assert_eq!(note_from_string(""), None);
}

#[test]
fn renders_note_names() {
    assert_eq!(note_to_render(36), "C-3");
    assert_eq!(note_to_render(37), "C#3");
    assert_eq!(note_to_render(0), "C-0");
    assert_eq!(note_to_render(107), "B-8");
}

#[test]
fn pitch_table_endpoints() {
    assert_eq!(note_freq(0), 16);
    assert_eq!(note_freq(57), 440);
    assert_eq!(note_freq(107), 7902);
}

#[test]
fn channel_mut_edits_one_slot() {
    let mut row = Row { pulse1: None, pulse2: Some(1), triangle: None, noise: None };
    *row.channel_mut(&Channel::Pulse1) = Some(7);
    assert_eq!(row.pulse1, Some(7));
    assert_eq!(row.pulse2, Some(1));
}
