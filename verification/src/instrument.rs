//! Instruments: an ADSR-style envelope plus a pulse duty cycle. Volume and
//! peak are clamped to 0..=100; the other envelope fields saturate. An
//! instrument encodes to a fixed 7-byte record for persistence and to the
//! packed duration/volume words the tone sink consumes.

use vstd::prelude::*;

verus! {

pub const MAX_INSTRUMENTS: usize = 0x20;

pub const MAX_VOLUME: u8 = 0x64;

pub const MAX_PEAK: u8 = 0x64;

/// Tone-sink flag: pulse duty cycle of one eighth.
pub const TONE_MODE1: u32 = 0;

/// Tone-sink flag: pulse duty cycle of one fourth.
pub const TONE_MODE2: u32 = 4;

/// Tone-sink flag: pulse duty cycle of one half.
pub const TONE_MODE3: u32 = 8;

/// Tone-sink flag: pulse duty cycle of three fourths.
pub const TONE_MODE4: u32 = 12;

#[derive(Clone, Copy, PartialEq, Eq, Structural, Debug)]
pub enum DutyCycle {
    Eighth,
    Fourth,
    Half,
    ThreeFourth,
}

impl DutyCycle {
    /// The mode flag the tone sink expects for this duty cycle.
    pub open spec fn spec_flag(self) -> u32 {
        match self {
            DutyCycle::Eighth => TONE_MODE1,
            DutyCycle::Fourth => TONE_MODE2,
            DutyCycle::Half => TONE_MODE3,
            DutyCycle::ThreeFourth => TONE_MODE4,
        }
    }

    /// The persisted code of this duty cycle.
    pub open spec fn spec_code(self) -> u8 {
        match self {
            DutyCycle::Eighth => 0,
            DutyCycle::Fourth => 1,
            DutyCycle::Half => 2,
            DutyCycle::ThreeFourth => 3,
        }
    }

    /// The duty cycle a persisted code decodes to; an unknown code falls
    /// back to the narrowest duty cycle.
    pub open spec fn spec_from_code(code: u8) -> DutyCycle {
        match code {
            0u8 => DutyCycle::Eighth,
            1u8 => DutyCycle::Fourth,
            2u8 => DutyCycle::Half,
            3u8 => DutyCycle::ThreeFourth,
            _ => DutyCycle::Eighth,
        }
    }

    pub fn to_flag(&self) -> (r: u32)
        ensures
            r == self.spec_flag(),
    {
        match self {
            Self::Eighth => TONE_MODE1,
            Self::Fourth => TONE_MODE2,
            Self::Half => TONE_MODE3,
            Self::ThreeFourth => TONE_MODE4,
        }
    }

    /// The next wider duty cycle; the widest stays put.
    pub fn next(&self) -> (r: Self)
        ensures
            r == (match *self {
                DutyCycle::Eighth => DutyCycle::Fourth,
                DutyCycle::Fourth => DutyCycle::Half,
                DutyCycle::Half => DutyCycle::ThreeFourth,
                DutyCycle::ThreeFourth => DutyCycle::ThreeFourth,
            }),
    {
        match self {
            DutyCycle::Eighth => DutyCycle::Fourth,
            DutyCycle::Fourth => DutyCycle::Half,
            DutyCycle::Half => DutyCycle::ThreeFourth,
            DutyCycle::ThreeFourth => DutyCycle::ThreeFourth,
        }
    }

    /// The persisted code of this duty cycle.
    pub fn to_code(&self) -> (r: u8)
        ensures
            r == self.spec_code(),
    {
        match self {
            DutyCycle::Eighth => 0,
            DutyCycle::Fourth => 1,
            DutyCycle::Half => 2,
            DutyCycle::ThreeFourth => 3,
        }
    }

    /// The next narrower duty cycle; the narrowest stays put.
    pub fn prev(&self) -> (r: Self)
        ensures
            r == (match *self {
                DutyCycle::Eighth => DutyCycle::Eighth,
                DutyCycle::Fourth => DutyCycle::Eighth,
                DutyCycle::Half => DutyCycle::Fourth,
                DutyCycle::ThreeFourth => DutyCycle::Half,
            }),
    {
        match self {
            DutyCycle::Eighth => DutyCycle::Eighth,
            DutyCycle::Fourth => DutyCycle::Eighth,
            DutyCycle::Half => DutyCycle::Fourth,
            DutyCycle::ThreeFourth => DutyCycle::Half,
        }
    }
}

/// Clamp of an envelope amplitude to the 0..=100 range.
pub open spec fn spec_clamp_level(v: u8) -> u8 {
    if v > MAX_VOLUME {
        MAX_VOLUME
    } else {
        v
    }
}

#[derive(Clone, Copy, PartialEq, Eq, Structural, Debug)]
pub struct Instrument {
    pub duty_cycle: DutyCycle,
    pub attack: u8,
    pub decay: u8,
    pub sustain: u8,
    pub release: u8,
    pub volume: u8,
    pub peak: u8,
}

impl Instrument {
    /// Volume and peak never leave 0..=100.
    pub open spec fn wf(self) -> bool {
        self.volume <= MAX_VOLUME && self.peak <= MAX_PEAK
    }

    /// Builds an instrument; volume and peak are clamped into range.
    pub fn new(
        duty_cycle: DutyCycle,
        attack: u8,
        decay: u8,
        sustain: u8,
        release: u8,
        volume: u8,
        peak: u8,
    ) -> (r: Instrument)
        ensures
            r == (Instrument {
                duty_cycle,
                attack,
                decay,
                sustain,
                release,
                volume: spec_clamp_level(volume),
                peak: spec_clamp_level(peak),
            }),
            r.wf(),
    {
        Instrument {
            duty_cycle,
            attack,
            decay,
            sustain,
            release,
            volume: if volume > MAX_VOLUME {
                MAX_VOLUME
            } else {
                volume
            },
            peak: if peak > MAX_PEAK {
                MAX_PEAK
            } else {
                peak
            },
        }
    }

    pub fn duty_cycle(&self) -> (r: DutyCycle)
        ensures
            r == self.duty_cycle,
    {
        self.duty_cycle
    }

    pub fn attack(&self) -> (r: u8)
        ensures
            r == self.attack,
    {
        self.attack
    }

    pub fn decay(&self) -> (r: u8)
        ensures
            r == self.decay,
    {
        self.decay
    }

    pub fn sustain(&self) -> (r: u8)
        ensures
            r == self.sustain,
    {
        self.sustain
    }

    pub fn release(&self) -> (r: u8)
        ensures
            r == self.release,
    {
        self.release
    }

    pub fn volume(&self) -> (r: u8)
        ensures
            r == self.volume,
    {
        self.volume
    }

    pub fn peak(&self) -> (r: u8)
        ensures
            r == self.peak,
    {
        self.peak
    }

    pub fn update_duty_cycle<F: FnOnce(DutyCycle) -> DutyCycle>(&mut self, f: F)
        requires
            call_requires(f, (old(self).duty_cycle,)),
        ensures
            exists|r: DutyCycle|
                #[trigger] call_ensures(f, (old(self).duty_cycle,), r) && *final (self) == (
                Instrument { duty_cycle: r, ..*old(self) }),
            old(self).wf() ==> final (self).wf(),
    {
        self.duty_cycle = f(self.duty_cycle);
    }

    pub fn update_attack<F: FnOnce(u8) -> u8>(&mut self, f: F)
        requires
            call_requires(f, (old(self).attack,)),
        ensures
            exists|r: u8|
                #[trigger] call_ensures(f, (old(self).attack,), r) && *final (self) == (Instrument {
                    attack: r,
                    ..*old(self)
                }),
            old(self).wf() ==> final (self).wf(),
    {
        self.attack = f(self.attack);
    }

    pub fn update_decay<F: FnOnce(u8) -> u8>(&mut self, f: F)
        requires
            call_requires(f, (old(self).decay,)),
        ensures
            exists|r: u8|
                #[trigger] call_ensures(f, (old(self).decay,), r) && *final (self) == (Instrument {
                    decay: r,
                    ..*old(self)
                }),
            old(self).wf() ==> final (self).wf(),
    {
        self.decay = f(self.decay);
    }

    pub fn update_sustain<F: FnOnce(u8) -> u8>(&mut self, f: F)
        requires
            call_requires(f, (old(self).sustain,)),
        ensures
            exists|r: u8|
                #[trigger] call_ensures(f, (old(self).sustain,), r) && *final (self) == (Instrument {
                    sustain: r,
                    ..*old(self)
                }),
            old(self).wf() ==> final (self).wf(),
    {
        self.sustain = f(self.sustain);
    }

    pub fn update_release<F: FnOnce(u8) -> u8>(&mut self, f: F)
        requires
            call_requires(f, (old(self).release,)),
        ensures
            exists|r: u8|
                #[trigger] call_ensures(f, (old(self).release,), r) && *final (self) == (Instrument {
                    release: r,
                    ..*old(self)
                }),
            old(self).wf() ==> final (self).wf(),
    {
        self.release = f(self.release);
    }

    /// Applies `f` to the volume and clamps the outcome into 0..=100,
    /// whatever `f` returns.
    pub fn update_volume<F: FnOnce(u8) -> u8>(&mut self, f: F)
        requires
            call_requires(f, (old(self).volume,)),
        ensures
            exists|r: u8|
                #[trigger] call_ensures(f, (old(self).volume,), r) && *final (self) == (Instrument {
                    volume: spec_clamp_level(r),
                    ..*old(self)
                }),
            final (self).volume <= MAX_VOLUME,
            old(self).wf() ==> final (self).wf(),
    {
        let v = f(self.volume);
        self.volume = if v > MAX_VOLUME {
            MAX_VOLUME
        } else {
            v
        };
    }

    /// Applies `f` to the peak and clamps the outcome into 0..=100,
    /// whatever `f` returns.
    pub fn update_peak<F: FnOnce(u8) -> u8>(&mut self, f: F)
        requires
            call_requires(f, (old(self).peak,)),
        ensures
            exists|r: u8|
                #[trigger] call_ensures(f, (old(self).peak,), r) && *final (self) == (Instrument {
                    peak: spec_clamp_level(r),
                    ..*old(self)
                }),
            final (self).peak <= MAX_PEAK,
            old(self).wf() ==> final (self).wf(),
    {
        let v = f(self.peak);
        self.peak = if v > MAX_PEAK {
            MAX_PEAK
        } else {
            v
        };
    }

    /// The 7-byte persisted record: duty-cycle code, attack, decay, then
    /// release *before* sustain (the authoritative on-disk order), then
    /// volume and peak.
    pub open spec fn spec_bytes(self) -> Seq<u8> {
        seq![
            self.duty_cycle.spec_code(),
            self.attack,
            self.decay,
            self.release,
            self.sustain,
            self.volume,
            self.peak,
        ]
    }

    pub fn to_bytes(&self, api_version: u8) -> (r: Vec<u8>)
        requires
            api_version == crate::tracker::STORAGE_LAYOUT_VERSION,
        ensures
            r@ == self.spec_bytes(),
    {
        let mut v: Vec<u8> = Vec::new();
        v.push(self.duty_cycle.to_code());
        v.push(self.attack);
        v.push(self.decay);
        v.push(self.release);
        v.push(self.sustain);
        v.push(self.volume);
        v.push(self.peak);
        proof {
            assert(v@ =~= self.spec_bytes());
        }
        v
    }

    /// The instrument a 7-tuple of bytes decodes to, fields in memory order
    /// (duty-cycle code, attack, decay, sustain, release, volume, peak).
    /// An unknown duty-cycle code falls back to the narrowest duty cycle and
    /// out-of-range amplitudes are clamped, so the result is always
    /// well-formed.
    pub open spec fn spec_from_bytes(bytes: (u8, u8, u8, u8, u8, u8, u8)) -> Instrument {
        Instrument {
            duty_cycle: DutyCycle::spec_from_code(bytes.0),
            attack: bytes.1,
            decay: bytes.2,
            sustain: bytes.3,
            release: bytes.4,
            volume: spec_clamp_level(bytes.5),
            peak: spec_clamp_level(bytes.6),
        }
    }

    pub fn from_bytes(bytes: (u8, u8, u8, u8, u8, u8, u8)) -> (r: Self)
        ensures
            r == Self::spec_from_bytes(bytes),
            r.wf(),
    {
        Instrument {
            duty_cycle: match bytes.0 {
                0 => DutyCycle::Eighth,
                1 => DutyCycle::Fourth,
                2 => DutyCycle::Half,
                3 => DutyCycle::ThreeFourth,
                _ => DutyCycle::Eighth,
            },
            attack: bytes.1,
            decay: bytes.2,
            sustain: bytes.3,
            release: bytes.4,
            volume: if bytes.5 > MAX_VOLUME {
                MAX_VOLUME
            } else {
                bytes.5
            },
            peak: if bytes.6 > MAX_PEAK {
                MAX_PEAK
            } else {
                bytes.6
            },
        }
    }

    /// The packed duration word the tone sink consumes.
    pub open spec fn spec_duration_word(self) -> u32 {
        ((self.attack as u32) << 24) | ((self.decay as u32) << 16) | (self.sustain as u32) | ((
        self.release as u32) << 8)
    }

    pub fn get_duration(&self) -> (r: u32)
        ensures
            r == self.spec_duration_word(),
    {
        ((self.attack as u32) << 24) | ((self.decay as u32) << 16) | (self.sustain as u32) | ((
        self.release as u32) << 8)
    }

    /// The packed volume word the tone sink consumes.
    pub open spec fn spec_volume_word(self) -> u32 {
        ((self.peak as u32) << 8) | (self.volume as u32)
    }

    pub fn get_volume(&self) -> (r: u32)
        ensures
            r == self.spec_volume_word(),
    {
        ((self.peak as u32) << 8) | (self.volume as u32)
    }

}

/// Which instrument field the editor cursor is on.
#[derive(Clone, Copy, PartialEq, Eq, Structural, Debug)]
pub enum InstrumentInput {
    DutyCycle,
    Attack,
    Decay,
    Sustain,
    Release,
    Volume,
    Peak,
}

/// The dispatch list the instrument screen installs.
pub open spec fn spec_instrument_screen_bindings() -> Seq<crate::inputs::Binding> {
    seq![
        crate::inputs::Binding {
            event: crate::inputs::InputEvent::ButtonDownPress,
            command: crate::inputs::Command::InstrumentButtonDown,
        },
        crate::inputs::Binding {
            event: crate::inputs::InputEvent::ButtonUpPress,
            command: crate::inputs::Command::InstrumentButtonUp,
        },
        crate::inputs::Binding {
            event: crate::inputs::InputEvent::ButtonLeftPress,
            command: crate::inputs::Command::InstrumentButtonLeft,
        },
        crate::inputs::Binding {
            event: crate::inputs::InputEvent::ButtonRightPress,
            command: crate::inputs::Command::InstrumentButtonRight,
        },
    ]
}

/// Appends the instrument screen's bindings to the dispatch list.
pub fn add_instrument_screen_handlers(inputs: &mut crate::inputs::Inputs)
    ensures
        final (inputs).handlers@ == old(inputs).handlers@ + spec_instrument_screen_bindings(),
        final (inputs).last_fire_button1 == old(inputs).last_fire_button1,
        final (inputs).double_press_activated == old(inputs).double_press_activated,
{
    inputs.listen(
        crate::inputs::InputEvent::ButtonDownPress,
        crate::inputs::Command::InstrumentButtonDown,
    );
    inputs.listen(
        crate::inputs::InputEvent::ButtonUpPress,
        crate::inputs::Command::InstrumentButtonUp,
    );
    inputs.listen(
        crate::inputs::InputEvent::ButtonLeftPress,
        crate::inputs::Command::InstrumentButtonLeft,
    );
    inputs.listen(
        crate::inputs::InputEvent::ButtonRightPress,
        crate::inputs::Command::InstrumentButtonRight,
    );
    proof {
        assert(final (inputs).handlers@ =~= old(inputs).handlers@
            + spec_instrument_screen_bindings());
    }
}

/// Saturating add within a byte.
pub open spec fn spec_add_sat(v: u8, d: u8) -> u8 {
    if v + d > 255 {
        255u8
    } else {
        (v + d) as u8
    }
}

/// Saturating subtract within a byte.
pub open spec fn spec_sub_sat(v: u8, d: u8) -> u8 {
    if v >= d {
        (v - d) as u8
    } else {
        0u8
    }
}

/// The instrument with the envelope field under `focus` raised by `d`:
/// attack, decay, sustain and release saturate; volume and peak clamp to
/// their 0..=100 range; a focus on the duty cycle leaves everything as it
/// was (the coarse up/down edit does not step the duty cycle).
pub open spec fn spec_envelope_increased(inst: Instrument, focus: InstrumentInput, d: u8) -> Instrument {
    match focus {
        InstrumentInput::DutyCycle => inst,
        InstrumentInput::Attack => Instrument { attack: spec_add_sat(inst.attack, d), ..inst },
        InstrumentInput::Decay => Instrument { decay: spec_add_sat(inst.decay, d), ..inst },
        InstrumentInput::Sustain => Instrument { sustain: spec_add_sat(inst.sustain, d), ..inst },
        InstrumentInput::Release => Instrument { release: spec_add_sat(inst.release, d), ..inst },
        InstrumentInput::Volume => Instrument {
            volume: spec_clamp_level(spec_add_sat(inst.volume, d)),
            ..inst
        },
        InstrumentInput::Peak => Instrument {
            peak: spec_clamp_level(spec_add_sat(inst.peak, d)),
            ..inst
        },
    }
}

/// The instrument with the envelope field under `focus` lowered by `d`,
/// mirroring `spec_envelope_increased`.
pub open spec fn spec_envelope_decreased(inst: Instrument, focus: InstrumentInput, d: u8) -> Instrument {
    match focus {
        InstrumentInput::DutyCycle => inst,
        InstrumentInput::Attack => Instrument { attack: spec_sub_sat(inst.attack, d), ..inst },
        InstrumentInput::Decay => Instrument { decay: spec_sub_sat(inst.decay, d), ..inst },
        InstrumentInput::Sustain => Instrument { sustain: spec_sub_sat(inst.sustain, d), ..inst },
        InstrumentInput::Release => Instrument { release: spec_sub_sat(inst.release, d), ..inst },
        InstrumentInput::Volume => Instrument {
            volume: spec_clamp_level(spec_sub_sat(inst.volume, d)),
            ..inst
        },
        InstrumentInput::Peak => Instrument {
            peak: spec_clamp_level(spec_sub_sat(inst.peak, d)),
            ..inst
        },
    }
}

/// The instrument with the field under `focus` moved one editing step to
/// the right: the duty cycle steps to the next one, every other field
/// rises by one.
pub open spec fn spec_field_next(inst: Instrument, focus: InstrumentInput) -> Instrument {
    match focus {
        InstrumentInput::DutyCycle => Instrument {
            duty_cycle: (match inst.duty_cycle {
                DutyCycle::Eighth => DutyCycle::Fourth,
                DutyCycle::Fourth => DutyCycle::Half,
                DutyCycle::Half => DutyCycle::ThreeFourth,
                DutyCycle::ThreeFourth => DutyCycle::ThreeFourth,
            }),
            ..inst
        },
        _ => spec_envelope_increased(inst, focus, 1),
    }
}

/// The instrument with the field under `focus` moved one editing step to
/// the left, mirroring `spec_field_next`.
pub open spec fn spec_field_prev(inst: Instrument, focus: InstrumentInput) -> Instrument {
    match focus {
        InstrumentInput::DutyCycle => Instrument {
            duty_cycle: (match inst.duty_cycle {
                DutyCycle::Eighth => DutyCycle::Eighth,
                DutyCycle::Fourth => DutyCycle::Eighth,
                DutyCycle::Half => DutyCycle::Fourth,
                DutyCycle::ThreeFourth => DutyCycle::Half,
            }),
            ..inst
        },
        _ => spec_envelope_decreased(inst, focus, 1),
    }
}

} // verus!

use crate::inputs::{spec_button1_held, spec_button2_held};
use crate::navigation::{
    go_to_pattern_screen, spec_transition_intervals, ActiveTransition, Navigation,
};
use crate::pattern::spec_pattern_screen_bindings;
use crate::screen::Screen;
use crate::timers::{spec_debounce_fires, spec_debounced_to, ActionId, Timers};
use crate::tracker::{spec_selected_instrument_set, PlayMode, Tracker};
use crate::wtime::{Duration, Winstant};

verus! {

/// Lowers the selected instrument's focused envelope field by the coarse
/// editing step; a focus on the duty cycle edits nothing.
fn decrease_selected_value(tracker: &mut Tracker)
    requires
        old(tracker).wf(),
    ensures
        final (tracker).wf(),
        (match old(tracker).instrument_focus {
            InstrumentInput::DutyCycle => *final (tracker) == *old(tracker),
            _ => spec_selected_instrument_set(
                *old(tracker),
                *final (tracker),
                spec_envelope_decreased(
                    old(tracker).instruments@[old(tracker).selected_instrument_index as int],
                    old(tracker).instrument_focus,
                    0x10,
                ),
            ),
        }),
{
    let focus = tracker.instrument_focus();
    match focus {
        InstrumentInput::DutyCycle => {},
        InstrumentInput::Attack => {
            let inst = tracker.selected_instrument_mut();
            inst.attack = inst.attack.saturating_sub(0x10);
        },
        InstrumentInput::Decay => {
            let inst = tracker.selected_instrument_mut();
            inst.decay = inst.decay.saturating_sub(0x10);
        },
        InstrumentInput::Sustain => {
            let inst = tracker.selected_instrument_mut();
            inst.sustain = inst.sustain.saturating_sub(0x10);
        },
        InstrumentInput::Release => {
            let inst = tracker.selected_instrument_mut();
            inst.release = inst.release.saturating_sub(0x10);
        },
        InstrumentInput::Volume => {
            let inst = tracker.selected_instrument_mut();
            let v = inst.volume.saturating_sub(0x10);
            inst.volume = if v > MAX_VOLUME {
                MAX_VOLUME
            } else {
                v
            };
        },
        InstrumentInput::Peak => {
            let inst = tracker.selected_instrument_mut();
            let v = inst.peak.saturating_sub(0x10);
            inst.peak = if v > MAX_VOLUME {
                MAX_VOLUME
            } else {
                v
            };
        },
    }
}

/// Raises the selected instrument's focused envelope field by the coarse
/// editing step; a focus on the duty cycle edits nothing.
fn increase_selected_value(tracker: &mut Tracker)
    requires
        old(tracker).wf(),
    ensures
        final (tracker).wf(),
        (match old(tracker).instrument_focus {
            InstrumentInput::DutyCycle => *final (tracker) == *old(tracker),
            _ => spec_selected_instrument_set(
                *old(tracker),
                *final (tracker),
                spec_envelope_increased(
                    old(tracker).instruments@[old(tracker).selected_instrument_index as int],
                    old(tracker).instrument_focus,
                    0x10,
                ),
            ),
        }),
{
    let focus = tracker.instrument_focus();
    match focus {
        InstrumentInput::DutyCycle => {},
        InstrumentInput::Attack => {
            let inst = tracker.selected_instrument_mut();
            inst.attack = inst.attack.saturating_add(0x10);
        },
        InstrumentInput::Decay => {
            let inst = tracker.selected_instrument_mut();
            inst.decay = inst.decay.saturating_add(0x10);
        },
        InstrumentInput::Sustain => {
            let inst = tracker.selected_instrument_mut();
            inst.sustain = inst.sustain.saturating_add(0x10);
        },
        InstrumentInput::Release => {
            let inst = tracker.selected_instrument_mut();
            inst.release = inst.release.saturating_add(0x10);
        },
        InstrumentInput::Volume => {
            let inst = tracker.selected_instrument_mut();
            let v = inst.volume.saturating_add(0x10);
            inst.volume = if v > MAX_VOLUME {
                MAX_VOLUME
            } else {
                v
            };
        },
        InstrumentInput::Peak => {
            let inst = tracker.selected_instrument_mut();
            let v = inst.peak.saturating_add(0x10);
            inst.peak = if v > MAX_VOLUME {
                MAX_VOLUME
            } else {
                v
            };
        },
    }
}

/// Moves the selected instrument's focused field one fine editing step to
/// the right: the next duty cycle, or the field raised by one.
fn next_selected_value(tracker: &mut Tracker)
    requires
        old(tracker).wf(),
    ensures
        final (tracker).wf(),
        spec_selected_instrument_set(
            *old(tracker),
            *final (tracker),
            spec_field_next(
                old(tracker).instruments@[old(tracker).selected_instrument_index as int],
                old(tracker).instrument_focus,
            ),
        ),
{
    let focus = tracker.instrument_focus();
    match focus {
        InstrumentInput::DutyCycle => {
            let inst = tracker.selected_instrument_mut();
            inst.duty_cycle = inst.duty_cycle.next();
        },
        InstrumentInput::Attack => {
            let inst = tracker.selected_instrument_mut();
            inst.attack = inst.attack.saturating_add(1);
        },
        InstrumentInput::Decay => {
            let inst = tracker.selected_instrument_mut();
            inst.decay = inst.decay.saturating_add(1);
        },
        InstrumentInput::Sustain => {
            let inst = tracker.selected_instrument_mut();
            inst.sustain = inst.sustain.saturating_add(1);
        },
        InstrumentInput::Release => {
            let inst = tracker.selected_instrument_mut();
            inst.release = inst.release.saturating_add(1);
        },
        InstrumentInput::Volume => {
            let inst = tracker.selected_instrument_mut();
            let v = inst.volume.saturating_add(1);
            inst.volume = if v > MAX_VOLUME {
                MAX_VOLUME
            } else {
                v
            };
        },
        InstrumentInput::Peak => {
            let inst = tracker.selected_instrument_mut();
            let v = inst.peak.saturating_add(1);
            inst.peak = if v > MAX_VOLUME {
                MAX_VOLUME
            } else {
                v
            };
        },
    }
}

/// Moves the selected instrument's focused field one fine editing step to
/// the left: the previous duty cycle, or the field lowered by one.
fn prev_selected_value(tracker: &mut Tracker)
    requires
        old(tracker).wf(),
    ensures
        final (tracker).wf(),
        spec_selected_instrument_set(
            *old(tracker),
            *final (tracker),
            spec_field_prev(
                old(tracker).instruments@[old(tracker).selected_instrument_index as int],
                old(tracker).instrument_focus,
            ),
        ),
{
    let focus = tracker.instrument_focus();
    match focus {
        InstrumentInput::DutyCycle => {
            let inst = tracker.selected_instrument_mut();
            inst.duty_cycle = inst.duty_cycle.prev();
        },
        InstrumentInput::Attack => {
            let inst = tracker.selected_instrument_mut();
            inst.attack = inst.attack.saturating_sub(1);
        },
        InstrumentInput::Decay => {
            let inst = tracker.selected_instrument_mut();
            inst.decay = inst.decay.saturating_sub(1);
        },
        InstrumentInput::Sustain => {
            let inst = tracker.selected_instrument_mut();
            inst.sustain = inst.sustain.saturating_sub(1);
        },
        InstrumentInput::Release => {
            let inst = tracker.selected_instrument_mut();
            inst.release = inst.release.saturating_sub(1);
        },
        InstrumentInput::Volume => {
            let inst = tracker.selected_instrument_mut();
            let v = inst.volume.saturating_sub(1);
            inst.volume = if v > MAX_VOLUME {
                MAX_VOLUME
            } else {
                v
            };
        },
        InstrumentInput::Peak => {
            let inst = tracker.selected_instrument_mut();
            let v = inst.peak.saturating_sub(1);
            inst.peak = if v > MAX_VOLUME {
                MAX_VOLUME
            } else {
                v
            };
        },
    }
}


fn held_button1(gamepad: u8) -> (r: bool)
    ensures
        r == spec_button1_held(gamepad),
{
    gamepad & crate::inputs::BUTTON_1 != 0
}

fn held_button2(gamepad: u8) -> (r: bool)
    ensures
        r == spec_button2_held(gamepad),
{
    gamepad & crate::inputs::BUTTON_2 != 0
}

/// Down on the instrument screen: with the second button held, toggle
/// pattern playback (debounced); with the first button held, lower the
/// focused envelope field a coarse step (debounced); otherwise move the
/// focus to the next field (debounced).
pub fn on_button_down_press(tracker: &mut Tracker, timers: &mut Timers, gamepad: u8, now: Winstant)
    requires
        old(tracker).wf(),
        old(timers).wf(),
    ensures
        final (tracker).wf(),
        final (timers).wf(),
        ({
            let b1 = spec_button1_held(gamepad);
            let b2 = spec_button2_held(gamepad);
            let t0 = *old(tracker);
            let t1 = *final (tracker);
            if b2 {
                &&& spec_debounced_to(
                    *old(timers),
                    *final (timers),
                    ActionId::Play,
                    Duration(200),
                    now,
                )
                &&& t1 == if spec_debounce_fires(
                    old(timers).spec_last_call(ActionId::Play),
                    Duration(200),
                    now,
                ) {
                    t0.spec_toggled(PlayMode::Pattern)
                } else {
                    t0
                }
            } else if b1 {
                &&& spec_debounced_to(
                    *old(timers),
                    *final (timers),
                    ActionId::InstrumentValueDownActionId,
                    Duration(200),
                    now,
                )
                &&& if spec_debounce_fires(
                    old(timers).spec_last_call(ActionId::InstrumentValueDownActionId),
                    Duration(200),
                    now,
                ) {
                    match t0.instrument_focus {
                        InstrumentInput::DutyCycle => t1 == t0,
                        _ => spec_selected_instrument_set(
                            t0,
                            t1,
                            spec_envelope_decreased(
                                t0.instruments@[t0.selected_instrument_index as int],
                                t0.instrument_focus,
                                0x10,
                            ),
                        ),
                    }
                } else {
                    t1 == t0
                }
            } else {
                &&& spec_debounced_to(
                    *old(timers),
                    *final (timers),
                    ActionId::InstrumentNextInputActionId,
                    Duration(200),
                    now,
                )
                &&& t1 == if spec_debounce_fires(
                    old(timers).spec_last_call(ActionId::InstrumentNextInputActionId),
                    Duration(200),
                    now,
                ) {
                    t0.spec_focus_next()
                } else {
                    t0
                }
            }
        }),
{
    let b1 = held_button1(gamepad);
    let b2 = held_button2(gamepad);
    if b2 {
        if timers.run_action_debounced(ActionId::Play, Duration::from_millis(200), now) {
            tracker.toggle_play(PlayMode::Pattern);
        }
    } else if b1 {
        if timers.run_action_debounced(
            ActionId::InstrumentValueDownActionId,
            Duration::from_millis(200),
            now,
        ) {
            decrease_selected_value(tracker);
        }
    } else {
        if timers.run_action_debounced(
            ActionId::InstrumentNextInputActionId,
            Duration::from_millis(200),
            now,
        ) {
            tracker.instrument_focus_next();
        }
    }
}

/// Up on the instrument screen: with the first button held, raise the
/// focused envelope field a coarse step (debounced); with the second
/// button held, request a save of the tracker (debounced, answered true);
/// otherwise move the focus to the previous field (debounced).
pub fn on_button_up_press(tracker: &mut Tracker, timers: &mut Timers, gamepad: u8, now: Winstant) -> (persist:
    bool)
    requires
        old(tracker).wf(),
        old(timers).wf(),
    ensures
        final (tracker).wf(),
        final (timers).wf(),
        ({
            let b1 = spec_button1_held(gamepad);
            let b2 = spec_button2_held(gamepad);
            let t0 = *old(tracker);
            let t1 = *final (tracker);
            if b1 {
                &&& spec_debounced_to(
                    *old(timers),
                    *final (timers),
                    ActionId::InstrumentValueUpActionId,
                    Duration(200),
                    now,
                )
                &&& if spec_debounce_fires(
                    old(timers).spec_last_call(ActionId::InstrumentValueUpActionId),
                    Duration(200),
                    now,
                ) {
                    match t0.instrument_focus {
                        InstrumentInput::DutyCycle => t1 == t0,
                        _ => spec_selected_instrument_set(
                            t0,
                            t1,
                            spec_envelope_increased(
                                t0.instruments@[t0.selected_instrument_index as int],
                                t0.instrument_focus,
                                0x10,
                            ),
                        ),
                    }
                } else {
                    t1 == t0
                }
                &&& !persist
            } else if b2 {
                &&& spec_debounced_to(
                    *old(timers),
                    *final (timers),
                    ActionId::Persist,
                    Duration(1000),
                    now,
                )
                &&& t1 == t0
                &&& persist == spec_debounce_fires(
                    old(timers).spec_last_call(ActionId::Persist),
                    Duration(1000),
                    now,
                )
            } else {
                &&& spec_debounced_to(
                    *old(timers),
                    *final (timers),
                    ActionId::InstrumentPrevInputActionId,
                    Duration(200),
                    now,
                )
                &&& t1 == if spec_debounce_fires(
                    old(timers).spec_last_call(ActionId::InstrumentPrevInputActionId),
                    Duration(200),
                    now,
                ) {
                    t0.spec_focus_prev()
                } else {
                    t0
                }
                &&& !persist
            }
        }),
{
    let b1 = held_button1(gamepad);
    let b2 = held_button2(gamepad);
    if b1 {
        if timers.run_action_debounced(
            ActionId::InstrumentValueUpActionId,
            Duration::from_millis(200),
            now,
        ) {
            increase_selected_value(tracker);
        }
        false
    } else if b2 {
        timers.run_action_debounced(ActionId::Persist, Duration::from_millis(1000), now)
    } else {
        if timers.run_action_debounced(
            ActionId::InstrumentPrevInputActionId,
            Duration::from_millis(200),
            now,
        ) {
            tracker.instrument_focus_prev();
        }
        false
    }
}

/// Left on the instrument screen: with the second button held, navigate
/// back to the pattern screen (debounced); with the first button held,
/// move the focused field one fine step to the left (debounced).
pub fn on_button_left_press(
    tracker: &mut Tracker,
    timers: &mut Timers,
    inputs: &mut crate::inputs::Inputs,
    nav: &mut Navigation,
    gamepad: u8,
    now: Winstant,
)
    requires
        old(tracker).wf(),
        old(timers).wf(),
    ensures
        final (tracker).wf(),
        final (timers).wf(),
        ({
            let b1 = spec_button1_held(gamepad);
            let b2 = spec_button2_held(gamepad);
            let t0 = *old(tracker);
            let t1 = *final (tracker);
            if b2 {
                let fires = spec_debounce_fires(
                    old(timers).spec_last_call(ActionId::NavPrevScreen),
                    Duration(200),
                    now,
                );
                &&& final (timers).last_calls@ == (if fires {
                    old(timers).last_calls@.update(ActionId::NavPrevScreen.spec_index(), Some(now))
                } else {
                    old(timers).last_calls@
                })
                &&& if fires {
                    &&& t1 == (Tracker {
                        screens: crate::screen::Screens::Transition(
                            Screen::Instrument,
                            Screen::Pattern,
                            0,
                        ),
                        ..t0
                    })
                    &&& final (timers).intervals@ == spec_transition_intervals(
                        *old(timers),
                        old(nav).active,
                        old(nav).next_id,
                    )
                    &&& final (inputs).handlers@ == spec_pattern_screen_bindings()
                    &&& final (nav).active == Some(
                        ActiveTransition {
                            id: old(nav).next_id,
                            from: Screen::Instrument,
                            to: Screen::Pattern,
                            start: now,
                        },
                    )
                } else {
                    &&& t1 == t0
                    &&& final (timers).intervals == old(timers).intervals
                    &&& final (inputs).handlers == old(inputs).handlers
                    &&& final (nav).active == old(nav).active
                }
            } else if b1 {
                &&& spec_debounced_to(
                    *old(timers),
                    *final (timers),
                    ActionId::InstrumentValuePrevActionId,
                    Duration(200),
                    now,
                )
                &&& if spec_debounce_fires(
                    old(timers).spec_last_call(ActionId::InstrumentValuePrevActionId),
                    Duration(200),
                    now,
                ) {
                    spec_selected_instrument_set(
                        t0,
                        t1,
                        spec_field_prev(
                            t0.instruments@[t0.selected_instrument_index as int],
                            t0.instrument_focus,
                        ),
                    )
                } else {
                    t1 == t0
                }
                &&& final (inputs).handlers == old(inputs).handlers
                &&& final (nav).active == old(nav).active
            } else {
                &&& t1 == t0
                &&& *final (timers) == *old(timers)
                &&& final (inputs).handlers == old(inputs).handlers
                &&& final (nav).active == old(nav).active
            }
        }),
{
    let b1 = held_button1(gamepad);
    let b2 = held_button2(gamepad);
    if b2 {
        if timers.run_action_debounced(ActionId::NavPrevScreen, Duration::from_millis(200), now) {
            go_to_pattern_screen(tracker, timers, inputs, nav, Screen::Instrument, now);
        }
    } else if b1 {
        if timers.run_action_debounced(
            ActionId::InstrumentValuePrevActionId,
            Duration::from_millis(200),
            now,
        ) {
            prev_selected_value(tracker);
        }
    }
}

/// Right on the instrument screen: with the first button held, move the
/// focused field one fine step to the right (debounced).
pub fn on_button_right_press(tracker: &mut Tracker, timers: &mut Timers, gamepad: u8, now: Winstant)
    requires
        old(tracker).wf(),
        old(timers).wf(),
    ensures
        final (tracker).wf(),
        final (timers).wf(),
        ({
            let b1 = spec_button1_held(gamepad);
            let t0 = *old(tracker);
            let t1 = *final (tracker);
            if b1 {
                &&& spec_debounced_to(
                    *old(timers),
                    *final (timers),
                    ActionId::InstrumentValueNextActionId,
                    Duration(200),
                    now,
                )
                &&& if spec_debounce_fires(
                    old(timers).spec_last_call(ActionId::InstrumentValueNextActionId),
                    Duration(200),
                    now,
                ) {
                    spec_selected_instrument_set(
                        t0,
                        t1,
                        spec_field_next(
                            t0.instruments@[t0.selected_instrument_index as int],
                            t0.instrument_focus,
                        ),
                    )
                } else {
                    t1 == t0
                }
            } else {
                &&& t1 == t0
                &&& *final (timers) == *old(timers)
            }
        }),
{
    let b1 = held_button1(gamepad);
    if b1 {
        if timers.run_action_debounced(
            ActionId::InstrumentValueNextActionId,
            Duration::from_millis(200),
            now,
        ) {
            next_selected_value(tracker);
        }
    }
}

} // verus!
