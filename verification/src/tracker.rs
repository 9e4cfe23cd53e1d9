//! The tracker aggregate: pattern bank, instrument bank, song arrangement,
//! cursor state, the playback state machine, and the persistence codec.

use vstd::prelude::*;

use crate::channel::Channel;
use crate::instrument::{Instrument, InstrumentInput, MAX_INSTRUMENTS};
use crate::notes::{spec_note_freq, note_freq, NOTE_C3_INDEX, NOTE_COUNT, NOTES_PER_OCTAVE};
use crate::screen::{Screen, Screens};

verus! {

/// Version byte written at the head of every persisted buffer. A buffer
/// whose head differs is discarded wholesale on restore.
pub const STORAGE_LAYOUT_VERSION: u8 = 1;

/// Size of the pattern bank.
pub const MAX_PATTERNS: usize = 0x10;

/// Steps in a pattern.
pub const PATTERN_STEPS: usize = 16;

/// Rows in the song arrangement.
pub const SONG_SIZE: usize = 4;

/// Frames per sequencer tick: the tempo.
pub const FRAMES_PER_TICK: u32 = 8;

/// Byte in a persisted song row that stands for "no pattern assigned".
pub const NO_PATTERN_BYTE: u8 = 255;

/// Tone-sink flag naming the first pulse channel.
pub const TONE_PULSE1: u32 = 0;

/// Tone-sink flag naming the second pulse channel.
pub const TONE_PULSE2: u32 = 1;

/// Tone-sink flag naming the triangle channel.
pub const TONE_TRIANGLE: u32 = 2;

/// Tone-sink flag naming the noise channel.
pub const TONE_NOISE: u32 = 3;

/// One step of a pattern: a pitch-table index and an instrument-bank index.
#[derive(Clone, Copy, PartialEq, Eq, Structural, Debug)]
pub struct Note {
    pub index: usize,
    pub instrument: usize,
}

impl Note {

    /// The pitch index stays inside the table and the instrument index
    /// inside the bank.
    pub open spec fn wf(self) -> bool {
        self.index < NOTE_COUNT && self.instrument < MAX_INSTRUMENTS
    }

    /// This note one semitone up, clamped at the top of the table.
    pub open spec fn spec_pitch_up(self) -> Note {
        Note {
            index: if self.index < NOTE_COUNT - 1 {
                (self.index + 1) as usize
            } else {
                self.index
            },
            ..self
        }
    }

    /// This note one semitone down, clamped at the bottom of the table.
    pub open spec fn spec_pitch_down(self) -> Note {
        Note {
            index: if self.index > 0 {
                (self.index - 1) as usize
            } else {
                0
            },
            ..self
        }
    }

    /// This note one octave up, clamped at the table's last entry.
    pub open spec fn spec_octave_up(self) -> Note {
        Note {
            index: if self.index + NOTES_PER_OCTAVE < NOTE_COUNT {
                (self.index + NOTES_PER_OCTAVE) as usize
            } else {
                (NOTE_COUNT - 1) as usize
            },
            ..self
        }
    }

    /// This note one octave down, clamped at the table's first entry.
    pub open spec fn spec_octave_down(self) -> Note {
        Note {
            index: if self.index >= NOTES_PER_OCTAVE {
                (self.index - NOTES_PER_OCTAVE) as usize
            } else {
                0
            },
            ..self
        }
    }

    /// This note on the next instrument, clamped at the last one.
    pub open spec fn spec_next_instrument(self) -> Note {
        Note {
            instrument: if self.instrument < MAX_INSTRUMENTS - 1 {
                (self.instrument + 1) as usize
            } else {
                self.instrument
            },
            ..self
        }
    }

    /// This note on the previous instrument, clamped at the first one.
    pub open spec fn spec_prev_instrument(self) -> Note {
        Note {
            instrument: if self.instrument > 0 {
                (self.instrument - 1) as usize
            } else {
                0
            },
            ..self
        }
    }

    /// A fresh note: C3 on the first instrument.
    pub fn new() -> (r: Self)
        ensures
            r == (Note { index: NOTE_C3_INDEX, instrument: 0 }),
            r.wf(),
    {
        Note { index: NOTE_C3_INDEX, instrument: 0 }
    }

    /// One semitone up, clamped at the top of the pitch table.
    pub fn increase_pitch(&mut self)
        ensures
            *final (self) == old(self).spec_pitch_up(),
            old(self).wf() ==> final (self).wf(),
    {
        if self.index < NOTE_COUNT - 1 {
            self.index = self.index + 1;
        }
    }

    /// One semitone down, clamped at the bottom of the pitch table.
    pub fn decrease_pitch(&mut self)
        ensures
            *final (self) == old(self).spec_pitch_down(),
            old(self).wf() ==> final (self).wf(),
    {
        if self.index > 0 {
            self.index = self.index - 1;
        }
    }

    /// One octave up; an index within an octave of the top clamps to the
    /// table's last entry.
    pub fn increase_octave(&mut self)
        requires
            old(self).wf(),
        ensures
            *final (self) == old(self).spec_octave_up(),
            final (self).wf(),
    {
        if self.index + (NOTES_PER_OCTAVE as usize) < NOTE_COUNT {
            self.index = self.index + NOTES_PER_OCTAVE as usize;
        } else {
            self.index = NOTE_COUNT - 1;
        }
    }

    /// One octave down; an index within an octave of the bottom clamps to
    /// the table's first entry.
    pub fn decrease_octave(&mut self)
        ensures
            *final (self) == old(self).spec_octave_down(),
            old(self).wf() ==> final (self).wf(),
    {
        if self.index >= NOTES_PER_OCTAVE as usize {
            self.index = self.index - NOTES_PER_OCTAVE as usize;
        } else {
            self.index = 0;
        }
    }

    /// The next instrument in the bank, clamped at the last one.
    pub fn next_instrument(&mut self)
        ensures
            *final (self) == old(self).spec_next_instrument(),
            old(self).wf() ==> final (self).wf(),
    {
        if self.instrument < MAX_INSTRUMENTS - 1 {
            self.instrument = self.instrument + 1;
        }
    }

    /// The previous instrument in the bank, clamped at the first one.
    pub fn prev_instrument(&mut self)
        ensures
            *final (self) == old(self).spec_prev_instrument(),
            old(self).wf() ==> final (self).wf(),
    {
        if self.instrument > 0 {
            self.instrument = self.instrument - 1;
        }
    }

    pub fn instrument_index(&self) -> (r: usize)
        ensures
            r == self.instrument,
    {
        self.instrument
    }

    pub fn note_index(&self) -> (r: usize)
        ensures
            r == self.index,
    {
        self.index
    }

    /// The note's 2-byte persisted form: pitch index then instrument index.
    pub fn to_bytes(&self) -> (r: (u8, u8))
        requires
            self.wf(),
        ensures
            r.0 == self.index as u8,
            r.1 == self.instrument as u8,
    {
        (self.index as u8, self.instrument as u8)
    }
}

/// Which column of the pattern editor the cursor is on.
#[derive(Clone, Copy, PartialEq, Eq, Structural, Debug)]
pub enum Column {
    Note,
    Instrument,
}

/// One row of the song: for each channel, which pattern (if any) it plays.
#[derive(Clone, Copy, PartialEq, Eq, Structural, Debug)]
pub struct Row {
    pub pulse1: Option<usize>,
    pub pulse2: Option<usize>,
    pub triangle: Option<usize>,
    pub noise: Option<usize>,
}

impl Row {
    /// Every assigned pattern index stays inside the bank.
    pub open spec fn wf(self) -> bool {
        &&& (self.pulse1 is Some ==> self.pulse1->Some_0 < MAX_PATTERNS)
        &&& (self.pulse2 is Some ==> self.pulse2->Some_0 < MAX_PATTERNS)
        &&& (self.triangle is Some ==> self.triangle->Some_0 < MAX_PATTERNS)
        &&& (self.noise is Some ==> self.noise->Some_0 < MAX_PATTERNS)
    }

    /// A row with no pattern assigned anywhere.
    pub open spec fn spec_empty() -> Row {
        Row { pulse1: None, pulse2: None, triangle: None, noise: None }
    }

    /// The slot of one channel.
    pub open spec fn spec_channel(self, channel: Channel) -> Option<usize> {
        match channel {
            Channel::Pulse1 => self.pulse1,
            Channel::Pulse2 => self.pulse2,
            Channel::Triangle => self.triangle,
            Channel::Noise => self.noise,
        }
    }

    /// This row with one channel's slot replaced.
    pub open spec fn spec_set_channel(self, channel: Channel, value: Option<usize>) -> Row {
        match channel {
            Channel::Pulse1 => Row { pulse1: value, ..self },
            Channel::Pulse2 => Row { pulse2: value, ..self },
            Channel::Triangle => Row { triangle: value, ..self },
            Channel::Noise => Row { noise: value, ..self },
        }
    }

    pub fn channel(&self, channel: &Channel) -> (r: &Option<usize>)
        ensures
            *r == self.spec_channel(*channel),
    {
        match channel {
            Channel::Pulse1 => &self.pulse1,
            Channel::Pulse2 => &self.pulse2,
            Channel::Triangle => &self.triangle,
            Channel::Noise => &self.noise,
        }
    }

    pub fn channel_mut(&mut self, channel: &Channel) -> (r: &mut Option<usize>)
        ensures
            *r == old(self).spec_channel(*channel),
            *final (self) == old(self).spec_set_channel(*channel, *final (r)),
    {
        match channel {
            Channel::Pulse1 => &mut self.pulse1,
            Channel::Pulse2 => &mut self.pulse2,
            Channel::Triangle => &mut self.triangle,
            Channel::Noise => &mut self.noise,
        }
    }

    pub fn set_channel_value(&mut self, channel: &Channel, value: Option<usize>)
        ensures
            *final (self) == old(self).spec_set_channel(*channel, value),
    {
        match channel {
            Channel::Pulse1 => self.pulse1 = value,
            Channel::Pulse2 => self.pulse2 = value,
            Channel::Triangle => self.triangle = value,
            Channel::Noise => self.noise = value,
        }
    }

    /// Moves an assigned slot to the next pattern, clamped at the end of
    /// the bank; an empty slot stays empty.
    pub fn increment_channel_value(&mut self, channel: &Channel)
        ensures
            *final (self) == old(self).spec_set_channel(
                *channel,
                (match old(self).spec_channel(*channel) {
                    Some(a) => Some(
                        if a < MAX_PATTERNS - 1 {
                            (a + 1) as usize
                        } else {
                            a
                        },
                    ),
                    None => None,
                }),
            ),
            old(self).wf() ==> final (self).wf(),
    {
        let slot = self.channel_mut(channel);
        match *slot {
            Some(a) => {
                if a < MAX_PATTERNS - 1 {
                    *slot = Some(a + 1);
                }
            },
            None => {},
        }
    }

    /// Moves an assigned slot to the previous pattern, clamped at the start
    /// of the bank; an empty slot stays empty.
    pub fn decrement_channel_value(&mut self, channel: &Channel)
        ensures
            *final (self) == old(self).spec_set_channel(
                *channel,
                (match old(self).spec_channel(*channel) {
                    Some(a) => Some(
                        if a > 0 {
                            (a - 1) as usize
                        } else {
                            0
                        },
                    ),
                    None => None,
                }),
            ),
            old(self).wf() ==> final (self).wf(),
    {
        let slot = self.channel_mut(channel);
        match *slot {
            Some(a) => {
                if a > 0 {
                    *slot = Some(a - 1);
                }
            },
            None => {},
        }
    }

    /// The persisted byte of one channel slot: the pattern index, or 255
    /// for an empty slot.
    pub open spec fn spec_channel_byte(v: Option<usize>) -> u8 {
        match v {
            None => NO_PATTERN_BYTE,
            Some(p) => p as u8,
        }
    }

    /// The row's 4-byte persisted form: one byte per channel in the fixed
    /// channel order.
    pub open spec fn spec_bytes(self) -> Seq<u8> {
        seq![
            Self::spec_channel_byte(self.pulse1),
            Self::spec_channel_byte(self.pulse2),
            Self::spec_channel_byte(self.triangle),
            Self::spec_channel_byte(self.noise),
        ]
    }

    pub fn to_bytes(&self, api_version: u8) -> (r: Vec<u8>)
        requires
            api_version == STORAGE_LAYOUT_VERSION,
            self.wf(),
        ensures
            r@ == self.spec_bytes(),
    {
        let mut v: Vec<u8> = Vec::new();
        v.push(Self::channel_byte(&self.pulse1));
        v.push(Self::channel_byte(&self.pulse2));
        v.push(Self::channel_byte(&self.triangle));
        v.push(Self::channel_byte(&self.noise));
        proof {
            assert(v@ =~= self.spec_bytes());
        }
        v
    }

    fn channel_byte(v: &Option<usize>) -> (r: u8)
        requires
            v is Some ==> v->Some_0 < MAX_PATTERNS,
        ensures
            r == Self::spec_channel_byte(*v),
    {
        match v {
            None => NO_PATTERN_BYTE,
            Some(p) => *p as u8,
        }
    }
}

/// What the playback engine is doing.
#[derive(Clone, Copy, PartialEq, Eq, Structural, Debug)]
pub enum PlayMode {
    Song,
    Pattern,
    Idle,
}

/// One tone-trigger parameter set, as the tone sink takes it.
#[derive(Clone, Copy, PartialEq, Eq, Structural, Debug)]
pub struct Tone {
    pub frequency: u32,
    pub duration: u32,
    pub volume: u32,
    pub flags: u32,
}

/// The tone-sink flag naming a channel.
pub open spec fn spec_channel_flag(c: Channel) -> u32 {
    match c {
        Channel::Pulse1 => TONE_PULSE1,
        Channel::Pulse2 => TONE_PULSE2,
        Channel::Triangle => TONE_TRIANGLE,
        Channel::Noise => TONE_NOISE,
    }
}

/// The envelope every instrument starts with.
pub open spec fn spec_default_instrument() -> Instrument {
    Instrument {
        duty_cycle: crate::instrument::DutyCycle::Eighth,
        attack: 0,
        decay: 0,
        sustain: 0x0f,
        release: 0x0f,
        volume: crate::instrument::MAX_VOLUME,
        peak: 0,
    }
}

/// The aggregate root: all musical data plus cursor, navigation and
/// playback state.
#[derive(Clone)]
pub struct Tracker {
    /// Sub-frame counter, 0 .. FRAMES_PER_TICK.
    pub frame: u32,
    /// Playback step within the pattern, 0 .. PATTERN_STEPS.
    pub tick: u8,
    /// The pattern bank: MAX_PATTERNS patterns of PATTERN_STEPS steps.
    pub patterns: Vec<Vec<Option<Note>>>,
    /// The editor cursor's step within the selected pattern.
    pub cursor_tick: u8,
    pub play: PlayMode,
    pub selected_column: Column,
    /// The instrument bank, MAX_INSTRUMENTS entries.
    pub instruments: Vec<Instrument>,
    pub screens: Screens,
    pub selected_instrument_index: usize,
    pub instrument_focus: InstrumentInput,
    pub selected_channel: Channel,
    pub song_cursor_row_index: usize,
    /// The song arrangement, SONG_SIZE rows.
    pub song: Vec<Row>,
    pub selected_pattern: usize,
    /// Playback position within the song arrangement.
    pub song_tick: usize,
}

impl Tracker {
    /// Structural invariant: every bank has its fixed size, every index
    /// stays inside the structure it addresses, and every note, row and
    /// instrument is itself well-formed.
    pub open spec fn wf(self) -> bool {
        &&& self.patterns@.len() == MAX_PATTERNS
        &&& (forall|p: int|
            0 <= p < MAX_PATTERNS ==> (#[trigger] self.patterns@[p])@.len() == PATTERN_STEPS)
        &&& (forall|p: int, s: int|
            0 <= p < MAX_PATTERNS && 0 <= s < PATTERN_STEPS ==> ((#[trigger] self.patterns@[p]@[s])
                is Some ==> self.patterns@[p]@[s]->Some_0.wf()))
        &&& self.instruments@.len() == MAX_INSTRUMENTS
        &&& (forall|i: int| 0 <= i < MAX_INSTRUMENTS ==> (#[trigger] self.instruments@[i]).wf())
        &&& self.song@.len() == SONG_SIZE
        &&& (forall|r: int| 0 <= r < SONG_SIZE ==> (#[trigger] self.song@[r]).wf())
        &&& self.frame < FRAMES_PER_TICK
        &&& (self.tick as int) < PATTERN_STEPS
        &&& (self.cursor_tick as int) < PATTERN_STEPS
        &&& self.song_cursor_row_index < SONG_SIZE
        &&& self.song_tick < SONG_SIZE
        &&& self.selected_pattern < MAX_PATTERNS
        &&& self.selected_instrument_index < MAX_INSTRUMENTS
    }

    /// The state of a freshly initialized tracker: every step empty, every
    /// instrument at the default envelope, no pattern assigned anywhere in
    /// the song, every cursor at its origin, idle, showing the pattern
    /// screen.
    pub open spec fn is_fresh(self) -> bool {
        &&& self.frame == 0
        &&& self.tick == 0
        &&& self.cursor_tick == 0
        &&& self.play == PlayMode::Idle
        &&& self.selected_column == Column::Note
        &&& self.screens == Screens::Single(Screen::Pattern)
        &&& self.selected_instrument_index == 0
        &&& self.instrument_focus == InstrumentInput::DutyCycle
        &&& self.selected_channel == Channel::Pulse1
        &&& self.song_cursor_row_index == 0
        &&& self.selected_pattern == 0
        &&& self.song_tick == 0
        &&& self.patterns@.len() == MAX_PATTERNS
        &&& (forall|p: int|
            0 <= p < MAX_PATTERNS ==> (#[trigger] self.patterns@[p])@.len() == PATTERN_STEPS)
        &&& (forall|p: int, s: int|
            0 <= p < MAX_PATTERNS && 0 <= s < PATTERN_STEPS ==> (#[trigger] self.patterns@[p]@[s])
                is None)
        &&& self.instruments@.len() == MAX_INSTRUMENTS
        &&& (forall|i: int|
            0 <= i < MAX_INSTRUMENTS ==> (#[trigger] self.instruments@[i])
                == spec_default_instrument())
        &&& self.song@.len() == SONG_SIZE
        &&& (forall|r: int| 0 <= r < SONG_SIZE ==> (#[trigger] self.song@[r]) == Row::spec_empty())
    }

    /// A freshly initialized tracker.
    pub fn new() -> (r: Tracker)
        ensures
            r.is_fresh(),
            r.wf(),
    {
        let mut patterns: Vec<Vec<Option<Note>>> = Vec::new();
        let mut p: usize = 0;
        while p < MAX_PATTERNS
            invariant
                p <= MAX_PATTERNS,
                patterns@.len() == p,
                forall|q: int|
                    0 <= q < p ==> (#[trigger] patterns@[q])@.len() == PATTERN_STEPS,
                forall|q: int, s: int|
                    0 <= q < p && 0 <= s < PATTERN_STEPS ==> (#[trigger] patterns@[q]@[s]) is None,
            decreases MAX_PATTERNS - p,
        {
            let mut pattern: Vec<Option<Note>> = Vec::new();
            let mut st: usize = 0;
            while st < PATTERN_STEPS
                invariant
                    st <= PATTERN_STEPS,
                    pattern@.len() == st,
                    forall|s: int| 0 <= s < st ==> (#[trigger] pattern@[s]) is None,
                decreases PATTERN_STEPS - st,
            {
                pattern.push(None);
                st = st + 1;
            }
            patterns.push(pattern);
            p = p + 1;
        }
        let mut instruments: Vec<Instrument> = Vec::new();
        let mut i: usize = 0;
        while i < MAX_INSTRUMENTS
            invariant
                i <= MAX_INSTRUMENTS,
                instruments@.len() == i,
                forall|j: int|
                    0 <= j < i ==> (#[trigger] instruments@[j]) == spec_default_instrument(),
            decreases MAX_INSTRUMENTS - i,
        {
            instruments.push(
                Instrument {
                    duty_cycle: crate::instrument::DutyCycle::Eighth,
                    attack: 0,
                    decay: 0,
                    sustain: 0x0f,
                    release: 0x0f,
                    volume: crate::instrument::MAX_VOLUME,
                    peak: 0,
                },
            );
            i = i + 1;
        }
        let mut song: Vec<Row> = Vec::new();
        let mut rr: usize = 0;
        while rr < SONG_SIZE
            invariant
                rr <= SONG_SIZE,
                song@.len() == rr,
                forall|j: int| 0 <= j < rr ==> (#[trigger] song@[j]) == Row::spec_empty(),
            decreases SONG_SIZE - rr,
        {
            song.push(Row { pulse1: None, pulse2: None, triangle: None, noise: None });
            rr = rr + 1;
        }
        Tracker {
            frame: 0,
            tick: 0,
            patterns,
            cursor_tick: 0,
            play: PlayMode::Idle,
            selected_column: Column::Note,
            instruments,
            screens: Screens::Single(Screen::Pattern),
            selected_instrument_index: 0,
            instrument_focus: InstrumentInput::DutyCycle,
            selected_channel: Channel::Pulse1,
            song_cursor_row_index: 0,
            song,
            selected_pattern: 0,
            song_tick: 0,
        }
    }

    /// The playback step the engine is on.
    pub fn tick(&self) -> (r: u8)
        ensures
            r == self.tick,
    {
        self.tick
    }

    pub fn screens(&self) -> (r: &Screens)
        ensures
            *r == self.screens,
    {
        &self.screens
    }

    pub fn set_screens(&mut self, screens: Screens)
        ensures
            *final (self) == (Tracker { screens, ..*old(self) }),
    {
        self.screens = screens;
    }

    /// Starts playing in the requested mode when idle, after rewinding all
    /// playback counters; stops (whatever was requested) when already
    /// playing.
    pub fn toggle_play(&mut self, mode: PlayMode)
        ensures
            *final (self) == old(self).spec_toggled(mode),
            old(self).wf() ==> final (self).wf(),
    {
        match self.play {
            PlayMode::Song | PlayMode::Pattern => {
                self.play = PlayMode::Idle;
            },
            PlayMode::Idle => {
                self.song_tick = 0;
                self.tick = 0;
                self.frame = 0;
                self.play = mode;
            },
        }
    }

    pub fn cursor_tick(&self) -> (r: u8)
        ensures
            r == self.cursor_tick,
    {
        self.cursor_tick
    }

    /// Moves the pattern cursor one step down, clamped at the last step.
    pub fn saturating_increase_cursor_tick(&mut self)
        ensures
            *final (self) == old(self).spec_cursor_down(),
            old(self).wf() ==> final (self).wf(),
    {
        if self.cursor_tick < (PATTERN_STEPS - 1) as u8 {
            self.cursor_tick = self.cursor_tick + 1;
        }
    }

    /// Moves the pattern cursor one step up, clamped at the first step.
    pub fn saturating_decrease_cursor_tick(&mut self)
        ensures
            *final (self) == old(self).spec_cursor_up(),
            old(self).wf() ==> final (self).wf(),
    {
        if self.cursor_tick != 0 {
            self.cursor_tick = self.cursor_tick - 1;
        }
    }

    pub fn selected_column(&self) -> (r: Column)
        ensures
            r == self.selected_column,
    {
        self.selected_column
    }

    pub fn set_selected_column(&mut self, column: Column)
        ensures
            *final (self) == (Tracker { selected_column: column, ..*old(self) }),
    {
        self.selected_column = column;
    }

    pub fn selected_instrument(&self) -> (r: &Instrument)
        requires
            self.wf(),
        ensures
            *r == self.instruments@[self.selected_instrument_index as int],
    {
        &self.instruments[self.selected_instrument_index]
    }

    /// A mutable borrow of the selected instrument. The tracker stays
    /// well-formed provided the borrower leaves the instrument well-formed.
    pub fn selected_instrument_mut(&mut self) -> (r: &mut Instrument)
        requires
            old(self).wf(),
        ensures
            *r == old(self).instruments@[old(self).selected_instrument_index as int],
            final (self).instruments@ == old(self).instruments@.update(
                old(self).selected_instrument_index as int,
                *final (r),
            ),
            *final (self) == (Tracker { instruments: final (self).instruments, ..*old(self) }),
            final (r).wf() ==> final (self).wf(),
    {
        let idx = self.selected_instrument_index;
        &mut self.instruments[idx]
    }

    pub fn selected_instrument_index(&self) -> (r: usize)
        ensures
            r == self.selected_instrument_index,
    {
        self.selected_instrument_index
    }

    /// Selects an instrument; the index must address the bank.
    pub fn set_selected_instrument_index(&mut self, index: usize)
        requires
            index < MAX_INSTRUMENTS,
        ensures
            *final (self) == (Tracker { selected_instrument_index: index, ..*old(self) }),
            old(self).wf() ==> final (self).wf(),
    {
        self.selected_instrument_index = index;
    }

    pub fn instrument_focus(&self) -> (r: InstrumentInput)
        ensures
            r == self.instrument_focus,
    {
        self.instrument_focus
    }

    /// Moves the instrument-editor focus to the next field, clamped at the
    /// last one.
    pub fn instrument_focus_next(&mut self)
        ensures
            *final (self) == old(self).spec_focus_next(),
            old(self).wf() ==> final (self).wf(),
    {
        self.instrument_focus = match self.instrument_focus {
            InstrumentInput::DutyCycle => InstrumentInput::Attack,
            InstrumentInput::Attack => InstrumentInput::Decay,
            InstrumentInput::Decay => InstrumentInput::Sustain,
            InstrumentInput::Sustain => InstrumentInput::Release,
            InstrumentInput::Release => InstrumentInput::Volume,
            InstrumentInput::Volume => InstrumentInput::Peak,
            InstrumentInput::Peak => InstrumentInput::Peak,
        };
    }

    /// Moves the instrument-editor focus to the previous field, clamped at
    /// the first one.
    pub fn instrument_focus_prev(&mut self)
        ensures
            *final (self) == old(self).spec_focus_prev(),
            old(self).wf() ==> final (self).wf(),
    {
        self.instrument_focus = match self.instrument_focus {
            InstrumentInput::DutyCycle => InstrumentInput::DutyCycle,
            InstrumentInput::Attack => InstrumentInput::DutyCycle,
            InstrumentInput::Decay => InstrumentInput::Attack,
            InstrumentInput::Sustain => InstrumentInput::Decay,
            InstrumentInput::Release => InstrumentInput::Sustain,
            InstrumentInput::Volume => InstrumentInput::Release,
            InstrumentInput::Peak => InstrumentInput::Volume,
        };
    }

    /// The step of the selected pattern the cursor is on.
    pub open spec fn spec_current_note(self) -> Option<Note> {
        self.patterns@[self.selected_pattern as int]@[self.cursor_tick as int]
    }

    pub fn current_note(&self) -> (r: &Option<Note>)
        requires
            self.wf(),
        ensures
            *r == self.spec_current_note(),
    {
        &self.patterns[self.selected_pattern][self.cursor_tick as usize]
    }

    /// A mutable borrow of the step the cursor is on. The tracker stays
    /// well-formed provided the borrower leaves any note well-formed.
    pub fn current_note_mut(&mut self) -> (r: &mut Option<Note>)
        requires
            old(self).wf(),
        ensures
            *r == old(self).spec_current_note(),
            final (self).patterns@ == old(self).patterns@.update(
                old(self).selected_pattern as int,
                final (self).patterns@[old(self).selected_pattern as int],
            ),
            final (self).patterns@[old(self).selected_pattern as int]@ == old(
                self,
            ).patterns@[old(self).selected_pattern as int]@.update(
                old(self).cursor_tick as int,
                *final (r),
            ),
            *final (self) == (Tracker { patterns: final (self).patterns, ..*old(self) }),
            (*final (r) is Some ==> final (r)->Some_0.wf()) ==> final (self).wf(),
    {
        let sp = self.selected_pattern;
        let ct = self.cursor_tick as usize;
        &mut self.patterns[sp][ct]
    }

    /// Replaces the step the cursor is on. The tracker stays well-formed
    /// provided any note written is well-formed.
    pub fn set_current_note(&mut self, note: &Option<Note>)
        requires
            old(self).wf(),
        ensures
            final (self).patterns@ == old(self).patterns@.update(
                old(self).selected_pattern as int,
                final (self).patterns@[old(self).selected_pattern as int],
            ),
            final (self).patterns@[old(self).selected_pattern as int]@ == old(
                self,
            ).patterns@[old(self).selected_pattern as int]@.update(
                old(self).cursor_tick as int,
                *note,
            ),
            *final (self) == (Tracker { patterns: final (self).patterns, ..*old(self) }),
            (*note is Some ==> note->Some_0.wf()) ==> final (self).wf(),
    {
        let sp = self.selected_pattern;
        let ct = self.cursor_tick as usize;
        self.patterns[sp][ct] = *note;
    }

    /// Applies `f` to the step the cursor is on and writes the outcome
    /// back.
    pub fn update_current_note<F: FnOnce(Option<Note>) -> Option<Note>>(&mut self, f: F)
        requires
            old(self).wf(),
            call_requires(f, (old(self).spec_current_note(),)),
        ensures
            exists|r: Option<Note>|
                {
                    &&& #[trigger] call_ensures(f, (old(self).spec_current_note(),), r)
                    &&& final (self).patterns@ == old(self).patterns@.update(
                        old(self).selected_pattern as int,
                        final (self).patterns@[old(self).selected_pattern as int],
                    )
                    &&& final (self).patterns@[old(self).selected_pattern as int]@ == old(
                        self,
                    ).patterns@[old(self).selected_pattern as int]@.update(
                        old(self).cursor_tick as int,
                        r,
                    )
                    &&& *final (self) == (Tracker {
                        patterns: final (self).patterns,
                        ..*old(self)
                    })
                    &&& ((r is Some ==> r->Some_0.wf()) ==> final (self).wf())
                },
    {
        let current = *self.current_note();
        let updated = f(current);
        self.set_current_note(&updated);
    }

    /// The note at a step of the selected pattern; a step index past the
    /// pattern's end answers an empty step.
    pub fn note_at(&self, index: usize) -> (r: Option<Note>)
        requires
            self.wf(),
        ensures
            r == (if index < PATTERN_STEPS {
                self.patterns@[self.selected_pattern as int]@[index as int]
            } else {
                None
            }),
    {
        if index < PATTERN_STEPS {
            self.patterns[self.selected_pattern][index]
        } else {
            None
        }
    }

    pub fn selected_channel(&self) -> (r: &Channel)
        ensures
            *r == self.selected_channel,
    {
        &self.selected_channel
    }

    /// Moves the channel selection one lane later in the order, clamped at
    /// the last lane.
    pub fn next_channel(&mut self)
        ensures
            final (self).selected_channel.spec_rank() == (if old(
                self,
            ).selected_channel.spec_rank() < 3 {
                old(self).selected_channel.spec_rank() + 1
            } else {
                3int
            }),
            *final (self) == (Tracker {
                selected_channel: final (self).selected_channel,
                ..*old(self)
            }),
            old(self).wf() ==> final (self).wf(),
    {
        self.selected_channel = self.selected_channel.next();
    }

    /// Moves the channel selection one lane earlier in the order, clamped
    /// at the first lane.
    pub fn prev_channel(&mut self)
        ensures
            final (self).selected_channel.spec_rank() == (if old(
                self,
            ).selected_channel.spec_rank() > 0 {
                old(self).selected_channel.spec_rank() - 1
            } else {
                0int
            }),
            *final (self) == (Tracker {
                selected_channel: final (self).selected_channel,
                ..*old(self)
            }),
            old(self).wf() ==> final (self).wf(),
    {
        self.selected_channel = self.selected_channel.prev();
    }

    pub fn song_cursor_row(&self) -> (r: usize)
        ensures
            r == self.song_cursor_row_index,
    {
        self.song_cursor_row_index
    }

    /// Moves the song cursor one row down, clamped at the last row.
    pub fn next_row_song_cursor(&mut self)
        ensures
            *final (self) == old(self).spec_song_cursor_down(),
            old(self).wf() ==> final (self).wf(),
    {
        if self.song_cursor_row_index < SONG_SIZE - 1 {
            self.song_cursor_row_index = self.song_cursor_row_index + 1;
        } else {
            self.song_cursor_row_index = SONG_SIZE - 1;
        }
    }

    /// Moves the song cursor one row up, clamped at the first row.
    pub fn prev_row_song_cursor(&mut self)
        ensures
            *final (self) == old(self).spec_song_cursor_up(),
            old(self).wf() ==> final (self).wf(),
    {
        if self.song_cursor_row_index > 0 {
            self.song_cursor_row_index = self.song_cursor_row_index - 1;
        }
    }

    pub fn song(&self) -> (r: &Vec<Row>)
        ensures
            *r == self.song,
    {
        &self.song
    }

    /// A mutable borrow of the song arrangement. The tracker stays
    /// well-formed provided the borrower keeps every row well-formed and
    /// the length unchanged.
    pub fn song_mut(&mut self) -> (r: &mut Vec<Row>)
        requires
            old(self).wf(),
        ensures
            *r == old(self).song,
            *final (self) == (Tracker { song: *final (r), ..*old(self) }),
            (final (r)@.len() == SONG_SIZE && (forall|i: int|
                0 <= i < SONG_SIZE ==> (#[trigger] final (r)@[i]).wf())) ==> final (self).wf(),
    {
        &mut self.song
    }

    pub fn selected_pattern(&self) -> (r: usize)
        ensures
            r == self.selected_pattern,
    {
        self.selected_pattern
    }

    /// Selects a pattern; the index must address the bank.
    pub fn set_selected_pattern(&mut self, index: usize)
        requires
            index < MAX_PATTERNS,
        ensures
            *final (self) == (Tracker { selected_pattern: index, ..*old(self) }),
            old(self).wf() ==> final (self).wf(),
    {
        self.selected_pattern = index;
    }

    pub fn play_mode(&self) -> (r: &PlayMode)
        ensures
            *r == self.play,
    {
        &self.play
    }

    pub fn song_tick(&self) -> (r: usize)
        ensures
            r == self.song_tick,
    {
        self.song_tick
    }
}

impl Tracker {
    /// The tone-trigger a note produces, on a channel with flag
    /// `chan_flag`: the pitch table's frequency, the note's instrument's
    /// packed envelope words, and the channel flag combined with the
    /// instrument's duty-cycle flag.
    pub open spec fn spec_note_tone(self, note: Note, chan_flag: u32) -> Tone {
        let inst = self.instruments@[note.instrument as int];
        Tone {
            frequency: spec_note_freq(note.index as int) as u32,
            duration: inst.spec_duration_word(),
            volume: inst.spec_volume_word(),
            flags: chan_flag | inst.duty_cycle.spec_flag(),
        }
    }

    /// In song mode, the tone (if any) one channel contributes at the
    /// current song row and step: nothing if the row assigns the channel no
    /// pattern, nothing if the assigned pattern's step is empty, otherwise
    /// the step's note played on that channel.
    pub open spec fn spec_song_channel_tone(self, c: Channel) -> Option<Tone> {
        let row = self.song@[self.song_tick as int];
        match row.spec_channel(c) {
            None => None,
            Some(p) => match self.patterns@[p as int]@[self.tick as int] {
                None => None,
                Some(note) => Some(self.spec_note_tone(note, spec_channel_flag(c))),
            },
        }
    }

    /// The tone-triggers the engine emits at the current step: none when
    /// idle; in pattern mode the selected pattern's step on the selected
    /// channel; in song mode each channel's contribution, in channel
    /// order.
    pub open spec fn spec_step_tones(self) -> Seq<Tone> {
        match self.play {
            PlayMode::Idle => Seq::empty(),
            PlayMode::Pattern => {
                match self.patterns@[self.selected_pattern as int]@[self.tick as int] {
                    None => Seq::empty(),
                    Some(note) => seq![
                        self.spec_note_tone(note, spec_channel_flag(self.selected_channel)),
                    ],
                }
            },
            PlayMode::Song => opt_tone_seq(self.spec_song_channel_tone(Channel::Pulse1))
                + opt_tone_seq(self.spec_song_channel_tone(Channel::Pulse2)) + opt_tone_seq(
                self.spec_song_channel_tone(Channel::Triangle),
            ) + opt_tone_seq(self.spec_song_channel_tone(Channel::Noise)),
        }
    }

    fn note_tone(&self, note: &Note, chan_flag: u32) -> (r: Tone)
        requires
            self.wf(),
            note.wf(),
        ensures
            r == self.spec_note_tone(*note, chan_flag),
    {
        let inst = &self.instruments[note.instrument];
        Tone {
            frequency: note_freq(note.index) as u32,
            duration: inst.get_duration(),
            volume: inst.get_volume(),
            flags: chan_flag | inst.duty_cycle.to_flag(),
        }
    }

    fn push_song_channel_tone(&self, tones: &mut Vec<Tone>, c: Channel)
        requires
            self.wf(),
            self.play == PlayMode::Song,
        ensures
            final (tones)@ == old(tones)@ + opt_tone_seq(self.spec_song_channel_tone(c)),
    {
        let row = &self.song[self.song_tick];
        match *row.channel(&c) {
            None => {},
            Some(p) => {
                match self.patterns[p][self.tick as usize] {
                    None => {},
                    Some(note) => {
                        tones.push(self.note_tone(&note, channel_flag(&c)));
                    },
                }
            },
        }
        proof {
            assert(final (tones)@ =~= old(tones)@ + opt_tone_seq(self.spec_song_channel_tone(c)));
        }
    }

    /// The tone-triggers to emit for the step the engine is on, without
    /// advancing anything.
    pub fn play_tick(&self) -> (r: Vec<Tone>)
        requires
            self.wf(),
        ensures
            r@ == self.spec_step_tones(),
    {
        let mut tones: Vec<Tone> = Vec::new();
        match self.play {
            PlayMode::Idle => {},
            PlayMode::Pattern => {
                match self.patterns[self.selected_pattern][self.tick as usize] {
                    None => {},
                    Some(note) => {
                        let flag = channel_flag(&self.selected_channel);
                        tones.push(self.note_tone(&note, flag));
                    },
                }
            },
            PlayMode::Song => {
                self.push_song_channel_tone(&mut tones, Channel::Pulse1);
                self.push_song_channel_tone(&mut tones, Channel::Pulse2);
                self.push_song_channel_tone(&mut tones, Channel::Triangle);
                self.push_song_channel_tone(&mut tones, Channel::Noise);
            },
        }
        proof {
            assert(tones@ =~= self.spec_step_tones());
        }
        tones
    }

    /// The playback counters one frame later: the sub-frame counter wraps
    /// every FRAMES_PER_TICK frames, carrying into the step counter, which
    /// wraps every PATTERN_STEPS ticks, carrying (in song mode only) into
    /// the song row, which loops over the song.
    pub open spec fn spec_advanced(t: Tracker) -> Tracker {
        if t.frame == FRAMES_PER_TICK - 1 {
            if t.tick as int == PATTERN_STEPS - 1 {
                Tracker {
                    frame: 0,
                    tick: 0,
                    song_tick: (if t.play == PlayMode::Song {
                        if t.song_tick as int == SONG_SIZE - 1 {
                            0
                        } else {
                            (t.song_tick + 1) as usize
                        }
                    } else {
                        t.song_tick
                    }),
                    ..t
                }
            } else {
                Tracker { frame: 0, tick: (t.tick + 1) as u8, ..t }
            }
        } else {
            Tracker { frame: (t.frame + 1) as u32, ..t }
        }
    }

    /// One frame of playback: does nothing when idle; otherwise emits the
    /// current step's tones on the first frame of each tick and advances
    /// the counters.
    pub fn update(&mut self) -> (r: Vec<Tone>)
        requires
            old(self).wf(),
        ensures
            old(self).play == PlayMode::Idle ==> *final (self) == *old(self) && r@
                == Seq::<Tone>::empty(),
            old(self).play != PlayMode::Idle ==> r@ == (if old(self).frame == 0 {
                old(self).spec_step_tones()
            } else {
                Seq::<Tone>::empty()
            }),
            old(self).play != PlayMode::Idle ==> *final (self) == Self::spec_advanced(*old(self)),
            final (self).wf(),
    {
        match self.play {
            PlayMode::Idle => {
                return Vec::new();
            },
            _ => {},
        }
        let tones: Vec<Tone> = if self.frame == 0 {
            self.play_tick()
        } else {
            Vec::new()
        };
        if self.frame == FRAMES_PER_TICK - 1 {
            self.frame = 0;
            if self.tick as usize == PATTERN_STEPS - 1 {
                self.tick = 0;
                match self.play {
                    PlayMode::Song => {
                        self.song_tick = if self.song_tick == SONG_SIZE - 1 {
                            0
                        } else {
                            self.song_tick + 1
                        };
                    },
                    _ => {},
                }
            } else {
                self.tick = self.tick + 1;
            }
        } else {
            self.frame = self.frame + 1;
        }
        tones
    }
}

/// A singleton or empty tone sequence from an optional tone.
pub open spec fn opt_tone_seq(o: Option<Tone>) -> Seq<Tone> {
    match o {
        None => Seq::empty(),
        Some(t) => seq![t],
    }
}

fn channel_flag(c: &Channel) -> (r: u32)
    ensures
        r == spec_channel_flag(*c),
{
    match c {
        Channel::Pulse1 => TONE_PULSE1,
        Channel::Pulse2 => TONE_PULSE2,
        Channel::Triangle => TONE_TRIANGLE,
        Channel::Noise => TONE_NOISE,
    }
}

/// Total size of a persisted buffer: the version byte, the song section,
/// the instrument section, then the pattern section.
pub const STORED_SIZE: usize = 1 + SONG_SIZE * 4 + MAX_INSTRUMENTS * 7 + MAX_PATTERNS
    * PATTERN_STEPS * 2;

/// First byte of the song section.
pub const SONG_SECTION: usize = 1;

/// First byte of the instrument section.
pub const INSTRUMENTS_SECTION: usize = 1 + SONG_SIZE * 4;

/// First byte of the pattern section.
pub const PATTERNS_SECTION: usize = 1 + SONG_SIZE * 4 + MAX_INSTRUMENTS * 7;

/// The 2-byte persisted form of one pattern step: pitch index and
/// instrument index, or the sentinel pair (255, 255) for an empty step.
pub open spec fn spec_note_bytes(o: Option<Note>) -> Seq<u8> {
    match o {
        None => seq![255u8, 255u8],
        Some(n) => seq![n.index as u8, n.instrument as u8],
    }
}

/// The channel slot a persisted song-row byte decodes to: 255 means no
/// pattern; a byte that addresses no pattern in the bank also decodes as
/// unassigned, so a restored row is always well-formed.
pub open spec fn spec_decode_slot(b: u8) -> Option<usize> {
    if b == NO_PATTERN_BYTE {
        None
    } else if (b as int) < MAX_PATTERNS {
        Some(b as usize)
    } else {
        None
    }
}

/// The song row held at index `i` of a persisted buffer.
pub open spec fn spec_decode_row(bytes: Seq<u8>, i: int) -> Row {
    Row {
        pulse1: spec_decode_slot(bytes[SONG_SECTION + 4 * i]),
        pulse2: spec_decode_slot(bytes[SONG_SECTION + 4 * i + 1]),
        triangle: spec_decode_slot(bytes[SONG_SECTION + 4 * i + 2]),
        noise: spec_decode_slot(bytes[SONG_SECTION + 4 * i + 3]),
    }
}

/// The instrument held at index `i` of a persisted buffer. On disk the
/// release byte stands before the sustain byte; the decode swaps them back
/// into field order.
pub open spec fn spec_decode_instrument(bytes: Seq<u8>, i: int) -> Instrument {
    Instrument::spec_from_bytes(
        (
            bytes[INSTRUMENTS_SECTION + 7 * i],
            bytes[INSTRUMENTS_SECTION + 7 * i + 1],
            bytes[INSTRUMENTS_SECTION + 7 * i + 2],
            bytes[INSTRUMENTS_SECTION + 7 * i + 4],
            bytes[INSTRUMENTS_SECTION + 7 * i + 3],
            bytes[INSTRUMENTS_SECTION + 7 * i + 5],
            bytes[INSTRUMENTS_SECTION + 7 * i + 6],
        ),
    )
}

/// The step held at pattern `p`, step `s` of a persisted buffer: the
/// sentinel pair decodes to an empty step; any other pair is a note, its
/// indices clamped into the pitch table and the instrument bank so that a
/// restored note is always well-formed.
pub open spec fn spec_decode_note(bytes: Seq<u8>, p: int, s: int) -> Option<Note> {
    let b0 = bytes[PATTERNS_SECTION + 32 * p + 2 * s];
    let b1 = bytes[PATTERNS_SECTION + 32 * p + 2 * s + 1];
    if b0 == 255 && b1 == 255 {
        None
    } else {
        Some(
            Note {
                index: if (b0 as int) < NOTE_COUNT {
                    b0 as usize
                } else {
                    (NOTE_COUNT - 1) as usize
                },
                instrument: if (b1 as int) < MAX_INSTRUMENTS {
                    b1 as usize
                } else {
                    (MAX_INSTRUMENTS - 1) as usize
                },
            },
        )
    }
}

impl Tracker {
    /// Serializes the musical data to its fixed-layout persisted form: the
    /// version byte, then the song rows, then the instruments, then every
    /// pattern step.
    pub fn persist(&self) -> (r: Vec<u8>)
        requires
            self.wf(),
        ensures
            r@.len() == STORED_SIZE,
            r@[0] == STORAGE_LAYOUT_VERSION,
            forall|i: int, c: int|
                0 <= i < SONG_SIZE && 0 <= c < 4 ==> r@[SONG_SECTION + 4 * i + c] == (
                #[trigger] self.song@[i].spec_bytes()[c]),
            forall|i: int, k: int|
                0 <= i < MAX_INSTRUMENTS && 0 <= k < 7 ==> r@[INSTRUMENTS_SECTION + 7 * i + k] == (
                #[trigger] self.instruments@[i].spec_bytes()[k]),
            forall|p: int, s: int, b: int|
                0 <= p < MAX_PATTERNS && 0 <= s < PATTERN_STEPS && 0 <= b < 2 ==> r@[PATTERNS_SECTION
                    + 32 * p + 2 * s + b] == (#[trigger] spec_note_bytes(self.patterns@[p]@[s])[b]),
    {
        let mut buf: Vec<u8> = Vec::new();
        buf.push(STORAGE_LAYOUT_VERSION);
        let mut i: usize = 0;
        while i < SONG_SIZE
            invariant
                self.wf(),
                i <= SONG_SIZE,
                buf@.len() == SONG_SECTION + 4 * i,
                buf@[0] == STORAGE_LAYOUT_VERSION,
                forall|j: int, c: int|
                    0 <= j < i && 0 <= c < 4 ==> buf@[SONG_SECTION + 4 * j + c] == (
                    #[trigger] self.song@[j].spec_bytes()[c]),
            decreases SONG_SIZE - i,
        {
            let rb = self.song[i].to_bytes(STORAGE_LAYOUT_VERSION);
            buf.push(rb[0]);
            buf.push(rb[1]);
            buf.push(rb[2]);
            buf.push(rb[3]);
            i = i + 1;
        }
        let mut ii: usize = 0;
        while ii < MAX_INSTRUMENTS
            invariant
                self.wf(),
                ii <= MAX_INSTRUMENTS,
                buf@.len() == INSTRUMENTS_SECTION + 7 * ii,
                buf@[0] == STORAGE_LAYOUT_VERSION,
                forall|j: int, c: int|
                    0 <= j < SONG_SIZE && 0 <= c < 4 ==> buf@[SONG_SECTION + 4 * j + c] == (
                    #[trigger] self.song@[j].spec_bytes()[c]),
                forall|j: int, k: int|
                    0 <= j < ii && 0 <= k < 7 ==> buf@[INSTRUMENTS_SECTION + 7 * j + k] == (
                    #[trigger] self.instruments@[j].spec_bytes()[k]),
            decreases MAX_INSTRUMENTS - ii,
        {
            let ib = self.instruments[ii].to_bytes(STORAGE_LAYOUT_VERSION);
            buf.push(ib[0]);
            buf.push(ib[1]);
            buf.push(ib[2]);
            buf.push(ib[3]);
            buf.push(ib[4]);
            buf.push(ib[5]);
            buf.push(ib[6]);
            ii = ii + 1;
        }
        let mut p: usize = 0;
        while p < MAX_PATTERNS
            invariant
                self.wf(),
                p <= MAX_PATTERNS,
                buf@.len() == PATTERNS_SECTION + 32 * p,
                buf@[0] == STORAGE_LAYOUT_VERSION,
                forall|j: int, c: int|
                    0 <= j < SONG_SIZE && 0 <= c < 4 ==> buf@[SONG_SECTION + 4 * j + c] == (
                    #[trigger] self.song@[j].spec_bytes()[c]),
                forall|j: int, k: int|
                    0 <= j < MAX_INSTRUMENTS && 0 <= k < 7 ==> buf@[INSTRUMENTS_SECTION + 7 * j + k]
                        == (#[trigger] self.instruments@[j].spec_bytes()[k]),
                forall|q: int, s: int, b: int|
                    0 <= q < p && 0 <= s < PATTERN_STEPS && 0 <= b < 2 ==> buf@[PATTERNS_SECTION + 32
                        * q + 2 * s + b] == (#[trigger] spec_note_bytes(self.patterns@[q]@[s])[b]),
            decreases MAX_PATTERNS - p,
        {
            let mut s: usize = 0;
            while s < PATTERN_STEPS
                invariant
                    self.wf(),
                    p < MAX_PATTERNS,
                    s <= PATTERN_STEPS,
                    buf@.len() == PATTERNS_SECTION + 32 * p + 2 * s,
                    buf@[0] == STORAGE_LAYOUT_VERSION,
                    forall|j: int, c: int|
                        0 <= j < SONG_SIZE && 0 <= c < 4 ==> buf@[SONG_SECTION + 4 * j + c] == (
                        #[trigger] self.song@[j].spec_bytes()[c]),
                    forall|j: int, k: int|
                        0 <= j < MAX_INSTRUMENTS && 0 <= k < 7 ==> buf@[INSTRUMENTS_SECTION + 7 * j
                            + k] == (#[trigger] self.instruments@[j].spec_bytes()[k]),
                    forall|q: int, t: int, b: int|
                        0 <= q < p && 0 <= t < PATTERN_STEPS && 0 <= b < 2 ==> buf@[PATTERNS_SECTION
                            + 32 * q + 2 * t + b] == (#[trigger] spec_note_bytes(
                            self.patterns@[q]@[t],
                        )[b]),
                    forall|t: int, b: int|
                        0 <= t < s && 0 <= b < 2 ==> buf@[PATTERNS_SECTION + 32 * (p as int) + 2 * t
                            + b] == (#[trigger] spec_note_bytes(self.patterns@[p as int]@[t])[b]),
                decreases PATTERN_STEPS - s,
            {
                match self.patterns[p][s] {
                    None => {
                        buf.push(255);
                        buf.push(255);
                    },
                    Some(note) => {
                        let nb = note.to_bytes();
                        buf.push(nb.0);
                        buf.push(nb.1);
                    },
                }
                s = s + 1;
            }
            p = p + 1;
        }
        buf
    }

    /// Rebuilds a tracker from a persisted buffer. A buffer carrying an
    /// unknown version byte is discarded and a freshly initialized tracker
    /// comes back; otherwise the musical data is decoded section by
    /// section and every other field starts fresh.
    pub fn restore(buf: &Vec<u8>) -> (r: Tracker)
        requires
            buf@.len() == STORED_SIZE,
        ensures
            r.wf(),
            buf@[0] != STORAGE_LAYOUT_VERSION ==> r.is_fresh(),
            buf@[0] == STORAGE_LAYOUT_VERSION ==> {
                &&& r.frame == 0
                &&& r.tick == 0
                &&& r.cursor_tick == 0
                &&& r.play == PlayMode::Idle
                &&& r.selected_column == Column::Note
                &&& r.screens == Screens::Single(Screen::Pattern)
                &&& r.selected_instrument_index == 0
                &&& r.instrument_focus == InstrumentInput::DutyCycle
                &&& r.selected_channel == Channel::Pulse1
                &&& r.song_cursor_row_index == 0
                &&& r.selected_pattern == 0
                &&& r.song_tick == 0
                &&& r.song@.len() == SONG_SIZE
                &&& (forall|i: int|
                    0 <= i < SONG_SIZE ==> (#[trigger] r.song@[i]) == spec_decode_row(buf@, i))
                &&& r.instruments@.len() == MAX_INSTRUMENTS
                &&& (forall|i: int|
                    0 <= i < MAX_INSTRUMENTS ==> (#[trigger] r.instruments@[i])
                        == spec_decode_instrument(buf@, i))
                &&& r.patterns@.len() == MAX_PATTERNS
                &&& (forall|p: int|
                    0 <= p < MAX_PATTERNS ==> (#[trigger] r.patterns@[p])@.len() == PATTERN_STEPS)
                &&& (forall|p: int, s: int|
                    0 <= p < MAX_PATTERNS && 0 <= s < PATTERN_STEPS ==> (
                    #[trigger] r.patterns@[p]@[s]) == spec_decode_note(buf@, p, s))
            },
    {
        if buf[0] != STORAGE_LAYOUT_VERSION {
            return Tracker::new();
        }
        let mut song: Vec<Row> = Vec::new();
        let mut i: usize = 0;
        while i < SONG_SIZE
            invariant
                buf@.len() == STORED_SIZE,
                i <= SONG_SIZE,
                song@.len() == i,
                forall|j: int| 0 <= j < i ==> (#[trigger] song@[j]) == spec_decode_row(buf@, j),
                forall|j: int| 0 <= j < i ==> (#[trigger] song@[j]).wf(),
            decreases SONG_SIZE - i,
        {
            let base = SONG_SECTION + 4 * i;
            song.push(
                Row {
                    pulse1: decode_slot(buf[base]),
                    pulse2: decode_slot(buf[base + 1]),
                    triangle: decode_slot(buf[base + 2]),
                    noise: decode_slot(buf[base + 3]),
                },
            );
            i = i + 1;
        }
        let mut instruments: Vec<Instrument> = Vec::new();
        let mut ii: usize = 0;
        while ii < MAX_INSTRUMENTS
            invariant
                buf@.len() == STORED_SIZE,
                ii <= MAX_INSTRUMENTS,
                instruments@.len() == ii,
                forall|j: int|
                    0 <= j < ii ==> (#[trigger] instruments@[j]) == spec_decode_instrument(buf@, j),
                forall|j: int| 0 <= j < ii ==> (#[trigger] instruments@[j]).wf(),
            decreases MAX_INSTRUMENTS - ii,
        {
            let base = INSTRUMENTS_SECTION + 7 * ii;
            instruments.push(
                Instrument::from_bytes(
                    (
                        buf[base],
                        buf[base + 1],
                        buf[base + 2],
                        buf[base + 4],
                        buf[base + 3],
                        buf[base + 5],
                        buf[base + 6],
                    ),
                ),
            );
            ii = ii + 1;
        }
        let mut patterns: Vec<Vec<Option<Note>>> = Vec::new();
        let mut p: usize = 0;
        while p < MAX_PATTERNS
            invariant
                buf@.len() == STORED_SIZE,
                p <= MAX_PATTERNS,
                patterns@.len() == p,
                forall|q: int|
                    0 <= q < p ==> (#[trigger] patterns@[q])@.len() == PATTERN_STEPS,
                forall|q: int, s: int|
                    0 <= q < p && 0 <= s < PATTERN_STEPS ==> (#[trigger] patterns@[q]@[s])
                        == spec_decode_note(buf@, q, s),
                forall|q: int, s: int|
                    0 <= q < p && 0 <= s < PATTERN_STEPS ==> ((#[trigger] patterns@[q]@[s]) is Some
                        ==> patterns@[q]@[s]->Some_0.wf()),
            decreases MAX_PATTERNS - p,
        {
            let mut pattern: Vec<Option<Note>> = Vec::new();
            let mut s: usize = 0;
            while s < PATTERN_STEPS
                invariant
                    buf@.len() == STORED_SIZE,
                    p < MAX_PATTERNS,
                    s <= PATTERN_STEPS,
                    pattern@.len() == s,
                    forall|t: int|
                        0 <= t < s ==> (#[trigger] pattern@[t]) == spec_decode_note(
                            buf@,
                            p as int,
                            t,
                        ),
                    forall|t: int|
                        0 <= t < s ==> ((#[trigger] pattern@[t]) is Some ==> pattern@[t]->Some_0.wf()),
                decreases PATTERN_STEPS - s,
            {
                let base = PATTERNS_SECTION + 32 * p + 2 * s;
                let b0 = buf[base];
                let b1 = buf[base + 1];
                if b0 == 255 && b1 == 255 {
                    pattern.push(None);
                } else {
                    pattern.push(
                        Some(
                            Note {
                                index: if (b0 as usize) < NOTE_COUNT {
                                    b0 as usize
                                } else {
                                    NOTE_COUNT - 1
                                },
                                instrument: if (b1 as usize) < MAX_INSTRUMENTS {
                                    b1 as usize
                                } else {
                                    MAX_INSTRUMENTS - 1
                                },
                            },
                        ),
                    );
                }
                s = s + 1;
            }
            patterns.push(pattern);
            p = p + 1;
        }
        Tracker {
            frame: 0,
            tick: 0,
            patterns,
            cursor_tick: 0,
            play: PlayMode::Idle,
            selected_column: Column::Note,
            instruments,
            screens: Screens::Single(Screen::Pattern),
            selected_instrument_index: 0,
            instrument_focus: InstrumentInput::DutyCycle,
            selected_channel: Channel::Pulse1,
            song_cursor_row_index: 0,
            song,
            selected_pattern: 0,
            song_tick: 0,
        }
    }
}

fn decode_slot(b: u8) -> (r: Option<usize>)
    ensures
        r == spec_decode_slot(b),
        r is Some ==> r->Some_0 < MAX_PATTERNS,
{
    if b == NO_PATTERN_BYTE {
        None
    } else if (b as usize) < MAX_PATTERNS {
        Some(b as usize)
    } else {
        None
    }
}

/// Law: the persistence codec round-trips. For any well-formed tracker, a
/// buffer holding exactly what `persist` writes decodes — row by row,
/// instrument by instrument, step by step, as `restore` promises to decode
/// it — back to the tracker's own song rows, instruments and pattern
/// steps.
pub proof fn lemma_persist_restore_round_trip(t: Tracker, bytes: Seq<u8>)
    requires
        t.wf(),
        bytes.len() == STORED_SIZE,
        bytes[0] == STORAGE_LAYOUT_VERSION,
        forall|i: int, c: int|
            0 <= i < SONG_SIZE && 0 <= c < 4 ==> bytes[SONG_SECTION + 4 * i + c] == (
            #[trigger] t.song@[i].spec_bytes()[c]),
        forall|i: int, k: int|
            0 <= i < MAX_INSTRUMENTS && 0 <= k < 7 ==> bytes[INSTRUMENTS_SECTION + 7 * i + k] == (
            #[trigger] t.instruments@[i].spec_bytes()[k]),
        forall|p: int, s: int, b: int|
            0 <= p < MAX_PATTERNS && 0 <= s < PATTERN_STEPS && 0 <= b < 2 ==> bytes[PATTERNS_SECTION
                + 32 * p + 2 * s + b] == (#[trigger] spec_note_bytes(t.patterns@[p]@[s])[b]),
    ensures
        forall|i: int|
            0 <= i < SONG_SIZE ==> #[trigger] spec_decode_row(bytes, i) == t.song@[i],
        forall|i: int|
            0 <= i < MAX_INSTRUMENTS ==> #[trigger] spec_decode_instrument(bytes, i)
                == t.instruments@[i],
        forall|p: int, s: int|
            0 <= p < MAX_PATTERNS && 0 <= s < PATTERN_STEPS ==> #[trigger] spec_decode_note(
                bytes,
                p,
                s,
            ) == t.patterns@[p]@[s],
{
    assert forall|i: int| 0 <= i < SONG_SIZE implies #[trigger] spec_decode_row(bytes, i)
        == t.song@[i] by {
        let row = t.song@[i];
        assert(bytes[SONG_SECTION + 4 * i] == row.spec_bytes()[0]);
        assert(bytes[SONG_SECTION + 4 * i + 1] == row.spec_bytes()[1]);
        assert(bytes[SONG_SECTION + 4 * i + 2] == row.spec_bytes()[2]);
        assert(bytes[SONG_SECTION + 4 * i + 3] == row.spec_bytes()[3]);
        assert(row.wf());
    }
    assert forall|i: int| 0 <= i < MAX_INSTRUMENTS implies #[trigger] spec_decode_instrument(
        bytes,
        i,
    ) == t.instruments@[i] by {
        let inst = t.instruments@[i];
        assert(bytes[INSTRUMENTS_SECTION + 7 * i] == inst.spec_bytes()[0]);
        assert(bytes[INSTRUMENTS_SECTION + 7 * i + 1] == inst.spec_bytes()[1]);
        assert(bytes[INSTRUMENTS_SECTION + 7 * i + 2] == inst.spec_bytes()[2]);
        assert(bytes[INSTRUMENTS_SECTION + 7 * i + 3] == inst.spec_bytes()[3]);
        assert(bytes[INSTRUMENTS_SECTION + 7 * i + 4] == inst.spec_bytes()[4]);
        assert(bytes[INSTRUMENTS_SECTION + 7 * i + 5] == inst.spec_bytes()[5]);
        assert(bytes[INSTRUMENTS_SECTION + 7 * i + 6] == inst.spec_bytes()[6]);
        assert(inst.wf());
    }
    assert forall|p: int, s: int|
        0 <= p < MAX_PATTERNS && 0 <= s < PATTERN_STEPS implies #[trigger] spec_decode_note(
        bytes,
        p,
        s,
    ) == t.patterns@[p]@[s] by {
        let step = t.patterns@[p]@[s];
        assert(bytes[PATTERNS_SECTION + 32 * p + 2 * s] == spec_note_bytes(step)[0]);
        assert(bytes[PATTERNS_SECTION + 32 * p + 2 * s + 1] == spec_note_bytes(step)[1]);
        assert(step is Some ==> step->Some_0.wf());
    }
}

impl Tracker {
    /// This tracker after a play toggle: already playing (either mode)
    /// falls back to idle; idle rewinds the playback counters and starts
    /// in the requested mode.
    pub open spec fn spec_toggled(self, mode: PlayMode) -> Tracker {
        match self.play {
            PlayMode::Song | PlayMode::Pattern => Tracker { play: PlayMode::Idle, ..self },
            PlayMode::Idle => Tracker { play: mode, frame: 0, tick: 0, song_tick: 0, ..self },
        }
    }

    /// This tracker with the pattern cursor one step down, clamped.
    pub open spec fn spec_cursor_down(self) -> Tracker {
        Tracker {
            cursor_tick: if (self.cursor_tick as int) < PATTERN_STEPS - 1 {
                (self.cursor_tick + 1) as u8
            } else {
                self.cursor_tick
            },
            ..self
        }
    }

    /// This tracker with the pattern cursor one step up, clamped.
    pub open spec fn spec_cursor_up(self) -> Tracker {
        Tracker {
            cursor_tick: if self.cursor_tick != 0 {
                (self.cursor_tick - 1) as u8
            } else {
                0
            },
            ..self
        }
    }

    /// This tracker with the instrument-editor focus one field later.
    pub open spec fn spec_focus_next(self) -> Tracker {
        Tracker {
            instrument_focus: (match self.instrument_focus {
                InstrumentInput::DutyCycle => InstrumentInput::Attack,
                InstrumentInput::Attack => InstrumentInput::Decay,
                InstrumentInput::Decay => InstrumentInput::Sustain,
                InstrumentInput::Sustain => InstrumentInput::Release,
                InstrumentInput::Release => InstrumentInput::Volume,
                InstrumentInput::Volume => InstrumentInput::Peak,
                InstrumentInput::Peak => InstrumentInput::Peak,
            }),
            ..self
        }
    }

    /// This tracker with the instrument-editor focus one field earlier.
    pub open spec fn spec_focus_prev(self) -> Tracker {
        Tracker {
            instrument_focus: (match self.instrument_focus {
                InstrumentInput::DutyCycle => InstrumentInput::DutyCycle,
                InstrumentInput::Attack => InstrumentInput::DutyCycle,
                InstrumentInput::Decay => InstrumentInput::Attack,
                InstrumentInput::Sustain => InstrumentInput::Decay,
                InstrumentInput::Release => InstrumentInput::Sustain,
                InstrumentInput::Volume => InstrumentInput::Release,
                InstrumentInput::Peak => InstrumentInput::Volume,
            }),
            ..self
        }
    }

    /// This tracker with the song cursor one row down, clamped.
    pub open spec fn spec_song_cursor_down(self) -> Tracker {
        Tracker {
            song_cursor_row_index: if self.song_cursor_row_index < SONG_SIZE - 1 {
                (self.song_cursor_row_index + 1) as usize
            } else {
                (SONG_SIZE - 1) as usize
            },
            ..self
        }
    }

    /// This tracker with the song cursor one row up, clamped.
    pub open spec fn spec_song_cursor_up(self) -> Tracker {
        Tracker {
            song_cursor_row_index: if self.song_cursor_row_index > 0 {
                (self.song_cursor_row_index - 1) as usize
            } else {
                0
            },
            ..self
        }
    }
}

/// Relates two trackers that agree everywhere except that the step the
/// cursor of the first is on holds `n` in the second.
pub open spec fn spec_current_note_set(t0: Tracker, t1: Tracker, n: Option<Note>) -> bool {
    &&& t1.patterns@ == t0.patterns@.update(
        t0.selected_pattern as int,
        t1.patterns@[t0.selected_pattern as int],
    )
    &&& t1.patterns@[t0.selected_pattern as int]@ == t0.patterns@[t0.selected_pattern as int]@.update(
        t0.cursor_tick as int,
        n,
    )
    &&& t1 == (Tracker { patterns: t1.patterns, ..t0 })
}

/// Relates two trackers that agree everywhere except that the row the
/// song cursor of the first is on holds `row` in the second.
pub open spec fn spec_song_row_set(t0: Tracker, t1: Tracker, row: Row) -> bool {
    &&& t1.song@ == t0.song@.update(t0.song_cursor_row_index as int, row)
    &&& t1 == (Tracker { song: t1.song, ..t0 })
}

/// Relates two trackers that agree everywhere except that the selected
/// instrument of the first is `inst` in the second.
pub open spec fn spec_selected_instrument_set(t0: Tracker, t1: Tracker, inst: Instrument) -> bool {
    &&& t1.instruments@ == t0.instruments@.update(t0.selected_instrument_index as int, inst)
    &&& t1 == (Tracker { instruments: t1.instruments, ..t0 })
}

} // verus!
