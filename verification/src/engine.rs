//! The per-frame driver: one owned context holding the tracker, the
//! scheduler, the input dispatcher, the navigation state and the frame
//! clock. Once per frame the host hands it the raw button bitmask; it
//! dispatches input commands, runs the live interval callbacks, advances
//! playback, and advances the clock — in that fixed order — and hands
//! back the tone-triggers to emit and whether a save was requested.

use vstd::prelude::*;

use crate::inputs::{Command, Inputs};
use crate::instrument;
use crate::navigation::{nav_tick, Navigation};
use crate::pattern;
use crate::song;
use crate::timers::Timers;
use crate::tracker::{PlayMode, Tone, Tracker};
use crate::wtime::Winstant;

verus! {

/// What one frame hands back to the host: the tone-triggers to emit, and
/// whether a debounced save was requested this frame (the host then
/// persists `tracker.persist()` to storage).
pub struct FrameOutput {
    pub tones: Vec<Tone>,
    pub persist_requested: bool,
}

/// The single-owner context threaded through the per-frame update.
pub struct Engine {
    pub tracker: Tracker,
    pub timers: Timers,
    pub inputs: Inputs,
    pub nav: Navigation,
    pub now: Winstant,
}

impl Engine {
    /// Every part is well-formed and no active transition started in the
    /// future.
    pub open spec fn wf(self) -> bool {
        &&& self.tracker.wf()
        &&& self.timers.wf()
        &&& (match self.nav.active {
            Some(tr) => tr.start.0 <= self.now.0,
            None => true,
        })
    }

    /// A freshly started engine: a fresh tracker showing the pattern
    /// screen, with the pattern screen's bindings installed.
    pub fn new() -> (r: Engine)
        ensures
            r.wf(),
            r.tracker.is_fresh(),
            r.inputs.handlers@ == pattern::spec_pattern_screen_bindings(),
            r.nav.active is None,
            r.now == Winstant(0),
    {
        let tracker = Tracker::new();
        let timers = Timers::new();
        let mut inputs = Inputs::new();
        pattern::add_pattern_screen_handlers(&mut inputs);
        proof {
            assert(inputs.handlers@ =~= pattern::spec_pattern_screen_bindings());
        }
        Engine { tracker, timers, inputs, nav: Navigation::new(), now: Winstant(0) }
    }

    /// An engine around an already-built tracker (for instance one
    /// restored from persisted bytes), with everything else fresh.
    pub fn with_tracker(tracker: Tracker) -> (r: Engine)
        requires
            tracker.wf(),
        ensures
            r.wf(),
            r.tracker == tracker,
            r.inputs.handlers@ == pattern::spec_pattern_screen_bindings(),
            r.nav.active is None,
            r.now == Winstant(0),
    {
        let timers = Timers::new();
        let mut inputs = Inputs::new();
        pattern::add_pattern_screen_handlers(&mut inputs);
        proof {
            assert(inputs.handlers@ =~= pattern::spec_pattern_screen_bindings());
        }
        Engine { tracker, timers, inputs, nav: Navigation::new(), now: Winstant(0) }
    }

    /// Interprets one fired input command: the central switch that takes
    /// the place of per-screen callback closures. Answers whether the
    /// command requested a save.
    fn dispatch(&mut self, cmd: Command, gamepad: u8) -> (persist: bool)
        requires
            old(self).wf(),
        ensures
            final (self).wf(),
            final (self).now == old(self).now,
    {
        let now = self.now;
        match cmd {
            Command::PatternButtonDown => {
                pattern::on_button_down_press(&mut self.tracker, &mut self.timers, gamepad, now);
                false
            },
            Command::PatternButtonUp => {
                pattern::on_button_up_press(&mut self.tracker, &mut self.timers, gamepad, now)
            },
            Command::PatternButton1 => {
                pattern::on_button_1_press(&mut self.tracker);
                false
            },
            Command::PatternButton1Double => {
                pattern::on_button_1_double_press(&mut self.tracker);
                false
            },
            Command::PatternButtonRight => {
                pattern::on_button_right_press(
                    &mut self.tracker,
                    &mut self.timers,
                    &mut self.inputs,
                    &mut self.nav,
                    gamepad,
                    now,
                );
                false
            },
            Command::PatternButtonLeft => {
                pattern::on_button_left_press(
                    &mut self.tracker,
                    &mut self.timers,
                    &mut self.inputs,
                    &mut self.nav,
                    gamepad,
                    now,
                );
                false
            },
            Command::InstrumentButtonDown => {
                instrument::on_button_down_press(&mut self.tracker, &mut self.timers, gamepad, now);
                false
            },
            Command::InstrumentButtonUp => {
                instrument::on_button_up_press(&mut self.tracker, &mut self.timers, gamepad, now)
            },
            Command::InstrumentButtonLeft => {
                instrument::on_button_left_press(
                    &mut self.tracker,
                    &mut self.timers,
                    &mut self.inputs,
                    &mut self.nav,
                    gamepad,
                    now,
                );
                false
            },
            Command::InstrumentButtonRight => {
                instrument::on_button_right_press(
                    &mut self.tracker,
                    &mut self.timers,
                    gamepad,
                    now,
                );
                false
            },
            Command::SongButtonDown => {
                song::on_button_down_press(&mut self.tracker, &mut self.timers, gamepad, now);
                false
            },
            Command::SongButtonUp => {
                song::on_button_up_press(&mut self.tracker, &mut self.timers, gamepad, now)
            },
            Command::SongButtonLeft => {
                song::on_button_left_press(&mut self.tracker, &mut self.timers, gamepad, now);
                false
            },
            Command::SongButtonRight => {
                song::on_button_right_press(
                    &mut self.tracker,
                    &mut self.timers,
                    &mut self.inputs,
                    &mut self.nav,
                    gamepad,
                    now,
                );
                false
            },
            Command::SongButton1 => {
                song::on_button_1_press(&mut self.tracker, &mut self.timers, now);
                false
            },
        }
    }

    /// One frame: dispatch the input commands that fire against
    /// `gamepad`, run the live interval callbacks (the transition
    /// animation), advance playback, and advance the clock. On a quiet
    /// frame — nothing fires and no interval is live — the tracker
    /// advances exactly as its own per-frame update promises.
    pub fn frame(&mut self, gamepad: u8) -> (out: FrameOutput)
        requires
            old(self).wf(),
        ensures
            final (self).wf(),
            old(self).now.0 < u32::MAX ==> final (self).now.0 == old(self).now.0 + 1,
            ({
                let quiet = crate::inputs::spec_scan(
                    old(self).inputs.handlers@,
                    gamepad,
                    old(self).inputs.double_press_activated,
                    old(self).inputs.last_fire_button1,
                    old(self).now,
                ).0 =~= Seq::<Command>::empty() && old(self).timers.intervals@ =~= Seq::<
                    usize,
                >::empty();
                quiet ==> {
                    &&& !out.persist_requested
                    &&& (old(self).tracker.play == PlayMode::Idle ==> final (self).tracker == old(
                        self,
                    ).tracker && out.tones@ =~= Seq::<Tone>::empty())
                    &&& (old(self).tracker.play != PlayMode::Idle ==> final (self).tracker
                        == Tracker::spec_advanced(old(self).tracker) && out.tones@ == (if old(
                        self,
                    ).tracker.frame == 0 {
                        old(self).tracker.spec_step_tones()
                    } else {
                        Seq::<Tone>::empty()
                    }))
                }
            }),
    {
        let now = self.now;
        let fired = self.inputs.tick(gamepad, now);
        let mut persist = false;
        let mut i: usize = 0;
        while i < fired.len()
            invariant
                self.wf(),
                self.now == now,
                fired@.len() == 0 ==> (self.tracker == old(self).tracker && self.timers == old(
                    self,
                ).timers && self.nav == old(self).nav && !persist),
            decreases fired@.len() - i,
        {
            if self.dispatch(fired[i], gamepad) {
                persist = true;
            }
            i = i + 1;
        }
        let ids = self.timers.tick();
        let mut j: usize = 0;
        while j < ids.len()
            invariant
                self.tracker.wf(),
                self.timers.wf(),
                (match self.nav.active {
                    Some(tr) => tr.start.0 <= now.0,
                    None => true,
                }),
                self.now == now,
                fired@.len() == 0 && ids@.len() == 0 ==> (self.tracker == old(self).tracker
                    && self.timers == old(self).timers && self.nav == old(self).nav && !persist),
            decreases ids@.len() - j,
        {
            nav_tick(&mut self.tracker, &mut self.timers, &mut self.nav, ids[j], now);
            j = j + 1;
        }
        let tones = self.tracker.update();
        self.now = self.now.next();
        FrameOutput { tones, persist_requested: persist }
    }
}

} // verus!
