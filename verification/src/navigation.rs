//! Screen navigation: starting a timed transition from one screen to
//! another, re-binding the input dispatch list to the destination screen,
//! and advancing the transition's progress once per frame until it
//! completes and unregisters itself.

use vstd::prelude::*;

use crate::inputs::Inputs;
use crate::instrument::add_instrument_screen_handlers;
use crate::instrument::spec_instrument_screen_bindings;
use crate::pattern::add_pattern_screen_handlers;
use crate::pattern::spec_pattern_screen_bindings;
use crate::screen::{Screen, Screens, PROGRESS_UNIT};
use crate::song::add_song_screen_handlers;
use crate::song::spec_song_screen_bindings;
use crate::timers::Timers;
use crate::tracker::Tracker;
use crate::wtime::{Winstant, EXPECTED_FRAME_DURATION_MS};

verus! {

/// How long a screen transition animates.
pub const ANIM_DURATION_MS: u32 = 300;

/// A transition that is animating right now.
#[derive(Clone, Copy, PartialEq, Eq, Structural, Debug)]
pub struct ActiveTransition {
    /// The repeating-callback id registered for it with the scheduler.
    pub id: usize,
    pub from: Screen,
    pub to: Screen,
    /// The clock reading at which it started.
    pub start: Winstant,
}

/// The navigation state machine's own state: the transition now animating,
/// if any, and the source of fresh callback ids.
pub struct Navigation {
    pub active: Option<ActiveTransition>,
    pub next_id: usize,
}

/// A transition's progress at reading `now`, in per-mille of the
/// animation's duration, saturated at completion.
pub open spec fn spec_progress_permille(start: Winstant, now: Winstant) -> int {
    let elapsed_ms = (now.0 - start.0) * (EXPECTED_FRAME_DURATION_MS as int);
    let raw = elapsed_ms * (PROGRESS_UNIT as int) / (ANIM_DURATION_MS as int);
    if raw >= PROGRESS_UNIT as int {
        PROGRESS_UNIT as int
    } else {
        raw
    }
}

/// The quartic ease-out curve applied to a per-mille progress value:
/// `1 - (1-p)^4`, scaled to per-mille.
pub open spec fn spec_eased_permille(p: int) -> int {
    let u = PROGRESS_UNIT as int;
    let q = u - p;
    u - (q * q * q * q) / (u * u * u)
}

/// A transition's progress at reading `now`, in per-mille.
pub fn progress_permille(start: Winstant, now: Winstant) -> (r: u32)
    requires
        start.0 <= now.0,
    ensures
        r == spec_progress_permille(start, now),
        r <= PROGRESS_UNIT,
{
    let diff: u32 = now.0 - start.0;
    let diff64: u64 = diff as u64;
    proof {
        assert(diff64 <= 0xffff_ffff);
        assert(diff64 * 16 <= 0xffff_ffff * 16) by (nonlinear_arith)
            requires
                diff64 <= 0xffff_ffff,
        ;
    }
    let elapsed_ms: u64 = diff64 * (EXPECTED_FRAME_DURATION_MS as u64);
    proof {
        assert(elapsed_ms * 1000 <= 0xffff_ffff * 16 * 1000) by (nonlinear_arith)
            requires
                elapsed_ms <= 0xffff_ffff * 16,
        ;
    }
    let scaled: u64 = elapsed_ms * (PROGRESS_UNIT as u64) / (ANIM_DURATION_MS as u64);
    if scaled >= PROGRESS_UNIT as u64 {
        PROGRESS_UNIT
    } else {
        scaled as u32
    }
}

/// The quartic ease-out curve on a per-mille progress value, for the
/// renderer to scale into a pixel offset.
pub fn eased_permille(p: u32) -> (r: u32)
    requires
        p <= PROGRESS_UNIT,
    ensures
        r == spec_eased_permille(p as int),
        r <= PROGRESS_UNIT,
{
    let q: u64 = (PROGRESS_UNIT - p) as u64;
    proof {
        assert(q <= 1000);
        assert(q * q <= 1000000) by (nonlinear_arith)
            requires
                q <= 1000,
        ;
        assert((q * q) * (q * q) <= 1000000000000) by (nonlinear_arith)
            requires
                q * q <= 1000000,
        ;
        assert(q * q * q * q == (q * q) * (q * q)) by (nonlinear_arith);
    }
    let qq: u64 = q * q;
    let quartic: u64 = qq * qq;
    let denom: u64 = 1000000000;
    let scaled: u64 = quartic / denom;
    proof {
        assert(scaled <= 1000) by (nonlinear_arith)
            requires
                quartic <= 1000000000000,
                scaled == quartic / 1000000000u64,
        ;
        assert(denom as int == (PROGRESS_UNIT as int) * (PROGRESS_UNIT as int) * (PROGRESS_UNIT
            as int));
    }
    PROGRESS_UNIT - (scaled as u32)
}

impl Navigation {
    /// Navigation state at process start: no transition animating.
    pub fn new() -> (r: Navigation)
        ensures
            r.active is None,
            r.next_id == 0,
    {
        Navigation { active: None, next_id: 0 }
    }

    /// A process-unique id for a repeating callback; each call answers a
    /// fresh one (until the counter's range is exhausted).
    pub fn get_unique_usize(&mut self) -> (r: usize)
        ensures
            r == old(self).next_id,
            final (self).active == old(self).active,
            old(self).next_id < usize::MAX ==> final (self).next_id == old(self).next_id + 1,
    {
        let id = self.next_id;
        if self.next_id < usize::MAX {
            self.next_id = self.next_id + 1;
        }
        id
    }
}

/// The live intervals after a transition to a new one: any previous
/// transition's interval is cancelled first, then the new id registered.
pub open spec fn spec_transition_intervals(
    m0: Timers,
    prev: Option<ActiveTransition>,
    id: usize,
) -> Seq<usize> {
    (match prev {
        Some(tr) => m0.intervals@.filter(|x: usize| x != tr.id),
        None => m0.intervals@,
    }).push(id)
}

/// Starts the transition animation `from -> to` at reading `now`:
/// cancels any transition still animating, registers a fresh repeating
/// callback for the new one, and records it as active.
fn run_transition(
    timers: &mut Timers,
    nav: &mut Navigation,
    from: Screen,
    to: Screen,
    now: Winstant,
)
    requires
        old(timers).wf(),
    ensures
        final (timers).wf(),
        final (timers).last_calls == old(timers).last_calls,
        final (timers).intervals@ == spec_transition_intervals(
            *old(timers),
            old(nav).active,
            old(nav).next_id,
        ),
        final (nav).active == Some(
            ActiveTransition { id: old(nav).next_id, from, to, start: now },
        ),
{
    match &nav.active {
        Some(tr) => {
            let prev_id = tr.id;
            timers.cancel_interval(prev_id);
        },
        None => {},
    }
    let id = nav.get_unique_usize();
    timers.set_interval(id);
    nav.active = Some(ActiveTransition { id, from, to, start: now });
}

/// Navigates to the pattern screen: the state becomes a just-started
/// transition, the animation callback is registered, and the dispatch
/// list is replaced wholesale by the pattern screen's bindings.
pub fn go_to_pattern_screen(
    tracker: &mut Tracker,
    timers: &mut Timers,
    inputs: &mut Inputs,
    nav: &mut Navigation,
    from: Screen,
    now: Winstant,
)
    requires
        old(timers).wf(),
    ensures
        *final (tracker) == (Tracker {
            screens: Screens::Transition(from, Screen::Pattern, 0),
            ..*old(tracker)
        }),
        final (timers).wf(),
        final (timers).last_calls == old(timers).last_calls,
        final (timers).intervals@ == spec_transition_intervals(
            *old(timers),
            old(nav).active,
            old(nav).next_id,
        ),
        final (nav).active == Some(
            ActiveTransition {
                id: old(nav).next_id,
                from,
                to: Screen::Pattern,
                start: now,
            },
        ),
        final (inputs).handlers@ == spec_pattern_screen_bindings(),
        final (inputs).last_fire_button1 == old(inputs).last_fire_button1,
        final (inputs).double_press_activated == old(inputs).double_press_activated,
        old(tracker).wf() ==> final (tracker).wf(),
{
    tracker.set_screens(Screens::Transition(from, Screen::Pattern, 0));
    run_transition(timers, nav, from, Screen::Pattern, now);
    inputs.unlisten();
    add_pattern_screen_handlers(inputs);
}

/// Navigates to the instrument screen, as `go_to_pattern_screen` does to
/// the pattern screen.
pub fn go_to_instrument_screen(
    tracker: &mut Tracker,
    timers: &mut Timers,
    inputs: &mut Inputs,
    nav: &mut Navigation,
    from: Screen,
    now: Winstant,
)
    requires
        old(timers).wf(),
    ensures
        *final (tracker) == (Tracker {
            screens: Screens::Transition(from, Screen::Instrument, 0),
            ..*old(tracker)
        }),
        final (timers).wf(),
        final (timers).last_calls == old(timers).last_calls,
        final (timers).intervals@ == spec_transition_intervals(
            *old(timers),
            old(nav).active,
            old(nav).next_id,
        ),
        final (nav).active == Some(
            ActiveTransition {
                id: old(nav).next_id,
                from,
                to: Screen::Instrument,
                start: now,
            },
        ),
        final (inputs).handlers@ == spec_instrument_screen_bindings(),
        final (inputs).last_fire_button1 == old(inputs).last_fire_button1,
        final (inputs).double_press_activated == old(inputs).double_press_activated,
        old(tracker).wf() ==> final (tracker).wf(),
{
    tracker.set_screens(Screens::Transition(from, Screen::Instrument, 0));
    run_transition(timers, nav, from, Screen::Instrument, now);
    inputs.unlisten();
    add_instrument_screen_handlers(inputs);
}

/// Navigates to the song screen, as `go_to_pattern_screen` does to the
/// pattern screen.
pub fn go_to_song_screen(
    tracker: &mut Tracker,
    timers: &mut Timers,
    inputs: &mut Inputs,
    nav: &mut Navigation,
    from: Screen,
    now: Winstant,
)
    requires
        old(timers).wf(),
    ensures
        *final (tracker) == (Tracker {
            screens: Screens::Transition(from, Screen::Song, 0),
            ..*old(tracker)
        }),
        final (timers).wf(),
        final (timers).last_calls == old(timers).last_calls,
        final (timers).intervals@ == spec_transition_intervals(
            *old(timers),
            old(nav).active,
            old(nav).next_id,
        ),
        final (nav).active == Some(
            ActiveTransition { id: old(nav).next_id, from, to: Screen::Song, start: now },
        ),
        final (inputs).handlers@ == spec_song_screen_bindings(),
        final (inputs).last_fire_button1 == old(inputs).last_fire_button1,
        final (inputs).double_press_activated == old(inputs).double_press_activated,
        old(tracker).wf() ==> final (tracker).wf(),
{
    tracker.set_screens(Screens::Transition(from, Screen::Song, 0));
    run_transition(timers, nav, from, Screen::Song, now);
    inputs.unlisten();
    add_song_screen_handlers(inputs);
}

/// One frame of the transition animation, run for the repeating callback
/// `id`: while the animation is short of its duration the state publishes
/// the transition with its current progress; at the duration it publishes
/// the destination screen alone and the callback unregisters itself.
/// A callback id that is not the active transition's does nothing.
pub fn nav_tick(
    tracker: &mut Tracker,
    timers: &mut Timers,
    nav: &mut Navigation,
    id: usize,
    now: Winstant,
)
    requires
        old(timers).wf(),
        (match old(nav).active {
            Some(tr) => tr.start.0 <= now.0,
            None => true,
        }),
    ensures
        final (timers).wf(),
        final (timers).last_calls == old(timers).last_calls,
        (match old(nav).active {
            Some(tr) => {
                if tr.id != id {
                    &&& *final (tracker) == *old(tracker)
                    &&& *final (timers) == *old(timers)
                    &&& final (nav).active == old(nav).active
                } else if spec_progress_permille(tr.start, now) < PROGRESS_UNIT {
                    &&& *final (tracker) == (Tracker {
                        screens: Screens::Transition(
                            tr.from,
                            tr.to,
                            spec_progress_permille(tr.start, now) as u32,
                        ),
                        ..*old(tracker)
                    })
                    &&& *final (timers) == *old(timers)
                    &&& final (nav).active == old(nav).active
                } else {
                    &&& *final (tracker) == (Tracker {
                        screens: Screens::Single(tr.to),
                        ..*old(tracker)
                    })
                    &&& final (timers).intervals@ == old(timers).intervals@.filter(
                        (|x: usize| x != id),
                    )
                    &&& final (nav).active is None
                }
            },
            None => {
                &&& *final (tracker) == *old(tracker)
                &&& *final (timers) == *old(timers)
                &&& final (nav).active == old(nav).active
            },
        }),
        final (nav).next_id == old(nav).next_id,
        old(tracker).wf() ==> final (tracker).wf(),
{
    let (tr_id, tr_from, tr_to, tr_start) = match &nav.active {
        Some(tr) => (tr.id, tr.from, tr.to, tr.start),
        None => {
            return ;
        },
    };
    if tr_id != id {
        return ;
    }
    let pm = progress_permille(tr_start, now);
    if pm < PROGRESS_UNIT {
        tracker.set_screens(Screens::Transition(tr_from, tr_to, pm));
    } else {
        tracker.set_screens(Screens::Single(tr_to));
        timers.cancel_interval(id);
        nav.active = None;
    }
}

} // verus!
