//! Which screen is shown, and the state of a timed transition between two
//! screens. Transition progress is held in per-mille (0 ..= 1000), so that
//! the animation state stays in integers; the renderer scales it to pixels.

use vstd::prelude::*;

verus! {

pub const PROGRESS_UNIT: u32 = 1000;

#[derive(Clone, Copy, PartialEq, Eq, Structural, Debug)]
pub enum Screen {
    Song,
    Chain,
    Pattern,
    Instrument,
}

/// The navigation state the renderer consumes: either one screen, or an
/// animated transition from one screen to another with a progress value in
/// per-mille of the animation's duration.
#[derive(Clone, Copy, PartialEq, Eq, Structural, Debug)]
pub enum Screens {
    Single(Screen),
    Transition(Screen, Screen, u32),
}

} // verus!
