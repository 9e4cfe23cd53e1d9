//! Frame-based time: an instant is a monotonic frame counter reading, and a
//! duration is a span of wall-clock milliseconds that converts to whole
//! frames at a fixed frame rate.

use vstd::prelude::*;

verus! {

/// Milliseconds per frame at the fixed 60-frames-per-second host rate,
/// rounded down to whole milliseconds.
pub const EXPECTED_FRAME_DURATION_MS: u32 = 1000 / 60;

/// A reading of the monotonic frame clock.
#[derive(Clone, Copy, PartialEq, Eq, Structural, Debug)]
pub struct Winstant(pub u32);

/// A span of time, held in milliseconds.
#[derive(Clone, Copy, PartialEq, Eq, Structural, Debug)]
pub struct Duration(pub u32);

/// Conversion from a number of frames into a time span.
pub trait FromFrames: Sized {
    fn from_frames(x: u32) -> Self;
}

impl Duration {
    /// How many whole frames this span covers.
    pub open spec fn spec_frames(self) -> int {
        self.0 as int / EXPECTED_FRAME_DURATION_MS as int
    }

    pub fn from_millis(ms: u32) -> (r: Duration)
        ensures
            r.0 == ms,
    {
        Duration(ms)
    }

    pub fn as_millis(&self) -> (r: u32)
        ensures
            r == self.0,
    {
        self.0
    }

    pub fn frames(&self) -> (r: u32)
        ensures
            r == self.spec_frames(),
    {
        self.0 / EXPECTED_FRAME_DURATION_MS
    }
}

impl FromFrames for Duration {
    fn from_frames(x: u32) -> (r: Self)
        ensures
            r.0 == x * EXPECTED_FRAME_DURATION_MS || r.0 == u32::MAX,
            x * EXPECTED_FRAME_DURATION_MS <= u32::MAX ==> r.0 == x * EXPECTED_FRAME_DURATION_MS,
    {
        match x.checked_mul(EXPECTED_FRAME_DURATION_MS) {
            Some(ms) => Duration(ms),
            None => Duration(u32::MAX),
        }
    }
}

impl Winstant {
    /// The reading this instant reaches after `d` has passed. Saturates at
    /// the end of the counter's range; the unbounded sum is what contracts
    /// compare against, and a comparison against a saturated reading agrees
    /// with the unbounded one for every reachable clock value.
    pub open spec fn spec_plus(self, d: Duration) -> int {
        self.0 + d.spec_frames()
    }

    pub fn plus(self, d: Duration) -> (r: Winstant)
        ensures
            r.0 == self.spec_plus(d) || r.0 == u32::MAX,
            self.spec_plus(d) <= u32::MAX ==> r.0 == self.spec_plus(d),
    {
        Winstant(self.0.saturating_add(d.frames()))
    }

    /// Whether this reading is strictly after `other + d`, compared without
    /// wrapping: the comparison is exact even where the sum would not fit in
    /// the counter.
    pub fn is_after_by(self, other: Winstant, d: Duration) -> (r: bool)
        ensures
            r == (self.0 > other.spec_plus(d)),
    {
        let bound = other.plus(d);
        if bound.0 == u32::MAX {
            false
        } else {
            self.0 > bound.0
        }
    }

    /// Whether this reading is strictly before `other + d`, compared
    /// without wrapping: the comparison is exact even where the sum would
    /// not fit in the counter.
    pub fn is_before_by(self, other: Winstant, d: Duration) -> (r: bool)
        ensures
            r == ((self.0 as int) < other.spec_plus(d)),
    {
        match other.0.checked_add(d.frames()) {
            Some(bound) => self.0 < bound,
            None => true,
        }
    }

    /// The next frame's reading; the counter saturates rather than wraps.
    pub fn next(self) -> (r: Winstant)
        ensures
            self.0 < u32::MAX ==> r.0 == self.0 + 1,
            self.0 == u32::MAX ==> r.0 == u32::MAX,
    {
        Winstant(self.0.saturating_add(1))
    }

    /// The span between this reading and an earlier one.
    pub fn duration_since(&self, earlier: Winstant) -> (r: Duration)
        requires
            self.0 >= earlier.0,
            (self.0 - earlier.0) * EXPECTED_FRAME_DURATION_MS <= u32::MAX,
        ensures
            r.0 == (self.0 - earlier.0) * EXPECTED_FRAME_DURATION_MS,
    {
        Duration::from_frames(self.0 - earlier.0)
    }
}

} // verus!
