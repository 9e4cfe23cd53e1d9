//! The debounce/timer scheduler: it remembers, per action, the clock
//! reading at which the action last fired and suppresses a repeat within a
//! minimum interval; it also keeps the set of live repeating callbacks
//! ("intervals") the frame driver runs once per frame.

use vstd::prelude::*;

use crate::wtime::{Duration, Winstant};

verus! {

/// Number of distinct debounced actions.
pub const N_ACTION_IDS: usize = 25;

/// Every action the debouncer distinguishes. Each holds its own last-fired
/// record.
#[derive(Clone, Copy, PartialEq, Eq, Structural, Hash, Debug)]
pub enum ActionId {
    Play,
    Persist,
    NavNextScreen,
    NavPrevScreen,
    InstrumentValueDownActionId,
    InstrumentNextInputActionId,
    InstrumentValueUpActionId,
    InstrumentPrevInputActionId,
    InstrumentValuePrevActionId,
    InstrumentValueNextActionId,
    PatternPitchOctaveDown,
    PatternNavDown,
    PatternPitchOctaveUp,
    PatternNavUp,
    PatternPitchUp,
    PatternInstrumentNext,
    PatternPitchDown,
    PatternInstrumentPrev,
    SongNextRow,
    SongPrevRow,
    SongDecrementPattern,
    SongPrevChannel,
    SongIncrementPattern,
    SongNextChannel,
    SongAddPattern,
}

impl ActionId {
    /// The action's slot in the last-fired table.
    pub open spec fn spec_index(self) -> int {
        match self {
            ActionId::Play => 0,
            ActionId::Persist => 1,
            ActionId::NavNextScreen => 2,
            ActionId::NavPrevScreen => 3,
            ActionId::InstrumentValueDownActionId => 4,
            ActionId::InstrumentNextInputActionId => 5,
            ActionId::InstrumentValueUpActionId => 6,
            ActionId::InstrumentPrevInputActionId => 7,
            ActionId::InstrumentValuePrevActionId => 8,
            ActionId::InstrumentValueNextActionId => 9,
            ActionId::PatternPitchOctaveDown => 10,
            ActionId::PatternNavDown => 11,
            ActionId::PatternPitchOctaveUp => 12,
            ActionId::PatternNavUp => 13,
            ActionId::PatternPitchUp => 14,
            ActionId::PatternInstrumentNext => 15,
            ActionId::PatternPitchDown => 16,
            ActionId::PatternInstrumentPrev => 17,
            ActionId::SongNextRow => 18,
            ActionId::SongPrevRow => 19,
            ActionId::SongDecrementPattern => 20,
            ActionId::SongPrevChannel => 21,
            ActionId::SongIncrementPattern => 22,
            ActionId::SongNextChannel => 23,
            ActionId::SongAddPattern => 24,
        }
    }

    pub fn index(&self) -> (r: usize)
        ensures
            r == self.spec_index(),
            r < N_ACTION_IDS,
    {
        match *self {
            ActionId::Play => 0,
            ActionId::Persist => 1,
            ActionId::NavNextScreen => 2,
            ActionId::NavPrevScreen => 3,
            ActionId::InstrumentValueDownActionId => 4,
            ActionId::InstrumentNextInputActionId => 5,
            ActionId::InstrumentValueUpActionId => 6,
            ActionId::InstrumentPrevInputActionId => 7,
            ActionId::InstrumentValuePrevActionId => 8,
            ActionId::InstrumentValueNextActionId => 9,
            ActionId::PatternPitchOctaveDown => 10,
            ActionId::PatternNavDown => 11,
            ActionId::PatternPitchOctaveUp => 12,
            ActionId::PatternNavUp => 13,
            ActionId::PatternPitchUp => 14,
            ActionId::PatternInstrumentNext => 15,
            ActionId::PatternPitchDown => 16,
            ActionId::PatternInstrumentPrev => 17,
            ActionId::SongNextRow => 18,
            ActionId::SongPrevRow => 19,
            ActionId::SongDecrementPattern => 20,
            ActionId::SongPrevChannel => 21,
            ActionId::SongIncrementPattern => 22,
            ActionId::SongNextChannel => 23,
            ActionId::SongAddPattern => 24,
        }
    }
}

/// Whether a debounced action is due: it fires when it never fired before,
/// or strictly more than the interval after its last firing (a call at
/// exactly `last + interval` is still suppressed).
pub open spec fn spec_debounce_fires(last: Option<Winstant>, interval: Duration, now: Winstant) -> bool {
    match last {
        None => true,
        Some(l) => now.0 > l.spec_plus(interval),
    }
}


/// Relates a scheduler before and after one debounced attempt of
/// `action_id` at `now`: when the action is due its record moves to `now`,
/// otherwise nothing changes; intervals are untouched either way.
pub open spec fn spec_debounced_to(
    m0: Timers,
    m1: Timers,
    action_id: ActionId,
    interval: Duration,
    now: Winstant,
) -> bool {
    &&& m1.intervals == m0.intervals
    &&& m1.last_calls@ == (if spec_debounce_fires(m0.spec_last_call(action_id), interval, now) {
        m0.last_calls@.update(action_id.spec_index(), Some(now))
    } else {
        m0.last_calls@
    })
}

/// The scheduler: a last-fired reading per action, and the ids of the live
/// repeating callbacks, in registration order.
pub struct Timers {
    pub last_calls: Vec<Option<Winstant>>,
    pub intervals: Vec<usize>,
}

impl Timers {
    /// The last-fired table always has one slot per action.
    pub open spec fn wf(self) -> bool {
        self.last_calls@.len() == N_ACTION_IDS
    }

    /// The reading at which an action last fired, if it ever did.
    pub open spec fn spec_last_call(self, id: ActionId) -> Option<Winstant> {
        self.last_calls@[id.spec_index()]
    }

    /// A scheduler with no record of any firing and no live interval.
    pub fn new() -> (r: Timers)
        ensures
            r.wf(),
            forall|id: ActionId| #[trigger] r.spec_last_call(id) is None,
            r.intervals@ == Seq::<usize>::empty(),
    {
        let mut last_calls: Vec<Option<Winstant>> = Vec::new();
        let mut i: usize = 0;
        while i < N_ACTION_IDS
            invariant
                i <= N_ACTION_IDS,
                last_calls@.len() == i,
                forall|j: int| 0 <= j < i ==> (#[trigger] last_calls@[j]) is None,
            decreases N_ACTION_IDS - i,
        {
            last_calls.push(None);
            i = i + 1;
        }
        let r = Timers { last_calls, intervals: Vec::new() };
        proof {
            assert(r.intervals@ =~= Seq::<usize>::empty());
        }
        r
    }

    /// Forgets every last-fired record; live intervals stay as they are.
    pub fn init(&mut self)
        ensures
            final (self).wf(),
            forall|id: ActionId| #[trigger] final (self).spec_last_call(id) is None,
            final (self).intervals == old(self).intervals,
    {
        let mut last_calls: Vec<Option<Winstant>> = Vec::new();
        let mut i: usize = 0;
        while i < N_ACTION_IDS
            invariant
                i <= N_ACTION_IDS,
                last_calls@.len() == i,
                forall|j: int| 0 <= j < i ==> (#[trigger] last_calls@[j]) is None,
            decreases N_ACTION_IDS - i,
        {
            last_calls.push(None);
            i = i + 1;
        }
        self.last_calls = last_calls;
    }

    /// Records that the action fired at `now`.
    fn run_action(&mut self, action_id: ActionId, now: Winstant)
        requires
            old(self).wf(),
        ensures
            final (self).wf(),
            final (self).last_calls@ == old(self).last_calls@.update(
                action_id.spec_index(),
                Some(now),
            ),
            final (self).intervals == old(self).intervals,
    {
        let idx = action_id.index();
        self.last_calls[idx] = Some(now);
    }

    /// Fires the action iff it is due at `now` (never fired, or strictly
    /// later than its last firing plus `interval`), recording `now` as its
    /// last firing when it does. The caller performs the action iff this
    /// answers true.
    pub fn run_action_debounced(&mut self, action_id: ActionId, interval: Duration, now: Winstant) -> (fired:
        bool)
        requires
            old(self).wf(),
        ensures
            final (self).wf(),
            fired == spec_debounce_fires(old(self).spec_last_call(action_id), interval, now),
            spec_debounced_to(*old(self), *final (self), action_id, interval, now),
            fired ==> final (self).last_calls@ == old(self).last_calls@.update(
                action_id.spec_index(),
                Some(now),
            ),
            !fired ==> *final (self) == *old(self),
            final (self).intervals == old(self).intervals,
    {
        let idx = action_id.index();
        match self.last_calls[idx] {
            Some(last_call) => {
                if now.is_after_by(last_call, interval) {
                    self.run_action(action_id, now);
                    true
                } else {
                    false
                }
            },
            None => {
                self.run_action(action_id, now);
                true
            },
        }
    }

    /// Registers a repeating callback under `id` and hands the id back.
    /// Re-registering a live id is the caller's mistake: cancel first.
    pub fn set_interval(&mut self, id: usize) -> (r: usize)
        ensures
            r == id,
            final (self).intervals@ == old(self).intervals@.push(id),
            final (self).last_calls == old(self).last_calls,
            old(self).wf() ==> final (self).wf(),
    {
        self.intervals.push(id);
        id
    }

    /// Removes every registration of `id` from the live intervals, keeping
    /// the others in order.
    pub fn cancel_interval(&mut self, interval_id: usize)
        ensures
            final (self).intervals@ == old(self).intervals@.filter(
                |x: usize| x != interval_id,
            ),
            final (self).last_calls == old(self).last_calls,
            old(self).wf() ==> final (self).wf(),
    {
        let ghost pred = |x: usize| x != interval_id;
        let n = self.intervals.len();
        let mut kept: Vec<usize> = Vec::new();
        let mut i: usize = 0;
        proof {
            assert(old(self).intervals@.subrange(0, 0) =~= Seq::<usize>::empty());
            assert(Seq::<usize>::empty().filter(pred) =~= Seq::<usize>::empty()) by {
                reveal(Seq::filter);
            }
        }
        while i < n
            invariant
                n == self.intervals@.len(),
                i <= n,
                kept@ == self.intervals@.subrange(0, i as int).filter(pred),
                pred == (|x: usize| x != interval_id),
            decreases n - i,
        {
            let x = self.intervals[i];
            proof {
                let prefix = self.intervals@.subrange(0, i as int);
                let next_prefix = self.intervals@.subrange(0, i + 1);
                assert(next_prefix.drop_last() =~= prefix);
                assert(next_prefix.last() == self.intervals@[i as int]);
                reveal(Seq::filter);
            }
            if x != interval_id {
                kept.push(x);
            }
            i = i + 1;
        }
        proof {
            assert(self.intervals@.subrange(0, n as int) =~= self.intervals@);
        }
        self.intervals = kept;
    }

    /// The ids of the live repeating callbacks, in registration order: the
    /// frame driver runs each one's callback once per frame.
    pub fn tick(&self) -> (r: Vec<usize>)
        ensures
            r@ == self.intervals@,
    {
        let n = self.intervals.len();
        let mut r: Vec<usize> = Vec::new();
        let mut i: usize = 0;
        while i < n
            invariant
                n == self.intervals@.len(),
                i <= n,
                r@ == self.intervals@.subrange(0, i as int),
            decreases n - i,
        {
            r.push(self.intervals[i]);
            proof {
                assert(r@ =~= self.intervals@.subrange(0, i + 1));
            }
            i = i + 1;
        }
        proof {
            assert(r@ =~= self.intervals@);
        }
        r
    }

    /// Whether any live interval carries `id`.
    pub fn has_interval(&self, id: usize) -> (r: bool)
        ensures
            r == self.intervals@.contains(id),
    {
        let n = self.intervals.len();
        let mut i: usize = 0;
        while i < n
            invariant
                n == self.intervals@.len(),
                i <= n,
                forall|j: int| 0 <= j < i ==> self.intervals@[j] != id,
            decreases n - i,
        {
            if self.intervals[i] == id {
                proof {
                    assert(self.intervals@.contains(id));
                }
                return true;
            }
            i = i + 1;
        }
        proof {
            assert(!self.intervals@.contains(id));
        }
        false
    }
}

/// Law: two attempts at one action, at readings `t0` then `t1`, both fire
/// iff the second comes strictly more than the interval after the first.
/// An action with no prior record always fires at `t0` and records it; the
/// attempt at `t1` then fires iff `t1 > t0 + interval`, and is suppressed
/// at exactly `t1 == t0 + interval`.
pub proof fn lemma_debounce_pair(m: Timers, id: ActionId, interval: Duration, t0: Winstant, t1: Winstant)
    requires
        m.wf(),
        m.spec_last_call(id) is None,
    ensures
        spec_debounce_fires(m.spec_last_call(id), interval, t0),
        spec_debounce_fires(Some(t0), interval, t1) <==> t1.0 > t0.spec_plus(interval),
        t1.0 == t0.spec_plus(interval) ==> !spec_debounce_fires(Some(t0), interval, t1),
{
}

} // verus!
