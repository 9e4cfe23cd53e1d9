//! The four timbre lanes of the sequencer, totally ordered
//! Pulse1 < Pulse2 < Triangle < Noise.

use vstd::prelude::*;

verus! {

#[derive(Clone, Copy, PartialEq, Eq, Structural, Debug)]
pub enum Channel {
    Pulse1,
    Pulse2,
    Triangle,
    Noise,
}

impl Channel {
    /// Position of the channel in the fixed order.
    pub open spec fn spec_rank(self) -> int {
        match self {
            Channel::Pulse1 => 0,
            Channel::Pulse2 => 1,
            Channel::Triangle => 2,
            Channel::Noise => 3,
        }
    }

    /// All four channels, in order.
    pub fn iterator() -> (r: Vec<Channel>)
        ensures
            r@ == seq![Channel::Pulse1, Channel::Pulse2, Channel::Triangle, Channel::Noise],
    {
        let mut v: Vec<Channel> = Vec::new();
        v.push(Channel::Pulse1);
        v.push(Channel::Pulse2);
        v.push(Channel::Triangle);
        v.push(Channel::Noise);
        proof {
            assert(v@ =~= seq![
                Channel::Pulse1,
                Channel::Pulse2,
                Channel::Triangle,
                Channel::Noise,
            ]);
        }
        v
    }

    /// The channel one step later in the order; the last one stays put.
    pub fn next(&self) -> (r: Self)
        ensures
            r.spec_rank() == if self.spec_rank() < 3 { self.spec_rank() + 1 } else { 3int },
    {
        match self {
            Channel::Pulse1 => Channel::Pulse2,
            Channel::Pulse2 => Channel::Triangle,
            Channel::Triangle => Channel::Noise,
            Channel::Noise => Channel::Noise,
        }
    }

    /// The channel one step earlier in the order; the first one stays put.
    pub fn prev(&self) -> (r: Self)
        ensures
            r.spec_rank() == if self.spec_rank() > 0 { self.spec_rank() - 1 } else { 0int },
    {
        match self {
            Channel::Pulse1 => Channel::Pulse1,
            Channel::Pulse2 => Channel::Pulse1,
            Channel::Triangle => Channel::Pulse2,
            Channel::Noise => Channel::Triangle,
        }
    }
}

} // verus!
