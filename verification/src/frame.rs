//! Stereo sample pairs and the arithmetic that mixes them.

use vstd::prelude::*;
use crate::fixed::{mul_fixed, spec_abs, spec_mul_fixed, MUL_LIMIT, ONE};

verus! {

/// One stereo sample: the left and the right value, in fixed point.
#[derive(Debug, Clone, Copy, PartialEq, Eq, Structural)]
pub struct Frame {
    pub l: i64,
    pub r: i64,
}

impl Default for Frame {
    /// The silent frame.
    fn default() -> (f: Frame)
        ensures
            f == (Frame { l: 0, r: 0 }),
    {
        Frame { l: 0, r: 0 }
    }
}

impl Frame {
    /// Both values are at most `limit` in magnitude.
    pub open spec fn within(self, limit: int) -> bool {
        &&& -limit <= self.l <= limit
        &&& -limit <= self.r <= limit
    }

    /// The sum of two frames, channel by channel.
    pub open spec fn spec_plus(self, other: Frame) -> Frame {
        Frame { l: (self.l + other.l) as i64, r: (self.r + other.r) as i64 }
    }

    /// The frame with `gain` applied to both channels.
    pub open spec fn spec_scaled(self, gain: int) -> Frame {
        Frame {
            l: spec_mul_fixed(self.l as int, gain) as i64,
            r: spec_mul_fixed(self.r as int, gain) as i64,
        }
    }

    /// The product of two frames, channel by channel.
    pub open spec fn spec_times(self, other: Frame) -> Frame {
        Frame {
            l: spec_mul_fixed(self.l as int, other.l as int) as i64,
            r: spec_mul_fixed(self.r as int, other.r as int) as i64,
        }
    }

    /// The frame with `amount` added to both channels.
    pub open spec fn spec_offset(self, amount: int) -> Frame {
        Frame { l: (self.l + amount) as i64, r: (self.r + amount) as i64 }
    }

    /// The silent frame.
    pub fn silence() -> (f: Frame)
        ensures
            f == (Frame { l: 0, r: 0 }),
    {
        Frame { l: 0, r: 0 }
    }

    /// The sum of two frames, channel by channel.
    pub fn plus(self, other: Frame) -> (sum: Frame)
        requires
            self.within(MUL_LIMIT as int),
            other.within(MUL_LIMIT as int),
        ensures
            sum == self.spec_plus(other),
            sum.l == self.l + other.l,
            sum.r == self.r + other.r,
    {
        Frame { l: self.l + other.l, r: self.r + other.r }
    }

    /// The frame with `amount` added to both channels.
    pub fn offset(self, amount: i64) -> (moved: Frame)
        requires
            self.within(MUL_LIMIT as int),
            -MUL_LIMIT <= amount <= MUL_LIMIT,
        ensures
            moved == self.spec_offset(amount as int),
            moved.l == self.l + amount,
            moved.r == self.r + amount,
    {
        Frame { l: self.l + amount, r: self.r + amount }
    }

    /// The frame with `gain` applied to both channels. A gain of at most 1.0
    /// in magnitude never makes a channel larger.
    pub fn scaled(self, gain: i64) -> (out: Frame)
        requires
            self.within(MUL_LIMIT as int),
            -MUL_LIMIT <= gain <= MUL_LIMIT,
        ensures
            out == self.spec_scaled(gain as int),
            spec_abs(gain as int) <= ONE ==> spec_abs(out.l as int) <= spec_abs(self.l as int)
                && spec_abs(out.r as int) <= spec_abs(self.r as int),
            spec_abs(out.l as int) <= (spec_abs(self.l as int) * spec_abs(gain as int)) / (ONE as int),
            spec_abs(out.r as int) <= (spec_abs(self.r as int) * spec_abs(gain as int)) / (ONE as int),
    {
        Frame { l: mul_fixed(self.l, gain), r: mul_fixed(self.r, gain) }
    }

    /// The product of two frames, channel by channel.
    pub fn times(self, other: Frame) -> (out: Frame)
        requires
            self.within(MUL_LIMIT as int),
            other.within(MUL_LIMIT as int),
        ensures
            out == self.spec_times(other),
            other.within(ONE as int) ==> spec_abs(out.l as int) <= spec_abs(self.l as int) && spec_abs(
                out.r as int,
            ) <= spec_abs(self.r as int),
    {
        Frame { l: mul_fixed(self.l, other.l), r: mul_fixed(self.r, other.r) }
    }
}

/// The sum of the frames, channel by channel.
pub open spec fn spec_sum(frames: Seq<Frame>) -> (int, int)
    decreases frames.len(),
{
    if frames.len() == 0 {
        (0, 0)
    } else {
        let rest = spec_sum(frames.drop_last());
        (rest.0 + frames.last().l, rest.1 + frames.last().r)
    }
}

} // verus!
