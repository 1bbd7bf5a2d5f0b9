//! Overdrive: a stateless saturating wave-shaper. The caller computes
//! `y = tanh(pre_gain * x) * level` from the two stored gains; the effect
//! itself carries no per-sample state, so resetting it changes nothing.

use vstd::prelude::*;

verus! {

/// A stateless soft-clipping wave-shaper with independent drive and output
/// level gains, both held as sample bit patterns.
pub struct Overdrive {
    pre_gain_bits: u32,
    level_bits: u32,
}

impl Overdrive {
    /// The drive gain, as a sample bit pattern.
    pub closed spec fn spec_pre_gain_bits(&self) -> u32 {
        self.pre_gain_bits
    }

    /// The output level, as a sample bit pattern.
    pub closed spec fn spec_level_bits(&self) -> u32 {
        self.level_bits
    }

    /// Builds an overdrive with the given drive and output level gains.
    pub fn new(pre_gain_bits: u32, level_bits: u32) -> (r: Overdrive)
        ensures
            r.spec_pre_gain_bits() == pre_gain_bits,
            r.spec_level_bits() == level_bits,
    {
        Overdrive { pre_gain_bits, level_bits }
    }

    /// The drive gain, as a sample bit pattern.
    pub fn pre_gain_bits(&self) -> (r: u32)
        ensures
            r == self.spec_pre_gain_bits(),
    {
        self.pre_gain_bits
    }

    /// The output level, as a sample bit pattern.
    pub fn level_bits(&self) -> (r: u32)
        ensures
            r == self.spec_level_bits(),
    {
        self.level_bits
    }

    /// There is no per-sample state to restore: the effect is unchanged.
    pub fn reset(&mut self)
        ensures
            *final(self) == *old(self),
    {
    }
}

} // verus!
