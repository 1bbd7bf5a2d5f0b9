//! Distortion: hard clipping followed by one-pole low-pass smoothing. The
//! effect clips the input to `[-threshold, threshold]` at the bit level and
//! stores the single scalar of filter memory `y[n-1]`; the caller applies
//! the recurrence `y[n] = y[n-1] + alpha * (clipped - y[n-1])`, where
//! `alpha = 2*pi*cutoff_hz / sample_rate`.

use vstd::prelude::*;

use crate::sample::float_le;
use crate::sample::float_lt;
use crate::sample::is_nan_bits;
use crate::sample::lt_bits;
use crate::sample::magnitude_bits;
use crate::sample::neg_bits;
use crate::sample::sign_bit;

verus! {

/// The pattern is a positive, non-NaN value (infinity allowed): what a clip
/// threshold must be.
pub open spec fn positive_threshold_bits(b: u32) -> bool {
    &&& !sign_bit(b)
    &&& magnitude_bits(b) <= 0x7F80_0000
    &&& magnitude_bits(b) != 0
}

/// What hard clipping to `[-t, t]` returns: the nearer bound when the value
/// lies outside, the value itself when it lies inside, and `-t` for NaN
/// (the maximum of NaN and `-t` is `-t`, which the upper clip keeps).
pub open spec fn spec_clip(t: u32, x: u32) -> u32 {
    if is_nan_bits(x) {
        neg_bits(t)
    } else if float_lt(x, neg_bits(t)) {
        neg_bits(t)
    } else if float_lt(t, x) {
        t
    } else {
        x
    }
}

/// Hard clip plus one-pole low-pass. The clip threshold and the cutoff
/// frequency are held as bit patterns and the sample rate as a plain
/// integer; the caller derives the smoothing coefficient from the latter
/// two.
pub struct Distortion {
    threshold_bits: u32,
    cutoff_hz_bits: u32,
    sample_rate: u32,
    previous_bits: u32,
}

impl Distortion {
    /// The clip threshold, as a sample bit pattern.
    pub closed spec fn spec_threshold_bits(&self) -> u32 {
        self.threshold_bits
    }

    /// The low-pass cutoff frequency in hertz, as a bit pattern.
    pub closed spec fn spec_cutoff_hz_bits(&self) -> u32 {
        self.cutoff_hz_bits
    }

    /// The sample rate the smoothing coefficient is derived from.
    pub closed spec fn spec_sample_rate(&self) -> u32 {
        self.sample_rate
    }

    /// The filter memory `y[n-1]`, as a sample bit pattern.
    pub closed spec fn spec_previous_bits(&self) -> u32 {
        self.previous_bits
    }

    /// Builds a distortion with zeroed filter memory.
    pub fn new(threshold_bits: u32, cutoff_hz_bits: u32, sample_rate: u32) -> (r: Distortion)
        ensures
            r.spec_threshold_bits() == threshold_bits,
            r.spec_cutoff_hz_bits() == cutoff_hz_bits,
            r.spec_sample_rate() == sample_rate,
            r.spec_previous_bits() == 0u32,
    {
        Distortion { threshold_bits, cutoff_hz_bits, sample_rate, previous_bits: 0 }
    }

    /// The clip threshold, as a sample bit pattern.
    pub fn threshold_bits(&self) -> (r: u32)
        ensures
            r == self.spec_threshold_bits(),
    {
        self.threshold_bits
    }

    /// The low-pass cutoff frequency in hertz, as a bit pattern.
    pub fn cutoff_hz_bits(&self) -> (r: u32)
        ensures
            r == self.spec_cutoff_hz_bits(),
    {
        self.cutoff_hz_bits
    }

    /// The sample rate the smoothing coefficient is derived from.
    pub fn sample_rate(&self) -> (r: u32)
        ensures
            r == self.spec_sample_rate(),
    {
        self.sample_rate
    }

    /// The filter memory `y[n-1]`, as a sample bit pattern.
    pub fn previous_bits(&self) -> (r: u32)
        ensures
            r == self.spec_previous_bits(),
    {
        self.previous_bits
    }

    /// Hard-clips a sample to `[-threshold, threshold]`: the distortion's
    /// first stage. The result always lies inside that range in the
    /// single-precision order, whatever the input — the boundedness that
    /// keeps the following low-pass fed with a bounded signal.
    pub fn clip(&self, x_bits: u32) -> (r: u32)
        requires
            positive_threshold_bits(self.spec_threshold_bits()),
        ensures
            r == spec_clip(self.spec_threshold_bits(), x_bits),
            float_le(neg_bits(self.spec_threshold_bits()), r),
            float_le(r, self.spec_threshold_bits()),
            !is_nan_bits(r),
    {
        let t = self.threshold_bits;
        proof {
            assert(((t ^ 0x8000_0000u32) & 0x7FFF_FFFFu32) == (t & 0x7FFF_FFFFu32))
                by (bit_vector);
            assert(((t ^ 0x8000_0000u32) & 0x8000_0000u32 != 0) == (t & 0x8000_0000u32 == 0))
                by (bit_vector);
        }
        let neg_t = t ^ 0x8000_0000;
        let mag_x = x_bits & 0x7FFF_FFFF;
        if mag_x > 0x7F80_0000 {
            neg_t
        } else if lt_bits(x_bits, neg_t) {
            neg_t
        } else if lt_bits(t, x_bits) {
            t
        } else {
            x_bits
        }
    }

    /// Records the new filter memory after one smoothing step; the parameters
    /// are untouched.
    pub fn set_previous_bits(&mut self, v: u32)
        ensures
            final(self).spec_threshold_bits() == old(self).spec_threshold_bits(),
            final(self).spec_cutoff_hz_bits() == old(self).spec_cutoff_hz_bits(),
            final(self).spec_sample_rate() == old(self).spec_sample_rate(),
            final(self).spec_previous_bits() == v,
    {
        self.previous_bits = v;
    }

    /// Restores the construction-time state: zero filter memory, parameters
    /// untouched.
    pub fn reset(&mut self)
        ensures
            final(self).spec_threshold_bits() == old(self).spec_threshold_bits(),
            final(self).spec_cutoff_hz_bits() == old(self).spec_cutoff_hz_bits(),
            final(self).spec_sample_rate() == old(self).spec_sample_rate(),
            final(self).spec_previous_bits() == 0u32,
    {
        self.previous_bits = 0;
    }
}

} // verus!
