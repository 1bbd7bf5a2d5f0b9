//! Schroeder reverb: four parallel comb filters summed and averaged, then two
//! serial all-pass filters, then a dry/wet mix. Each filter is one circular
//! buffer with one feedback coefficient. A comb step reads the cell at the
//! cursor (the value from a full revolution ago), returns it, and overwrites
//! the cell with `input + feedback * output`; an all-pass step does the same
//! write but returns `-feedback * input + buffer[cursor]` instead.

use vstd::prelude::*;

use crate::delay::MAX_SAMPLE_RATE;
use crate::ring::DelayLine;
use crate::sample::clamp_unit_bits;
use crate::sample::spec_clamp_unit;
use crate::ring::MAX_LINE_LEN;

verus! {

/// Feedback of the first comb (0.84 as a sample bit pattern).
pub const COMB_ONE_FEEDBACK_BITS: u32 = 0x3F57_0A3D;

/// Feedback of the second comb (0.83 as a sample bit pattern).
pub const COMB_TWO_FEEDBACK_BITS: u32 = 0x3F54_7AE1;

/// Feedback of the third comb (0.82 as a sample bit pattern).
pub const COMB_THREE_FEEDBACK_BITS: u32 = 0x3F51_EB85;

/// Feedback of the fourth comb (0.80 as a sample bit pattern).
pub const COMB_FOUR_FEEDBACK_BITS: u32 = 0x3F4C_CCCD;

/// Feedback of both all-pass filters (0.7 as a sample bit pattern).
pub const ALLPASS_FEEDBACK_BITS: u32 = 0x3F33_3333;

/// The default dry/wet mix (0.3 as a sample bit pattern).
pub const DEFAULT_MIX_BITS: u32 = 0x3E99_999A;

/// A feedback comb filter: one circular buffer and one feedback coefficient.
pub struct CombFilter {
    line: DelayLine,
    feedback_bits: u32,
}

impl CombFilter {
    /// The delay line, as an abstract value.
    pub closed spec fn spec_line(&self) -> DelayLine {
        self.line
    }

    /// The feedback coefficient, as a sample bit pattern.
    pub closed spec fn spec_feedback_bits(&self) -> u32 {
        self.feedback_bits
    }

    /// Structural invariant.
    pub open spec fn wf(&self) -> bool {
        self.spec_line().wf()
    }

    /// Builds a comb filter with a zeroed buffer of exactly `delay_samples`
    /// cells. A very low sample rate can derive zero cells; such a filter is
    /// well formed but cannot run.
    pub fn new(delay_samples: usize, feedback_bits: u32) -> (r: CombFilter)
        requires
            delay_samples <= MAX_LINE_LEN,
        ensures
            r.wf(),
            r.spec_line().capacity() == delay_samples,
            r.spec_line().is_fresh(),
            r.spec_feedback_bits() == feedback_bits,
    {
        CombFilter { line: DelayLine::new(delay_samples), feedback_bits }
    }

    /// The filter output for the current step: the cell at the cursor, which
    /// holds what was written a full revolution ago.
    pub fn read(&self) -> (r: u32)
        requires
            self.wf(),
            self.spec_line().capacity() > 0,
        ensures
            r == self.spec_line().contents()[self.spec_line().cursor()],
    {
        proof {
            let cap = self.spec_line().capacity();
            let cur = self.spec_line().cursor();
            assert((cap + cur) % cap == cur) by (nonlinear_arith)
                requires
                    0 < cap,
                    0 <= cur < cap,
            ;
        }
        self.line.tap(0)
    }

    /// Finishes the step: overwrites the cell at the cursor with the new
    /// recirculating value and advances the cursor.
    pub fn push(&mut self, v: u32)
        requires
            old(self).wf(),
            old(self).spec_line().capacity() > 0,
        ensures
            final(self).wf(),
            final(self).spec_feedback_bits() == old(self).spec_feedback_bits(),
            final(self).spec_line().capacity() == old(self).spec_line().capacity(),
            final(self).spec_line().contents() == old(self).spec_line().contents().update(
                old(self).spec_line().cursor(),
                v,
            ),
            final(self).spec_line().cursor() == (old(self).spec_line().cursor() + 1) % old(
                self,
            ).spec_line().capacity(),
    {
        self.line.push(v);
    }

    /// Restores the construction-time state, keeping size and feedback.
    pub fn reset(&mut self)
        requires
            old(self).wf(),
        ensures
            final(self).wf(),
            final(self).spec_feedback_bits() == old(self).spec_feedback_bits(),
            final(self).spec_line().capacity() == old(self).spec_line().capacity(),
            final(self).spec_line().is_fresh(),
    {
        self.line.reset();
    }

    /// The feedback coefficient, as a sample bit pattern.
    pub fn feedback_bits(&self) -> (r: u32)
        ensures
            r == self.spec_feedback_bits(),
    {
        self.feedback_bits
    }

    /// The buffer size.
    pub fn size(&self) -> (r: usize)
        ensures
            r == self.spec_line().capacity(),
    {
        self.line.size()
    }
}

/// An all-pass filter: the same buffer recurrence as the comb, but the step
/// output additionally subtracts a scaled copy of the input.
pub struct AllPassFilter {
    line: DelayLine,
    feedback_bits: u32,
}

impl AllPassFilter {
    /// The delay line, as an abstract value.
    pub closed spec fn spec_line(&self) -> DelayLine {
        self.line
    }

    /// The feedback coefficient, as a sample bit pattern.
    pub closed spec fn spec_feedback_bits(&self) -> u32 {
        self.feedback_bits
    }

    /// Structural invariant.
    pub open spec fn wf(&self) -> bool {
        self.spec_line().wf()
    }

    /// Builds an all-pass filter with a zeroed buffer of exactly
    /// `delay_samples` cells.
    pub fn new(delay_samples: usize, feedback_bits: u32) -> (r: AllPassFilter)
        requires
            delay_samples <= MAX_LINE_LEN,
        ensures
            r.wf(),
            r.spec_line().capacity() == delay_samples,
            r.spec_line().is_fresh(),
            r.spec_feedback_bits() == feedback_bits,
    {
        AllPassFilter { line: DelayLine::new(delay_samples), feedback_bits }
    }

    /// The buffered value for the current step: the cell at the cursor. The
    /// caller combines it with the input to form the step output.
    pub fn read(&self) -> (r: u32)
        requires
            self.wf(),
            self.spec_line().capacity() > 0,
        ensures
            r == self.spec_line().contents()[self.spec_line().cursor()],
    {
        proof {
            let cap = self.spec_line().capacity();
            let cur = self.spec_line().cursor();
            assert((cap + cur) % cap == cur) by (nonlinear_arith)
                requires
                    0 < cap,
                    0 <= cur < cap,
            ;
        }
        self.line.tap(0)
    }

    /// Finishes the step: overwrites the cell at the cursor with the new
    /// recirculating value and advances the cursor.
    pub fn push(&mut self, v: u32)
        requires
            old(self).wf(),
            old(self).spec_line().capacity() > 0,
        ensures
            final(self).wf(),
            final(self).spec_feedback_bits() == old(self).spec_feedback_bits(),
            final(self).spec_line().capacity() == old(self).spec_line().capacity(),
            final(self).spec_line().contents() == old(self).spec_line().contents().update(
                old(self).spec_line().cursor(),
                v,
            ),
            final(self).spec_line().cursor() == (old(self).spec_line().cursor() + 1) % old(
                self,
            ).spec_line().capacity(),
    {
        self.line.push(v);
    }

    /// Restores the construction-time state, keeping size and feedback.
    pub fn reset(&mut self)
        requires
            old(self).wf(),
        ensures
            final(self).wf(),
            final(self).spec_feedback_bits() == old(self).spec_feedback_bits(),
            final(self).spec_line().capacity() == old(self).spec_line().capacity(),
            final(self).spec_line().is_fresh(),
    {
        self.line.reset();
    }

    /// The feedback coefficient, as a sample bit pattern.
    pub fn feedback_bits(&self) -> (r: u32)
        ensures
            r == self.spec_feedback_bits(),
    {
        self.feedback_bits
    }

    /// The buffer size.
    pub fn size(&self) -> (r: usize)
        ensures
            r == self.spec_line().capacity(),
    {
        self.line.size()
    }
}

/// The delay in milliseconds of comb `k` (36, 31, 41, 27): deliberately
/// near-coprime lengths, to decorrelate echo density.
pub open spec fn comb_ms(k: int) -> int {
    if k == 0 {
        36
    } else if k == 1 {
        31
    } else if k == 2 {
        41
    } else {
        27
    }
}

/// The feedback bit pattern of comb `k` (0.84, 0.83, 0.82, 0.80).
pub open spec fn comb_feedback_of(k: int) -> u32 {
    if k == 0 {
        COMB_ONE_FEEDBACK_BITS
    } else if k == 1 {
        COMB_TWO_FEEDBACK_BITS
    } else if k == 2 {
        COMB_THREE_FEEDBACK_BITS
    } else {
        COMB_FOUR_FEEDBACK_BITS
    }
}

/// The buffer length of comb `k` at a given sample rate.
pub open spec fn comb_len_for(sample_rate: int, k: int) -> int {
    sample_rate * comb_ms(k) / 1000
}

/// The buffer length of all-pass `k` at a given sample rate (about 5 ms and
/// 1.7 ms).
pub open spec fn allpass_len_for(sample_rate: int, k: int) -> int {
    if k == 0 {
        sample_rate * 5 / 1000
    } else {
        sample_rate * 17 / 10000
    }
}

/// A Schroeder reverb network: four parallel combs, two serial all-passes,
/// and a dry/wet mix coefficient.
pub struct Reverb {
    comb_one: CombFilter,
    comb_two: CombFilter,
    comb_three: CombFilter,
    comb_four: CombFilter,
    allpass_one: AllPassFilter,
    allpass_two: AllPassFilter,
    mix_bits: u32,
    sample_rate: usize,
}

impl Reverb {
    /// Comb `k` of the parallel bank.
    pub closed spec fn spec_comb(&self, k: int) -> CombFilter {
        if k == 0 {
            self.comb_one
        } else if k == 1 {
            self.comb_two
        } else if k == 2 {
            self.comb_three
        } else {
            self.comb_four
        }
    }

    /// All-pass `k` of the serial chain.
    pub closed spec fn spec_allpass(&self, k: int) -> AllPassFilter {
        if k == 0 {
            self.allpass_one
        } else {
            self.allpass_two
        }
    }

    /// The dry/wet mix, as a sample bit pattern.
    pub closed spec fn spec_mix_bits(&self) -> u32 {
        self.mix_bits
    }

    /// The sample rate the filter lengths are derived from.
    pub closed spec fn spec_sample_rate(&self) -> int {
        self.sample_rate as int
    }

    /// Comb `k` is well formed, sized and tuned for the stored rate.
    pub open spec fn comb_fits(&self, k: int) -> bool {
        &&& self.spec_comb(k).wf()
        &&& self.spec_comb(k).spec_line().capacity() == comb_len_for(self.spec_sample_rate(), k)
        &&& self.spec_comb(k).spec_feedback_bits() == comb_feedback_of(k)
    }

    /// All-pass `k` is well formed, sized and tuned for the stored rate.
    pub open spec fn allpass_fits(&self, k: int) -> bool {
        &&& self.spec_allpass(k).wf()
        &&& self.spec_allpass(k).spec_line().capacity() == allpass_len_for(
            self.spec_sample_rate(),
            k,
        )
        &&& self.spec_allpass(k).spec_feedback_bits() == ALLPASS_FEEDBACK_BITS
    }

    /// Structural invariant: every filter is well formed, sized and tuned for
    /// the stored sample rate.
    pub open spec fn wf(&self) -> bool {
        &&& self.spec_sample_rate() <= MAX_SAMPLE_RATE
        &&& self.comb_fits(0)
        &&& self.comb_fits(1)
        &&& self.comb_fits(2)
        &&& self.comb_fits(3)
        &&& self.allpass_fits(0)
        &&& self.allpass_fits(1)
    }

    /// Every filter buffer is non-empty, so a processing step cannot index
    /// out of bounds. False only for very low sample rates.
    pub open spec fn spec_runnable(&self) -> bool {
        &&& self.spec_comb(0).spec_line().capacity() > 0
        &&& self.spec_comb(1).spec_line().capacity() > 0
        &&& self.spec_comb(2).spec_line().capacity() > 0
        &&& self.spec_comb(3).spec_line().capacity() > 0
        &&& self.spec_allpass(0).spec_line().capacity() > 0
        &&& self.spec_allpass(1).spec_line().capacity() > 0
    }

    /// Every filter holds only zeros with its cursor at the start.
    pub open spec fn spec_quiescent(&self) -> bool {
        &&& self.spec_comb(0).spec_line().is_fresh()
        &&& self.spec_comb(1).spec_line().is_fresh()
        &&& self.spec_comb(2).spec_line().is_fresh()
        &&& self.spec_comb(3).spec_line().is_fresh()
        &&& self.spec_allpass(0).spec_line().is_fresh()
        &&& self.spec_allpass(1).spec_line().is_fresh()
    }

    /// The construction parameters of `other` equal those of `self` (the mix
    /// is runtime-settable state, not a construction parameter).
    pub open spec fn params_eq(&self, other: &Reverb) -> bool {
        self.spec_sample_rate() == other.spec_sample_rate()
    }

    /// Builds the default network for a sample rate: combs of about 36, 31,
    /// 41 and 27 ms with feedbacks 0.84, 0.83, 0.82 and 0.80, all-passes of
    /// about 5 and 1.7 ms with feedback 0.7, and a 30% wet mix.
    pub fn new(sample_rate: usize) -> (r: Reverb)
        requires
            sample_rate <= MAX_SAMPLE_RATE,
        ensures
            r.wf(),
            r.spec_sample_rate() == sample_rate,
            r.spec_mix_bits() == DEFAULT_MIX_BITS,
            r.spec_quiescent(),
    {
        let sr: u64 = sample_rate as u64;
        let comb_one = CombFilter::new((sr * 36 / 1000) as usize, COMB_ONE_FEEDBACK_BITS);
        let comb_two = CombFilter::new((sr * 31 / 1000) as usize, COMB_TWO_FEEDBACK_BITS);
        let comb_three = CombFilter::new((sr * 41 / 1000) as usize, COMB_THREE_FEEDBACK_BITS);
        let comb_four = CombFilter::new((sr * 27 / 1000) as usize, COMB_FOUR_FEEDBACK_BITS);
        let allpass_one = AllPassFilter::new((sr * 5 / 1000) as usize, ALLPASS_FEEDBACK_BITS);
        let allpass_two = AllPassFilter::new((sr * 17 / 10000) as usize, ALLPASS_FEEDBACK_BITS);
        Reverb {
            comb_one,
            comb_two,
            comb_three,
            comb_four,
            allpass_one,
            allpass_two,
            mix_bits: DEFAULT_MIX_BITS,
            sample_rate,
        }
    }

    /// Whether every filter buffer is non-empty, so steps can run.
    pub fn runnable(&self) -> (r: bool)
        requires
            self.wf(),
        ensures
            r == self.spec_runnable(),
    {
        self.comb_one.size() > 0 && self.comb_two.size() > 0 && self.comb_three.size() > 0
            && self.comb_four.size() > 0 && self.allpass_one.size() > 0 && self.allpass_two.size()
            > 0
    }

    /// The output of comb `k` for the current step.
    pub fn comb_read(&self, k: usize) -> (r: u32)
        requires
            self.wf(),
            self.spec_runnable(),
            k < 4,
        ensures
            r == self.spec_comb(k as int).spec_line().contents()[self.spec_comb(
                k as int,
            ).spec_line().cursor()],
    {
        match k {
            0 => self.comb_one.read(),
            1 => self.comb_two.read(),
            2 => self.comb_three.read(),
            _ => self.comb_four.read(),
        }
    }

    /// Finishes comb `k`'s step with its new recirculating value; every other
    /// filter and the mix are untouched.
    pub fn comb_push(&mut self, k: usize, v: u32)
        requires
            old(self).wf(),
            old(self).spec_runnable(),
            k < 4,
        ensures
            final(self).wf(),
            final(self).spec_runnable(),
            final(self).params_eq(old(self)),
            final(self).spec_mix_bits() == old(self).spec_mix_bits(),
            k != 0 ==> final(self).spec_comb(0) == old(self).spec_comb(0),
            k != 1 ==> final(self).spec_comb(1) == old(self).spec_comb(1),
            k != 2 ==> final(self).spec_comb(2) == old(self).spec_comb(2),
            k != 3 ==> final(self).spec_comb(3) == old(self).spec_comb(3),
            final(self).spec_allpass(0) == old(self).spec_allpass(0),
            final(self).spec_allpass(1) == old(self).spec_allpass(1),
            final(self).spec_comb(k as int).spec_line().contents() == old(self).spec_comb(
                k as int,
            ).spec_line().contents().update(old(self).spec_comb(k as int).spec_line().cursor(), v),
            final(self).spec_comb(k as int).spec_line().cursor() == (old(self).spec_comb(
                k as int,
            ).spec_line().cursor() + 1) % old(self).spec_comb(k as int).spec_line().capacity(),
    {
        match k {
            0 => self.comb_one.push(v),
            1 => self.comb_two.push(v),
            2 => self.comb_three.push(v),
            _ => self.comb_four.push(v),
        }
    }

    /// The feedback coefficient of comb `k`, as a sample bit pattern.
    pub fn comb_feedback_bits(&self, k: usize) -> (r: u32)
        requires
            k < 4,
        ensures
            r == self.spec_comb(k as int).spec_feedback_bits(),
    {
        match k {
            0 => self.comb_one.feedback_bits(),
            1 => self.comb_two.feedback_bits(),
            2 => self.comb_three.feedback_bits(),
            _ => self.comb_four.feedback_bits(),
        }
    }

    /// The buffered value of all-pass `k` for the current step.
    pub fn allpass_read(&self, k: usize) -> (r: u32)
        requires
            self.wf(),
            self.spec_runnable(),
            k < 2,
        ensures
            r == self.spec_allpass(k as int).spec_line().contents()[self.spec_allpass(
                k as int,
            ).spec_line().cursor()],
    {
        match k {
            0 => self.allpass_one.read(),
            _ => self.allpass_two.read(),
        }
    }

    /// Finishes all-pass `k`'s step with its new recirculating value; every
    /// other filter and the mix are untouched.
    pub fn allpass_push(&mut self, k: usize, v: u32)
        requires
            old(self).wf(),
            old(self).spec_runnable(),
            k < 2,
        ensures
            final(self).wf(),
            final(self).spec_runnable(),
            final(self).params_eq(old(self)),
            final(self).spec_mix_bits() == old(self).spec_mix_bits(),
            final(self).spec_comb(0) == old(self).spec_comb(0),
            final(self).spec_comb(1) == old(self).spec_comb(1),
            final(self).spec_comb(2) == old(self).spec_comb(2),
            final(self).spec_comb(3) == old(self).spec_comb(3),
            k != 0 ==> final(self).spec_allpass(0) == old(self).spec_allpass(0),
            k != 1 ==> final(self).spec_allpass(1) == old(self).spec_allpass(1),
            final(self).spec_allpass(k as int).spec_line().contents() == old(self).spec_allpass(
                k as int,
            ).spec_line().contents().update(
                old(self).spec_allpass(k as int).spec_line().cursor(),
                v,
            ),
            final(self).spec_allpass(k as int).spec_line().cursor() == (old(self).spec_allpass(
                k as int,
            ).spec_line().cursor() + 1) % old(self).spec_allpass(
                k as int,
            ).spec_line().capacity(),
    {
        match k {
            0 => self.allpass_one.push(v),
            _ => self.allpass_two.push(v),
        }
    }

    /// The feedback coefficient of all-pass `k`, as a sample bit pattern.
    pub fn allpass_feedback_bits(&self, k: usize) -> (r: u32)
        requires
            k < 2,
        ensures
            r == self.spec_allpass(k as int).spec_feedback_bits(),
    {
        match k {
            0 => self.allpass_one.feedback_bits(),
            _ => self.allpass_two.feedback_bits(),
        }
    }

    /// Replaces the dry/wet mix, clamped to `[0, 1]` (NaN passes through, as
    /// the strict-comparison clamp of the single-precision type has it).
    /// Every filter is untouched.
    pub fn set_mix(&mut self, mix_bits: u32)
        ensures
            final(self).params_eq(old(self)),
            final(self).wf() == old(self).wf(),
            final(self).spec_runnable() == old(self).spec_runnable(),
            final(self).spec_comb(0) == old(self).spec_comb(0),
            final(self).spec_comb(1) == old(self).spec_comb(1),
            final(self).spec_comb(2) == old(self).spec_comb(2),
            final(self).spec_comb(3) == old(self).spec_comb(3),
            final(self).spec_allpass(0) == old(self).spec_allpass(0),
            final(self).spec_allpass(1) == old(self).spec_allpass(1),
            final(self).spec_mix_bits() == spec_clamp_unit(mix_bits),
    {
        self.mix_bits = clamp_unit_bits(mix_bits);
    }

    /// The dry/wet mix, as a sample bit pattern.
    pub fn mix_bits(&self) -> (r: u32)
        ensures
            r == self.spec_mix_bits(),
    {
        self.mix_bits
    }

    /// The sample rate the filter lengths are derived from.
    pub fn sample_rate(&self) -> (r: usize)
        ensures
            r == self.spec_sample_rate(),
    {
        self.sample_rate
    }

    /// Zeroes every comb and all-pass buffer and cursor, keeping delay
    /// lengths, feedback coefficients and the mix.
    pub fn reset(&mut self)
        requires
            old(self).wf(),
        ensures
            final(self).wf(),
            final(self).params_eq(old(self)),
            final(self).spec_mix_bits() == old(self).spec_mix_bits(),
            final(self).spec_runnable() == old(self).spec_runnable(),
            final(self).spec_quiescent(),
    {
        self.comb_one.reset();
        self.comb_two.reset();
        self.comb_three.reset();
        self.comb_four.reset();
        self.allpass_one.reset();
        self.allpass_two.reset();
    }
}

} // verus!
