//! Chorus: a modulated fractional delay mixed with the dry signal. Each step
//! writes the input at the cursor, the caller turns the LFO phase into a
//! fractional delay (`base + depth * sin(2*pi*phase)`), reads the two
//! neighbouring cells of that fractional position and blends them linearly,
//! and the cursor then advances. The base delay is fixed at 10 ms.

use vstd::prelude::*;

use crate::delay::MAX_SAMPLE_RATE;
use crate::ring::DelayLine;
use crate::ring::MAX_LINE_LEN;

verus! {

/// The fixed base delay, in microseconds (10 ms).
pub const BASE_DELAY_US: usize = 10_000;

/// Largest accepted modulation depth, in microseconds.
pub const MAX_DEPTH_US: usize = 10_000_000;

/// A modulated fractional delay. The delay line and write cursor live here;
/// the LFO phase is carried as a sample bit pattern, advanced by the caller
/// each step.
pub struct Chorus {
    line: DelayLine,
    sample_rate: usize,
    lfo_freq_bits: u32,
    depth_us: usize,
    lfo_phase_bits: u32,
}

impl Chorus {
    /// The delay line, as an abstract value.
    pub closed spec fn spec_line(&self) -> DelayLine {
        self.line
    }

    /// The sample rate the delay lengths are derived from.
    pub closed spec fn spec_sample_rate(&self) -> int {
        self.sample_rate as int
    }

    /// The LFO frequency in hertz, as a sample bit pattern.
    pub closed spec fn spec_lfo_freq_bits(&self) -> u32 {
        self.lfo_freq_bits
    }

    /// The modulation depth in microseconds.
    pub closed spec fn spec_depth_us(&self) -> int {
        self.depth_us as int
    }

    /// The LFO phase in `[0, 1)`, as a sample bit pattern.
    pub closed spec fn spec_lfo_phase_bits(&self) -> u32 {
        self.lfo_phase_bits
    }

    /// The construction parameters of `other` equal those of `self`.
    pub open spec fn params_eq(&self, other: &Chorus) -> bool {
        &&& self.spec_sample_rate() == other.spec_sample_rate()
        &&& self.spec_lfo_freq_bits() == other.spec_lfo_freq_bits()
        &&& self.spec_depth_us() == other.spec_depth_us()
    }

    /// The line length needed for the base delay plus the full modulation
    /// depth, with two cells of headroom for the interpolation neighbour.
    pub open spec fn line_len_for(sample_rate: int, depth_us: int) -> int {
        (sample_rate * (BASE_DELAY_US + depth_us) + 999_999) / 1_000_000 + 2
    }

    /// Structural invariant: the line is well formed and sized for the full
    /// modulation range.
    pub open spec fn wf(&self) -> bool {
        &&& self.spec_line().wf()
        &&& self.spec_line().capacity() == Chorus::line_len_for(
            self.spec_sample_rate(),
            self.spec_depth_us(),
        )
    }

    /// Builds a chorus with a zeroed line and a zero LFO phase.
    pub fn new(sample_rate: usize, lfo_freq_bits: u32, depth_us: usize) -> (r: Chorus)
        requires
            sample_rate <= MAX_SAMPLE_RATE,
            depth_us <= MAX_DEPTH_US,
            Chorus::line_len_for(sample_rate as int, depth_us as int) <= MAX_LINE_LEN,
        ensures
            r.wf(),
            r.spec_sample_rate() == sample_rate,
            r.spec_lfo_freq_bits() == lfo_freq_bits,
            r.spec_depth_us() == depth_us,
            r.spec_lfo_phase_bits() == 0u32,
            r.spec_line().is_fresh(),
    {
        proof {
            assert((sample_rate as int) * ((BASE_DELAY_US + depth_us) as int) <= 0xFFFF_FFFF
                * 10_010_000) by (nonlinear_arith)
                requires
                    0 <= sample_rate <= MAX_SAMPLE_RATE,
                    0 <= depth_us <= MAX_DEPTH_US,
            ;
        }
        let span: u64 = (sample_rate as u64) * ((BASE_DELAY_US + depth_us) as u64);
        let cells: u64 = (span + 999_999) / 1_000_000;
        let size: usize = (cells as usize) + 2;
        Chorus {
            line: DelayLine::new(size),
            sample_rate,
            lfo_freq_bits,
            depth_us,
            lfo_phase_bits: 0,
        }
    }

    /// The line length.
    pub fn size(&self) -> (r: usize)
        ensures
            r == self.spec_line().capacity(),
    {
        self.line.size()
    }

    /// The current write position.
    pub fn write_cursor(&self) -> (r: usize)
        ensures
            r == self.spec_line().cursor(),
    {
        self.line.cursor_pos()
    }

    /// Writes the input sample at the cursor, leaving the cursor in place.
    pub fn store_input(&mut self, x: u32)
        requires
            old(self).wf(),
        ensures
            final(self).wf(),
            final(self).params_eq(old(self)),
            final(self).spec_lfo_phase_bits() == old(self).spec_lfo_phase_bits(),
            final(self).spec_line().cursor() == old(self).spec_line().cursor(),
            final(self).spec_line().contents() == old(self).spec_line().contents().update(
                old(self).spec_line().cursor(),
                x,
            ),
    {
        self.line.store(x);
    }

    /// Reads the two neighbouring cells of an integer read position, both
    /// wrapped into the line: the cell at `i mod size` and the cell one
    /// position later. The caller blends the pair by the fractional part of
    /// its read position.
    pub fn tap_pair(&self, i: usize) -> (r: (u32, u32))
        requires
            self.wf(),
        ensures
            r.0 == self.spec_line().contents()[(i as int) % self.spec_line().capacity()],
            r.1 == self.spec_line().contents()[((i as int) % self.spec_line().capacity() + 1)
                % self.spec_line().capacity()],
    {
        let size = self.line.size();
        let k = i % size;
        let a = self.line.read_at(k);
        let b = self.line.read_at((k + 1) % size);
        (a, b)
    }

    /// Advances the write cursor one position, wrapping at the line boundary.
    pub fn advance(&mut self)
        requires
            old(self).wf(),
        ensures
            final(self).wf(),
            final(self).params_eq(old(self)),
            final(self).spec_lfo_phase_bits() == old(self).spec_lfo_phase_bits(),
            final(self).spec_line().contents() == old(self).spec_line().contents(),
            final(self).spec_line().cursor() == (old(self).spec_line().cursor() + 1) % old(
                self,
            ).spec_line().capacity(),
    {
        self.line.advance();
    }

    /// The LFO phase, as a sample bit pattern.
    pub fn lfo_phase_bits(&self) -> (r: u32)
        ensures
            r == self.spec_lfo_phase_bits(),
    {
        self.lfo_phase_bits
    }

    /// Records the LFO phase after one step; everything else is untouched.
    pub fn set_lfo_phase_bits(&mut self, v: u32)
        ensures
            final(self).wf() == old(self).wf(),
            final(self).params_eq(old(self)),
            final(self).spec_line() == old(self).spec_line(),
            final(self).spec_lfo_phase_bits() == v,
    {
        self.lfo_phase_bits = v;
    }

    /// The sample rate the delay lengths are derived from.
    pub fn sample_rate(&self) -> (r: usize)
        ensures
            r == self.spec_sample_rate(),
    {
        self.sample_rate
    }

    /// The LFO frequency in hertz, as a sample bit pattern.
    pub fn lfo_freq_bits(&self) -> (r: u32)
        ensures
            r == self.spec_lfo_freq_bits(),
    {
        self.lfo_freq_bits
    }

    /// The modulation depth in microseconds.
    pub fn depth_us(&self) -> (r: usize)
        ensures
            r == self.spec_depth_us(),
    {
        self.depth_us
    }

    /// Restores the construction-time state: a zeroed line, cursor at the
    /// start and a zero LFO phase, with the parameters untouched.
    pub fn reset(&mut self)
        requires
            old(self).wf(),
        ensures
            final(self).wf(),
            final(self).params_eq(old(self)),
            final(self).spec_line().is_fresh(),
            final(self).spec_lfo_phase_bits() == 0u32,
    {
        self.line.reset();
        self.lfo_phase_bits = 0;
    }
}

} // verus!
