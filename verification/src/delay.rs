//! Feedback delay: a single-tap recirculating delay line. Each step reads the
//! sample written `delay_samples` steps ago, the caller mixes it with the
//! input (`y = x + feedback * delayed`), and the mixed output is written back
//! into the line, so repeated echoes decay geometrically.

use vstd::prelude::*;

use crate::ring::lemma_line_tap_timing;
use crate::sample::clamp_unit_bits;
use crate::sample::spec_clamp_unit;
use crate::ring::run_line;
use crate::ring::DelayLine;
use crate::ring::MAX_LINE_LEN;

verus! {

/// Largest accepted sample rate (the full 32-bit range).
pub const MAX_SAMPLE_RATE: usize = 0xFFFF_FFFF;

/// Largest accepted delay time in microseconds.
pub const MAX_DELAY_US: usize = 1_000_000_000;

/// A single-tap feedback delay over a circular buffer.
///
/// The buffer holds `delay_samples + 1` cells so that even a zero-length
/// delay (every sample fed straight back into itself) is well defined.
pub struct Delay {
    line: DelayLine,
    delay_samples: usize,
    feedback_bits: u32,
}

impl Delay {
    /// The delay line, as an abstract value.
    pub closed spec fn spec_line(&self) -> DelayLine {
        self.line
    }

    /// The tap distance in whole samples.
    pub closed spec fn spec_delay_samples(&self) -> int {
        self.delay_samples as int
    }

    /// The feedback coefficient, as a sample bit pattern.
    pub closed spec fn spec_feedback_bits(&self) -> u32 {
        self.feedback_bits
    }

    /// Structural invariant: the line is well formed and exactly one cell
    /// longer than the tap distance.
    pub open spec fn wf(&self) -> bool {
        &&& self.spec_line().wf()
        &&& self.spec_line().capacity() == self.spec_delay_samples() + 1
    }

    /// The sample the next read will return: the cell `delay_samples` behind
    /// the write cursor.
    pub open spec fn spec_delayed(&self) -> u32 {
        self.spec_line().contents()[self.spec_line().read_index(self.spec_delay_samples())]
    }

    /// The number of whole samples a delay time in microseconds spans at a
    /// given rate, rounded to nearest (half away from zero).
    pub open spec fn samples_for(sample_rate: int, delay_us: int) -> int {
        (delay_us * sample_rate + 500_000) / 1_000_000
    }

    /// Builds a delay with a zeroed buffer sized for the given delay time in
    /// microseconds.
    ///
    /// The feedback coefficient is taken as a sample bit pattern and clamped
    /// to `[0, 1]` (NaN passes through, as the strict-comparison clamp of
    /// the single-precision type has it).
    pub fn new(sample_rate: usize, delay_us: usize, feedback_bits: u32) -> (r: Delay)
        requires
            sample_rate <= MAX_SAMPLE_RATE,
            delay_us <= MAX_DELAY_US,
            Delay::samples_for(sample_rate as int, delay_us as int) + 1 <= MAX_LINE_LEN,
        ensures
            r.wf(),
            r.spec_delay_samples() == Delay::samples_for(sample_rate as int, delay_us as int),
            r.spec_feedback_bits() == spec_clamp_unit(feedback_bits),
            r.spec_line().is_fresh(),
    {
        proof {
            assert((delay_us as int) * (sample_rate as int) <= 1_000_000_000 * 0xFFFF_FFFF)
                by (nonlinear_arith)
                requires
                    0 <= delay_us <= MAX_DELAY_US,
                    0 <= sample_rate <= MAX_SAMPLE_RATE,
            ;
        }
        let n: u64 = ((delay_us as u64) * (sample_rate as u64) + 500_000) / 1_000_000;
        let delay_samples: usize = n as usize;
        Delay {
            line: DelayLine::new(delay_samples + 1),
            delay_samples,
            feedback_bits: clamp_unit_bits(feedback_bits),
        }
    }

    /// Reads the sample written `delay_samples` steps ago (zero while the
    /// line has not yet been written there).
    pub fn delayed(&self) -> (r: u32)
        requires
            self.wf(),
        ensures
            r == self.spec_delayed(),
    {
        self.line.tap(self.delay_samples)
    }

    /// Records one output sample: writes it at the cursor and advances, so it
    /// becomes the delayed tap `delay_samples` steps from now.
    pub fn push_output(&mut self, out: u32)
        requires
            old(self).wf(),
        ensures
            final(self).wf(),
            final(self).spec_delay_samples() == old(self).spec_delay_samples(),
            final(self).spec_feedback_bits() == old(self).spec_feedback_bits(),
            final(self).spec_line().contents() == old(self).spec_line().contents().update(
                old(self).spec_line().cursor(),
                out,
            ),
            final(self).spec_line().cursor() == (old(self).spec_line().cursor() + 1) % old(
                self,
            ).spec_line().capacity(),
    {
        self.line.push(out);
    }

    /// Restores the construction-time state: a zeroed buffer and a cursor at
    /// the start, with the tap distance and feedback untouched.
    pub fn reset(&mut self)
        requires
            old(self).wf(),
        ensures
            final(self).wf(),
            final(self).spec_delay_samples() == old(self).spec_delay_samples(),
            final(self).spec_feedback_bits() == old(self).spec_feedback_bits(),
            final(self).spec_line().is_fresh(),
    {
        self.line.reset();
    }

    /// The tap distance in whole samples.
    pub fn delay_samples(&self) -> (r: usize)
        ensures
            r == self.spec_delay_samples(),
    {
        self.delay_samples
    }

    /// The feedback coefficient, as a sample bit pattern.
    pub fn feedback_bits(&self) -> (r: u32)
        ensures
            r == self.spec_feedback_bits(),
    {
        self.feedback_bits
    }
}

/// Echo timing of the feedback delay: when the line state is the run of the
/// outputs recorded so far, the delayed tap is exactly the output from
/// `delay_samples` steps ago (one step ago for a zero-length delay, whose
/// single cell recirculates immediately), and exactly zero while fewer
/// outputs than that have been recorded. A unit impulse therefore reappears
/// for the first time precisely `delay_samples` steps after it went in.
pub proof fn lemma_echo_timing(d: Delay, outs: Seq<u32>)
    requires
        d.wf(),
        d.spec_line().model() == run_line(d.spec_line().capacity(), outs),
    ensures
        ({
            let eff = if d.spec_delay_samples() == 0 {
                1int
            } else {
                d.spec_delay_samples()
            };
            d.spec_delayed() == if outs.len() >= eff {
                outs[outs.len() - eff]
            } else {
                0u32
            }
        }),
{
    let size = d.spec_line().capacity();
    lemma_line_tap_timing(size, outs, d.spec_delay_samples());
}

} // verus!
