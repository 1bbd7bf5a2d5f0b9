//! Effect selection and dispatch: the closed set of effect variants, the
//! factory that builds one from a case-insensitive name and a sample rate,
//! and the uniform state-reset operation over every variant.

use vstd::prelude::*;

use crate::chorus::Chorus;
use crate::delay::Delay;
use crate::distortion::Distortion;
use crate::overdrive::Overdrive;
use crate::reverb::DEFAULT_MIX_BITS;
use crate::reverb::Reverb;
use vstd::string::StrSliceExecFns;

verus! {

/// Default overdrive drive gain (5.0 as a sample bit pattern).
pub const OVERDRIVE_PRE_GAIN_BITS: u32 = 0x40A0_0000;

/// Default overdrive output level (1.0 as a sample bit pattern).
pub const OVERDRIVE_LEVEL_BITS: u32 = 0x3F80_0000;

/// Default distortion clip threshold (0.1 as a sample bit pattern).
pub const DISTORTION_THRESHOLD_BITS: u32 = 0x3DCC_CCCD;

/// Default distortion low-pass cutoff (2000.0 Hz as a bit pattern).
pub const DISTORTION_CUTOFF_HZ_BITS: u32 = 0x44FA_0000;

/// Default chorus LFO frequency (10.0 Hz as a sample bit pattern).
pub const CHORUS_LFO_FREQ_BITS: u32 = 0x4120_0000;

/// Default chorus modulation depth in microseconds (1.2 ms).
pub const CHORUS_DEPTH_US: usize = 1200;

/// Default delay time in microseconds (450 ms).
pub const DELAY_TIME_US: usize = 450_000;

/// Default delay feedback (0.45 as a sample bit pattern).
pub const DELAY_FEEDBACK_BITS: u32 = 0x3EE6_6666;

/// The closed set of effects, each wrapping its own parameterized instance.
/// Dispatch is by this tag alone.
pub enum EffectType {
    Overdrive(Overdrive),
    Distortion(Distortion),
    Chorus(Chorus),
    Delay(Delay),
    Reverb(Reverb),
}

/// The one configuration error: the effect name matches no variant.
#[derive(Clone, Copy, Debug, PartialEq, Eq, Structural)]
pub enum EffectError {
    UnknownEffect,
}

/// The code point of a character with ASCII letters folded to lower case;
/// anything outside `A..Z` is left as it is.
pub open spec fn fold_code(c: char) -> int {
    if 65 <= c as int && c as int <= 90 {
        c as int + 32
    } else {
        c as int
    }
}

/// `name` selects `target`: the same characters up to ASCII case.
pub open spec fn selects(name: Seq<char>, target: Seq<char>) -> bool {
    &&& name.len() == target.len()
    &&& forall|j: int| 0 <= j < name.len() ==> fold_code(name[j]) == #[trigger] target[j] as int
}

/// Compares a name against a lower-case target, folding ASCII case.
fn name_selects(name: &str, target: &str) -> (r: bool)
    ensures
        r == selects(name@, target@),
{
    let n = name.unicode_len();
    let t = target.unicode_len();
    if n != t {
        return false;
    }
    let mut i: usize = 0;
    while i < n
        invariant
            n == name@.len(),
            n == target@.len(),
            i <= n,
            forall|j: int| 0 <= j < i ==> fold_code(name@[j]) == #[trigger] target@[j] as int,
        decreases n - i,
    {
        let c = name.get_char(i) as u32;
        let tc = target.get_char(i) as u32;
        let fc: u32 = if 65 <= c && c <= 90 {
            c + 32
        } else {
            c
        };
        if fc != tc {
            return false;
        }
        i = i + 1;
    }
    true
}

impl EffectType {
    /// Structural invariant of the wrapped instance.
    pub open spec fn wf(&self) -> bool {
        match self {
            EffectType::Overdrive(_) => true,
            EffectType::Distortion(_) => true,
            EffectType::Chorus(e) => e.wf(),
            EffectType::Delay(e) => e.wf(),
            EffectType::Reverb(e) => e.wf(),
        }
    }

    /// `post` is `pre` with its per-sample state restored to the
    /// construction-time zero state and every parameter kept.
    pub open spec fn reset_relates(pre: EffectType, post: EffectType) -> bool {
        match (pre, post) {
            (EffectType::Overdrive(a), EffectType::Overdrive(b)) => b == a,
            (EffectType::Distortion(a), EffectType::Distortion(b)) => {
                &&& b.spec_threshold_bits() == a.spec_threshold_bits()
                &&& b.spec_cutoff_hz_bits() == a.spec_cutoff_hz_bits()
                &&& b.spec_sample_rate() == a.spec_sample_rate()
                &&& b.spec_previous_bits() == 0u32
            },
            (EffectType::Chorus(a), EffectType::Chorus(b)) => {
                &&& b.params_eq(&a)
                &&& b.spec_line().is_fresh()
                &&& b.spec_lfo_phase_bits() == 0u32
            },
            (EffectType::Delay(a), EffectType::Delay(b)) => {
                &&& b.spec_delay_samples() == a.spec_delay_samples()
                &&& b.spec_feedback_bits() == a.spec_feedback_bits()
                &&& b.spec_line().is_fresh()
            },
            (EffectType::Reverb(a), EffectType::Reverb(b)) => {
                &&& b.params_eq(&a)
                &&& b.spec_mix_bits() == a.spec_mix_bits()
                &&& b.spec_quiescent()
            },
            _ => false,
        }
    }

    /// Restores the construction-time zero state of the wrapped instance:
    /// buffers, cursors, filter memory and LFO phase, never the parameters.
    pub fn reset(&mut self)
        requires
            old(self).wf(),
        ensures
            final(self).wf(),
            EffectType::reset_relates(*old(self), *final(self)),
    {
        match self {
            EffectType::Overdrive(e) => e.reset(),
            EffectType::Distortion(e) => e.reset(),
            EffectType::Chorus(e) => e.reset(),
            EffectType::Delay(e) => e.reset(),
            EffectType::Reverb(e) => e.reset(),
        }
    }
}

/// `e` is the overdrive that `make_effect` builds.
pub open spec fn is_default_overdrive(e: EffectType) -> bool {
    &&& e matches EffectType::Overdrive(o)
    &&& o.spec_pre_gain_bits() == OVERDRIVE_PRE_GAIN_BITS
    &&& o.spec_level_bits() == OVERDRIVE_LEVEL_BITS
}

/// `e` is the distortion that `make_effect` builds for this rate.
pub open spec fn is_default_distortion(e: EffectType, sample_rate: u32) -> bool {
    &&& e matches EffectType::Distortion(d)
    &&& d.spec_threshold_bits() == DISTORTION_THRESHOLD_BITS
    &&& d.spec_cutoff_hz_bits() == DISTORTION_CUTOFF_HZ_BITS
    &&& d.spec_sample_rate() == sample_rate
    &&& d.spec_previous_bits() == 0u32
}

/// `e` is the chorus that `make_effect` builds for this rate.
pub open spec fn is_default_chorus(e: EffectType, sample_rate: u32) -> bool {
    &&& e matches EffectType::Chorus(c)
    &&& c.wf()
    &&& c.spec_sample_rate() == sample_rate
    &&& c.spec_lfo_freq_bits() == CHORUS_LFO_FREQ_BITS
    &&& c.spec_depth_us() == CHORUS_DEPTH_US
    &&& c.spec_lfo_phase_bits() == 0u32
    &&& c.spec_line().is_fresh()
}

/// `e` is the delay that `make_effect` builds for this rate.
pub open spec fn is_default_delay(e: EffectType, sample_rate: u32) -> bool {
    &&& e matches EffectType::Delay(d)
    &&& d.wf()
    &&& d.spec_delay_samples() == Delay::samples_for(sample_rate as int, DELAY_TIME_US as int)
    &&& d.spec_feedback_bits() == DELAY_FEEDBACK_BITS
    &&& d.spec_line().is_fresh()
}

/// `e` is the reverb that `make_effect` builds for this rate.
pub open spec fn is_default_reverb(e: EffectType, sample_rate: u32) -> bool {
    &&& e matches EffectType::Reverb(v)
    &&& v.wf()
    &&& v.spec_sample_rate() == sample_rate
    &&& v.spec_mix_bits() == DEFAULT_MIX_BITS
    &&& v.spec_quiescent()
}

/// Two effects of the same variant expose identical abstract state: every
/// parameter, every buffer cell and every cursor that the contracts of this
/// crate speak of.
pub open spec fn same_abstract_state(a: EffectType, b: EffectType) -> bool {
    match (a, b) {
        (EffectType::Overdrive(x), EffectType::Overdrive(y)) => {
            &&& x.spec_pre_gain_bits() == y.spec_pre_gain_bits()
            &&& x.spec_level_bits() == y.spec_level_bits()
        },
        (EffectType::Distortion(x), EffectType::Distortion(y)) => {
            &&& x.spec_threshold_bits() == y.spec_threshold_bits()
            &&& x.spec_cutoff_hz_bits() == y.spec_cutoff_hz_bits()
            &&& x.spec_sample_rate() == y.spec_sample_rate()
            &&& x.spec_previous_bits() == y.spec_previous_bits()
        },
        (EffectType::Chorus(x), EffectType::Chorus(y)) => {
            &&& x.params_eq(&y)
            &&& x.spec_lfo_phase_bits() == y.spec_lfo_phase_bits()
            &&& x.spec_line().contents() == y.spec_line().contents()
            &&& x.spec_line().cursor() == y.spec_line().cursor()
        },
        (EffectType::Delay(x), EffectType::Delay(y)) => {
            &&& x.spec_delay_samples() == y.spec_delay_samples()
            &&& x.spec_feedback_bits() == y.spec_feedback_bits()
            &&& x.spec_line().contents() == y.spec_line().contents()
            &&& x.spec_line().cursor() == y.spec_line().cursor()
        },
        (EffectType::Reverb(x), EffectType::Reverb(y)) => {
            &&& x.params_eq(&y)
            &&& x.spec_mix_bits() == y.spec_mix_bits()
            &&& forall|k: int|
                0 <= k < 4 ==> (#[trigger] x.spec_comb(k)).spec_line().contents() == y.spec_comb(
                    k,
                ).spec_line().contents() && x.spec_comb(k).spec_line().cursor() == y.spec_comb(
                    k,
                ).spec_line().cursor()
            &&& forall|k: int|
                0 <= k < 2 ==> (#[trigger] x.spec_allpass(k)).spec_line().contents()
                    == y.spec_allpass(k).spec_line().contents() && x.spec_allpass(
                    k,
                ).spec_line().cursor() == y.spec_allpass(k).spec_line().cursor()
        },
        _ => false,
    }
}

/// Determinism of construction: the factory contract pins the whole abstract
/// state, so any two effects built from the same name and sample rate are
/// indistinguishable to every observation this crate's contracts make.
/// Together with the functional step contracts, equal inputs then give equal
/// outputs on both instances.
pub proof fn lemma_default_state_is_unique(a: EffectType, b: EffectType, sample_rate: u32)
    requires
        (is_default_overdrive(a) && is_default_overdrive(b)) || (is_default_distortion(
            a,
            sample_rate,
        ) && is_default_distortion(b, sample_rate)) || (is_default_chorus(a, sample_rate)
            && is_default_chorus(b, sample_rate)) || (is_default_delay(a, sample_rate)
            && is_default_delay(b, sample_rate)) || (is_default_reverb(a, sample_rate)
            && is_default_reverb(b, sample_rate)),
    ensures
        same_abstract_state(a, b),
{
}

/// Reset restores the factory state: when an effect built by `make_effect`
/// is reset (`reset_relates` and well-formedness are exactly what
/// `EffectType::reset` promises), the result satisfies the factory's
/// construction contract again, so a run after a reset starts from the very
/// state a fresh instance starts from.
pub proof fn lemma_reset_restores_default(pre: EffectType, post: EffectType, sample_rate: u32)
    requires
        EffectType::reset_relates(pre, post),
        post.wf(),
    ensures
        is_default_overdrive(pre) ==> is_default_overdrive(post),
        is_default_distortion(pre, sample_rate) ==> is_default_distortion(post, sample_rate),
        is_default_chorus(pre, sample_rate) ==> is_default_chorus(post, sample_rate),
        is_default_delay(pre, sample_rate) ==> is_default_delay(post, sample_rate),
        is_default_reverb(pre, sample_rate) ==> is_default_reverb(post, sample_rate),
{
}

/// Builds the effect a case-insensitive name selects, with the default
/// parameters for the given sample rate; any other name is a configuration
/// error.
pub fn make_effect(name: &str, sample_rate: u32) -> (r: Result<EffectType, EffectError>)
    ensures
        selects(name@, "overdrive"@) ==> (r matches Ok(e) && is_default_overdrive(e)),
        selects(name@, "distortion"@) ==> (r matches Ok(e) && is_default_distortion(e, sample_rate)),
        selects(name@, "chorus"@) ==> (r matches Ok(e) && is_default_chorus(e, sample_rate)),
        selects(name@, "delay"@) ==> (r matches Ok(e) && is_default_delay(e, sample_rate)),
        selects(name@, "reverb"@) ==> (r matches Ok(e) && is_default_reverb(e, sample_rate)),
        (r matches Ok(e) ==> e.wf()),
        (r matches Err(f) && f == EffectError::UnknownEffect) <==> {
            &&& !selects(name@, "overdrive"@)
            &&& !selects(name@, "distortion"@)
            &&& !selects(name@, "chorus"@)
            &&& !selects(name@, "delay"@)
            &&& !selects(name@, "reverb"@)
        },
{
    proof {
        reveal_strlit("overdrive");
        reveal_strlit("distortion");
        reveal_strlit("chorus");
        reveal_strlit("delay");
        reveal_strlit("reverb");
        assert(!(selects(name@, "chorus"@) && selects(name@, "reverb"@))) by {
            if selects(name@, "chorus"@) && selects(name@, "reverb"@) {
                assert(fold_code(name@[0]) == "chorus"@[0] as int);
                assert(fold_code(name@[0]) == "reverb"@[0] as int);
            }
        }
        assert((sample_rate as int) * 11_200 <= 0xFFFF_FFFFu64 as int * 11_200)
            by (nonlinear_arith)
            requires
                0 <= sample_rate <= 0xFFFF_FFFFu64 as int,
        ;
        assert(0x3EE6_6666u32 & 0x7FFF_FFFFu32 == 0x3EE6_6666u32) by (bit_vector);
        assert(0x3EE6_6666u32 & 0x8000_0000u32 == 0u32) by (bit_vector);
        assert(0u32 & 0x7FFF_FFFFu32 == 0u32) by (bit_vector);
        assert(0u32 & 0x8000_0000u32 == 0u32) by (bit_vector);
        assert(0x3F80_0000u32 & 0x7FFF_FFFFu32 == 0x3F80_0000u32) by (bit_vector);
        assert(0x3F80_0000u32 & 0x8000_0000u32 == 0u32) by (bit_vector);
        assert(crate::sample::spec_clamp_unit(DELAY_FEEDBACK_BITS) == DELAY_FEEDBACK_BITS);
    }
    if name_selects(name, "overdrive") {
        Ok(EffectType::Overdrive(Overdrive::new(OVERDRIVE_PRE_GAIN_BITS, OVERDRIVE_LEVEL_BITS)))
    } else if name_selects(name, "distortion") {
        Ok(
            EffectType::Distortion(
                Distortion::new(DISTORTION_THRESHOLD_BITS, DISTORTION_CUTOFF_HZ_BITS, sample_rate),
            ),
        )
    } else if name_selects(name, "chorus") {
        Ok(
            EffectType::Chorus(
                Chorus::new(sample_rate as usize, CHORUS_LFO_FREQ_BITS, CHORUS_DEPTH_US),
            ),
        )
    } else if name_selects(name, "delay") {
        Ok(EffectType::Delay(Delay::new(sample_rate as usize, DELAY_TIME_US, DELAY_FEEDBACK_BITS)))
    } else if name_selects(name, "reverb") {
        Ok(EffectType::Reverb(Reverb::new(sample_rate as usize)))
    } else {
        Err(EffectError::UnknownEffect)
    }
}

} // verus!
