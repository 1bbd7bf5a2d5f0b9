//! Structural tests: the stored bit patterns match the intended
//! single-precision values, name selection is case-insensitive, and the
//! circular lines wrap exactly as specified.

use audio_effects::chorus::BASE_DELAY_US;
use audio_effects::effect;
use audio_effects::make_effect;
use audio_effects::reverb;
use audio_effects::AllPassFilter;
use audio_effects::Chorus;
use audio_effects::CombFilter;
use audio_effects::Delay;
use audio_effects::DelayLine;
use audio_effects::Distortion;
use audio_effects::EffectError;
use audio_effects::EffectType;
use audio_effects::Reverb;

#[test]
fn bit_pattern_constants_are_the_intended_floats() {
    assert_eq!(effect::OVERDRIVE_PRE_GAIN_BITS, 5.0f32.to_bits());
    assert_eq!(effect::OVERDRIVE_LEVEL_BITS, 1.0f32.to_bits());
    assert_eq!(effect::DISTORTION_THRESHOLD_BITS, 0.1f32.to_bits());
    assert_eq!(effect::DISTORTION_CUTOFF_HZ_BITS, 2000.0f32.to_bits());
    assert_eq!(effect::CHORUS_LFO_FREQ_BITS, 10.0f32.to_bits());
    assert_eq!(effect::DELAY_FEEDBACK_BITS, 0.45f32.to_bits());
    assert_eq!(reverb::COMB_ONE_FEEDBACK_BITS, 0.84f32.to_bits());
    assert_eq!(reverb::COMB_TWO_FEEDBACK_BITS, 0.83f32.to_bits());
    assert_eq!(reverb::COMB_THREE_FEEDBACK_BITS, 0.82f32.to_bits());
    assert_eq!(reverb::COMB_FOUR_FEEDBACK_BITS, 0.80f32.to_bits());
    assert_eq!(reverb::ALLPASS_FEEDBACK_BITS, 0.7f32.to_bits());
    assert_eq!(reverb::DEFAULT_MIX_BITS, 0.3f32.to_bits());
    assert_eq!(0u32, 0.0f32.to_bits());
}

#[test]
fn effect_names_are_selected_case_insensitively() {
    assert!(matches!(make_effect("Overdrive", 44100), Ok(EffectType::Overdrive(_))));
    assert!(matches!(make_effect("DISTORTION", 44100), Ok(EffectType::Distortion(_))));
    assert!(matches!(make_effect("chorus", 44100), Ok(EffectType::Chorus(_))));
    assert!(matches!(make_effect("dElAy", 44100), Ok(EffectType::Delay(_))));
    assert!(matches!(make_effect("ReVeRb", 44100), Ok(EffectType::Reverb(_))));
}

#[test]
fn unknown_effect_names_are_a_configuration_error() {
    assert_eq!(make_effect("flanger", 44100).err(), Some(EffectError::UnknownEffect));
    assert_eq!(make_effect("", 44100).err(), Some(EffectError::UnknownEffect));
    assert_eq!(make_effect("delay ", 44100).err(), Some(EffectError::UnknownEffect));
    assert_eq!(make_effect("delays", 44100).err(), Some(EffectError::UnknownEffect));
    assert_eq!(make_effect("rever", 44100).err(), Some(EffectError::UnknownEffect));
}

#[test]
fn default_effects_carry_the_documented_parameters() {
    match make_effect("overdrive", 44100) {
        Ok(EffectType::Overdrive(o)) => {
            assert_eq!(o.pre_gain_bits(), 5.0f32.to_bits());
            assert_eq!(o.level_bits(), 1.0f32.to_bits());
        }
        other => panic!("wrong variant: {:?}", other.is_ok()),
    }
    match make_effect("distortion", 22050) {
        Ok(EffectType::Distortion(d)) => {
            assert_eq!(d.threshold_bits(), 0.1f32.to_bits());
            assert_eq!(d.cutoff_hz_bits(), 2000.0f32.to_bits());
            assert_eq!(d.sample_rate(), 22050);
            assert_eq!(d.previous_bits(), 0);
        }
        other => panic!("wrong variant: {:?}", other.is_ok()),
    }
    match make_effect("chorus", 44100) {
        Ok(EffectType::Chorus(c)) => {
            assert_eq!(c.sample_rate(), 44100);
            assert_eq!(c.lfo_freq_bits(), 10.0f32.to_bits());
            assert_eq!(c.depth_us(), 1200);
            assert_eq!(c.lfo_phase_bits(), 0);
            // ceil(44100 * (10 ms + 1.2 ms)) + 2 cells of headroom.
            assert_eq!(c.size(), 496);
        }
        other => panic!("wrong variant: {:?}", other.is_ok()),
    }
    match make_effect("delay", 44100) {
        Ok(EffectType::Delay(d)) => {
            assert_eq!(d.delay_samples(), 19845);
            assert_eq!(d.feedback_bits(), 0.45f32.to_bits());
        }
        other => panic!("wrong variant: {:?}", other.is_ok()),
    }
    match make_effect("reverb", 44100) {
        Ok(EffectType::Reverb(r)) => {
            assert_eq!(r.sample_rate(), 44100);
            assert_eq!(r.mix_bits(), 0.3f32.to_bits());
            assert!(r.runnable());
        }
        other => panic!("wrong variant: {:?}", other.is_ok()),
    }
}

#[test]
fn delay_line_wraps_and_overwrites_in_order() {
    let mut line = DelayLine::new(4);
    assert_eq!(line.size(), 4);
    assert_eq!(line.cursor_pos(), 0);
    for v in 1..=5u32 {
        line.push(v);
    }
    // Five pushes into four cells: the first cell was overwritten by 5.
    assert_eq!(line.cursor_pos(), 1);
    assert_eq!(line.read_at(0), 5);
    assert_eq!(line.read_at(1), 2);
    assert_eq!(line.read_at(2), 3);
    assert_eq!(line.read_at(3), 4);
    // One position behind the cursor sits the newest value.
    assert_eq!(line.tap(1), 5);
    // Zero positions behind the cursor sits the value from a revolution ago.
    assert_eq!(line.tap(0), 2);
    line.reset();
    assert_eq!(line.cursor_pos(), 0);
    for i in 0..4 {
        assert_eq!(line.read_at(i), 0);
    }
}

#[test]
fn comb_filter_recirculates_with_its_own_output() {
    let mut comb = CombFilter::new(2, 0.5f32.to_bits());
    let mut outs = Vec::new();
    let impulse = [1.0f32, 0.0, 0.0, 0.0, 0.0, 0.0, 0.0];
    for &x in &impulse {
        let out = f32::from_bits(comb.read());
        let feedback = f32::from_bits(comb.feedback_bits());
        comb.push((x + feedback * out).to_bits());
        outs.push(out);
    }
    assert_eq!(outs, vec![0.0, 0.0, 1.0, 0.0, 0.5, 0.0, 0.25]);
}

#[test]
fn allpass_filter_subtracts_the_scaled_input() {
    let mut ap = AllPassFilter::new(2, 0.5f32.to_bits());
    let mut outs = Vec::new();
    let impulse = [1.0f32, 0.0, 0.0, 0.0, 0.0];
    for &x in &impulse {
        let buffered = f32::from_bits(ap.read());
        let feedback = f32::from_bits(ap.feedback_bits());
        let y = -feedback * x + buffered;
        ap.push((x + feedback * buffered).to_bits());
        outs.push(y);
    }
    assert_eq!(outs, vec![-0.5, 0.0, 1.0, 0.0, 0.5]);
}

#[test]
fn reverb_filter_lengths_scale_with_the_sample_rate() {
    let r = Reverb::new(44100);
    assert!(r.runnable());
    // 36, 31, 41 and 27 ms of comb delay; 5 and 1.7 ms of all-pass delay.
    assert_eq!(r.comb_feedback_bits(0), 0.84f32.to_bits());
    assert_eq!(r.comb_feedback_bits(3), 0.80f32.to_bits());
    assert_eq!(r.allpass_feedback_bits(0), 0.7f32.to_bits());
    assert_eq!(r.allpass_feedback_bits(1), 0.7f32.to_bits());
    let tiny = Reverb::new(100);
    // 100 * 17 / 10000 truncates to zero cells: the network cannot run.
    assert!(!tiny.runnable());
}

#[test]
fn chorus_neighbour_reads_wrap_at_the_line_boundary() {
    assert_eq!(BASE_DELAY_US, 10_000);
    let mut c = Chorus::new(100, 10.0f32.to_bits(), 1200);
    // ceil(100 * 11200 us / 1e6) + 2 = 4 cells.
    assert_eq!(c.size(), 4);
    for v in [10u32, 20, 30, 40] {
        c.store_input(v);
        c.advance();
    }
    let (a, b) = c.tap_pair(3);
    assert_eq!(a, 40);
    assert_eq!(b, 10, "the neighbour of the last cell wraps to the first");
    let (a, b) = c.tap_pair(1);
    assert_eq!((a, b), (20, 30));
}

#[test]
fn reset_restores_construction_state_and_keeps_parameters() {
    let mut d = Delay::new(1000, 5000, 0.25f32.to_bits());
    let delayed_fresh = d.delayed();
    d.push_output(7);
    let mut e = EffectType::Delay(d);
    e.reset();
    if let EffectType::Delay(d) = &e {
        assert_eq!(d.delay_samples(), 5);
        assert_eq!(d.feedback_bits(), 0.25f32.to_bits());
        assert_eq!(d.delayed(), delayed_fresh);
        assert_eq!(d.delayed(), 0);
    } else {
        panic!("variant changed across reset");
    }

    let mut c = Chorus::new(8000, 10.0f32.to_bits(), 1200);
    c.store_input(9);
    c.advance();
    c.set_lfo_phase_bits(0.5f32.to_bits());
    let mut e = EffectType::Chorus(c);
    e.reset();
    if let EffectType::Chorus(c) = &e {
        assert_eq!(c.lfo_phase_bits(), 0);
        assert_eq!(c.write_cursor(), 0);
        assert_eq!(c.sample_rate(), 8000);
        assert_eq!(c.depth_us(), 1200);
        let (a, b) = c.tap_pair(0);
        assert_eq!((a, b), (0, 0));
    } else {
        panic!("variant changed across reset");
    }
}

#[test]
fn clip_agrees_with_float_max_min_and_stays_bounded() {
    let d = Distortion::new(0.1f32.to_bits(), 2000.0f32.to_bits(), 44100);
    let threshold = 0.1f32;
    let mut probes: Vec<f32> = vec![
        0.0,
        -0.0,
        0.05,
        -0.05,
        0.1,
        -0.1,
        0.100000024,
        -0.100000024,
        1.0,
        -1.0,
        5.0,
        -5.0,
        f32::MIN_POSITIVE,
        -f32::MIN_POSITIVE,
        1.0e-42,
        -1.0e-42,
        f32::INFINITY,
        f32::NEG_INFINITY,
        f32::MAX,
        f32::MIN,
    ];
    for i in 0..2000 {
        probes.push(((i as f32) * 0.7).sin() * (i as f32) * 0.003);
    }
    for &x in &probes {
        let got = f32::from_bits(d.clip(x.to_bits()));
        let want = x.max(-threshold).min(threshold);
        assert_eq!(got.to_bits(), want.to_bits(), "clip({x}) disagreed");
        assert!((-threshold..=threshold).contains(&got));
    }
    // NaN clips to the lower bound, exactly as max-then-min does.
    let got = f32::from_bits(d.clip(f32::NAN.to_bits()));
    assert_eq!(got.to_bits(), (-0.1f32).to_bits());
    assert_eq!(got.to_bits(), f32::NAN.max(-threshold).min(threshold).to_bits());
}

#[test]
fn very_low_sample_rates_construct_but_reverb_cannot_run() {
    match make_effect("reverb", 100) {
        Ok(EffectType::Reverb(r)) => assert!(!r.runnable()),
        _ => panic!("construction itself should succeed"),
    }
    match make_effect("delay", 0) {
        Ok(EffectType::Delay(d)) => {
            assert_eq!(d.delay_samples(), 0);
        }
        _ => panic!("a zero rate still yields a one-cell delay"),
    }
    match make_effect("chorus", 1) {
        Ok(EffectType::Chorus(c)) => {
            // ceil(1 * 11200 us / 1e6) = 1 cell, plus 2 of headroom.
            assert_eq!(c.size(), 3);
        }
        _ => panic!("a one-hertz rate still yields a tiny line"),
    }
}

#[test]
fn delay_feedback_is_clamped_like_the_float_clamp() {
    for raw in [2.0f32, -0.5, 0.45, 1.0, 0.0, -0.0, f32::INFINITY, f32::NEG_INFINITY, f32::NAN] {
        let d = Delay::new(44100, 450_000, raw.to_bits());
        assert_eq!(
            d.feedback_bits(),
            raw.clamp(0.0, 1.0).to_bits(),
            "feedback {raw} clamped differently"
        );
    }
}

#[test]
fn reverb_mix_is_clamped_like_the_float_clamp() {
    let mut r = Reverb::new(8000);
    for raw in [1.5f32, -1.0, 0.0, 1.0, 0.3, -0.0, f32::INFINITY, f32::NEG_INFINITY, f32::NAN] {
        r.set_mix(raw.to_bits());
        assert_eq!(
            r.mix_bits(),
            raw.clamp(0.0, 1.0).to_bits(),
            "mix {raw} clamped differently"
        );
    }
}

#[test]
fn sub_millisecond_delay_times_are_expressible() {
    // Half a millisecond at 44100 Hz: round(0.5 * 44.1) = 22 samples.
    let d = Delay::new(44100, 500, 0.5f32.to_bits());
    assert_eq!(d.delay_samples(), 22);
}
