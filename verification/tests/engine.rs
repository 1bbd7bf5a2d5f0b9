//! Behavioural tests: each helper below performs the per-sample float
//! arithmetic of one effect over the library's verified state, exactly as a
//! caller of the library is meant to, and the tests drive whole runs through
//! them.

use audio_effects::make_effect;
use audio_effects::Chorus;
use audio_effects::Delay;
use audio_effects::Distortion;
use audio_effects::EffectType;
use audio_effects::Overdrive;
use audio_effects::Reverb;

fn overdrive_step(o: &mut Overdrive, x: f32) -> f32 {
    let pre_gain = f32::from_bits(o.pre_gain_bits());
    let level = f32::from_bits(o.level_bits());
    (pre_gain * x).tanh() * level
}

fn distortion_step(d: &mut Distortion, x: f32) -> f32 {
    let cutoff = f32::from_bits(d.cutoff_hz_bits());
    let alpha = 2.0 * std::f32::consts::PI * cutoff / (d.sample_rate() as f32);
    let clipped = f32::from_bits(d.clip(x.to_bits()));
    let prev = f32::from_bits(d.previous_bits());
    let y = prev + alpha * (clipped - prev);
    d.set_previous_bits(y.to_bits());
    y
}

fn delay_step(d: &mut Delay, x: f32) -> f32 {
    let delayed = f32::from_bits(d.delayed());
    let feedback = f32::from_bits(d.feedback_bits());
    let y = x + feedback * delayed;
    d.push_output(y.to_bits());
    y
}

fn chorus_step(c: &mut Chorus, x: f32) -> f32 {
    c.store_input(x.to_bits());
    let sr = c.sample_rate() as f32;
    let phase = f32::from_bits(c.lfo_phase_bits());
    let lfo = (phase * 2.0 * std::f32::consts::PI).sin();
    let base = 10.0 * sr / 1000.0;
    let depth = (c.depth_us() as f32 / 1000.0) * sr / 1000.0;
    let delay_samples = base + depth * lfo;
    let size = c.size();
    let mut pos = c.write_cursor() as f32 - delay_samples;
    if pos < 0.0 {
        pos = size as f32 + pos;
    }
    let idx = pos.floor() as usize;
    let frac = pos - pos.floor();
    let (a, b) = c.tap_pair(idx);
    let delayed = (1.0 - frac) * f32::from_bits(a) + frac * f32::from_bits(b);
    c.advance();
    let mut next_phase = phase + f32::from_bits(c.lfo_freq_bits()) / sr;
    if next_phase > 1.0 {
        next_phase -= 1.0;
    }
    c.set_lfo_phase_bits(next_phase.to_bits());
    0.5 * x + 0.5 * delayed
}

fn reverb_step(r: &mut Reverb, x: f32) -> f32 {
    let mut comb_sum = 0.0f32;
    for k in 0..4 {
        let out = f32::from_bits(r.comb_read(k));
        let feedback = f32::from_bits(r.comb_feedback_bits(k));
        r.comb_push(k, (x + feedback * out).to_bits());
        comb_sum += out;
    }
    let mut wet = comb_sum / 4.0;
    for k in 0..2 {
        let buffered = f32::from_bits(r.allpass_read(k));
        let feedback = f32::from_bits(r.allpass_feedback_bits(k));
        let y = -feedback * wet + buffered;
        r.allpass_push(k, (wet + feedback * buffered).to_bits());
        wet = y;
    }
    let mix = f32::from_bits(r.mix_bits());
    (1.0 - mix) * x + mix * wet
}

fn effect_step(e: &mut EffectType, x: f32) -> f32 {
    match e {
        EffectType::Overdrive(o) => overdrive_step(o, x),
        EffectType::Distortion(d) => distortion_step(d, x),
        EffectType::Chorus(c) => chorus_step(c, x),
        EffectType::Delay(d) => delay_step(d, x),
        EffectType::Reverb(r) => reverb_step(r, x),
    }
}

fn run(e: &mut EffectType, input: &[f32]) -> Vec<u32> {
    input.iter().map(|&x| effect_step(e, x).to_bits()).collect()
}

fn test_signal(len: usize) -> Vec<f32> {
    (0..len)
        .map(|i| ((i as f32) * 0.37).sin() * 0.6)
        .collect()
}

#[test]
fn determinism_after_reset_for_every_effect() {
    let input = test_signal(2000);
    for name in ["overdrive", "distortion", "chorus", "delay", "reverb"] {
        let mut e = make_effect(name, 8000).unwrap();
        let first = run(&mut e, &input);
        e.reset();
        let second = run(&mut e, &input);
        assert_eq!(first, second, "effect {name} not deterministic across reset");
    }
}

#[test]
fn reset_matches_fresh_instance() {
    let input = test_signal(1500);
    for name in ["overdrive", "distortion", "chorus", "delay", "reverb"] {
        let mut used = make_effect(name, 8000).unwrap();
        let _ = run(&mut used, &input);
        used.reset();
        let mut fresh = make_effect(name, 8000).unwrap();
        let replay = run(&mut used, &input);
        let first = run(&mut fresh, &input);
        assert_eq!(replay, first, "reset {name} differs from a fresh instance");
    }
}

#[test]
fn delay_impulse_reappears_after_exactly_the_delay() {
    // A 3 ms delay at 1000 Hz is a 3-sample delay with feedback 0.5.
    let mut d = Delay::new(1000, 3000, 0.5f32.to_bits());
    assert_eq!(d.delay_samples(), 3);
    let mut input = vec![0.0f32; 13];
    input[0] = 1.0;
    let out: Vec<f32> = input.iter().map(|&x| delay_step(&mut d, x)).collect();
    let expected = [1.0, 0.0, 0.0, 0.5, 0.0, 0.0, 0.25, 0.0, 0.0, 0.125, 0.0, 0.0, 0.0625];
    for (i, (&got, &want)) in out.iter().zip(expected.iter()).enumerate() {
        assert_eq!(got, want, "sample {i}");
    }
}

#[test]
fn delay_end_to_end_impulse_at_44100() {
    let mut e = make_effect("delay", 44100).unwrap();
    if let EffectType::Delay(d) = &e {
        assert_eq!(d.delay_samples(), 19845);
    } else {
        panic!("expected the delay variant");
    }
    let mut input = vec![0.0f32; 20000];
    input[0] = 1.0;
    let out = run(&mut e, &input);
    assert_eq!(f32::from_bits(out[0]), 1.0);
    for (i, &bits) in out.iter().enumerate().take(19845).skip(1) {
        assert_eq!(f32::from_bits(bits), 0.0, "sample {i} should still be silent");
    }
    assert_eq!(f32::from_bits(out[19845]), 0.45);
}

#[test]
fn zero_length_delay_feeds_back_instantly() {
    let mut d = Delay::new(44100, 0, 0.5f32.to_bits());
    assert_eq!(d.delay_samples(), 0);
    assert_eq!(delay_step(&mut d, 1.0), 1.0);
    assert_eq!(delay_step(&mut d, 0.0), 0.5);
    assert_eq!(delay_step(&mut d, 0.0), 0.25);
}

#[test]
fn reverb_with_zero_mix_is_a_pure_dry_passthrough() {
    let mut e = make_effect("reverb", 44100).unwrap();
    if let EffectType::Reverb(r) = &mut e {
        r.set_mix(0.0f32.to_bits());
    } else {
        panic!("expected the reverb variant");
    }
    let input = test_signal(3000);
    let out = run(&mut e, &input);
    for (i, (&x, &bits)) in input.iter().zip(out.iter()).enumerate() {
        assert_eq!(x, f32::from_bits(bits), "sample {i} changed under zero mix");
    }
}

#[test]
fn overdrive_is_zero_at_zero_and_saturates_toward_level() {
    let mut neutral = Overdrive::new(1.0f32.to_bits(), 1.0f32.to_bits());
    assert_eq!(overdrive_step(&mut neutral, 0.0), 0.0);
    let mut e = make_effect("overdrive", 44100).unwrap();
    let big = effect_step(&mut e, 1000.0);
    assert!(big <= 1.0 && (1.0 - big) < 1e-6, "tanh should saturate toward the level");
    let small = effect_step(&mut e, -1000.0);
    assert!(small >= -1.0 && (small + 1.0) < 1e-6);
}

#[test]
fn distortion_converges_to_the_clipped_value() {
    // Constant input far above the threshold: the smoothed output climbs
    // toward the clip threshold 0.1 and never overshoots the clip range.
    let mut d = Distortion::new(0.1f32.to_bits(), 2000.0f32.to_bits(), 44100);
    let mut last = 0.0f32;
    for _ in 0..2000 {
        last = distortion_step(&mut d, 5.0);
        assert!(last <= 0.1 + 1e-6);
    }
    assert!((last - 0.1).abs() < 1e-4, "smoothed output should approach the threshold");
}

#[test]
fn chorus_output_stays_near_the_dry_signal_for_a_constant_input() {
    let mut e = make_effect("chorus", 8000).unwrap();
    let mut out_prev: Option<f32> = None;
    for i in 0..4000 {
        let y = effect_step(&mut e, 1.0);
        assert!(y.is_finite());
        assert!((0.0..=1.01).contains(&y), "blend of dry and delayed unit input");
        if i > 200 {
            // After the line has filled, interpolation between neighbouring
            // cells of an all-ones buffer keeps the output at 1.0, and in
            // general consecutive outputs may not jump.
            if let Some(p) = out_prev {
                assert!((y - p).abs() < 0.51, "discontinuous jump at step {i}");
            }
        }
        out_prev = Some(y);
    }
}
