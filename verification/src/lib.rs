//! A mono audio effects engine: stateful per-sample signal transforms
//! (overdrive, distortion, chorus, feedback delay, Schroeder reverb) over
//! circular delay lines.
//!
//! Samples are carried as the 32-bit patterns of IEEE-754 single-precision
//! values; the library owns every buffer, cursor and scalar state and proves
//! the indexing and state-transition logic, while the per-sample float
//! arithmetic is left to the caller, which hands results back as bit patterns.

pub mod chorus;
pub mod delay;
pub mod distortion;
pub mod effect;
pub mod overdrive;
pub mod reverb;
pub mod ring;
pub mod sample;

pub use chorus::Chorus;
pub use delay::Delay;
pub use distortion::Distortion;
pub use effect::make_effect;
pub use effect::EffectError;
pub use effect::EffectType;
pub use overdrive::Overdrive;
pub use reverb::AllPassFilter;
pub use reverb::CombFilter;
pub use reverb::Reverb;
pub use ring::DelayLine;

