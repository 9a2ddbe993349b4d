//! Core of a polyphonic audio synthesis engine.
//!
//! The engine's control state — note allocation, the ADSR envelope state
//! machine, parameter clamping, equal-tempered tuning, and the seeded
//! pseudo-random generator used for analog-style component mismatch — is
//! modeled here in exact integer units and verified. Frequencies are carried
//! in millihertz, envelope levels in billionths of full scale, times in
//! microseconds, and most other parameters in thousandths (or millionths)
//! of their natural unit. The floating-point sample path that consumes this
//! state lives outside the verified core.

pub mod chorus;
pub mod delay;
pub mod envelope;
pub mod filter;
pub mod midi;
pub mod oscillator;
pub mod reverb;
pub mod rng;
pub mod voice;
pub mod voice_manager;
