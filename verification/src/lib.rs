//! Core of a real-time voice-typing pipeline: a fixed-capacity circular
//! sample buffer, an energy-based voice-activity detector with adaptive
//! noise tracking and hysteresis, and the capture orchestration logic that
//! drives both from a stream of audio frames.
//!
//! Amplitudes are carried as fixed-point integers: `10_000` stands for a
//! full-scale sample of `1.0`, so thresholds, energies and confidences all
//! live on the same integer grid and every formula in the contracts is
//! exact.

pub mod ai_types;
pub mod audio_types;
pub mod buffer;
pub mod capture;
pub mod error;
pub mod math;
pub mod performance;
pub mod responses;
pub mod stt_types;
pub mod system;
pub mod vad;

pub use math::isqrt;
