//! Verified core of a small audio survey tool: it decodes 16-bit PCM WAV
//! containers, extracts a fixed analysis window, computes raw amplitude
//! statistics, and drives the bounded per-file scan that a thin front end
//! runs over a dataset directory.

pub mod analysis;
pub mod stats;
pub mod wav;

pub use analysis::RawAnalysis;
pub use analysis::Scanner;
pub use analysis::SkipReason;
pub use wav::AudioSignal;
pub use wav::WavError;
