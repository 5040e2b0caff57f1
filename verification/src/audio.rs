//! Audio timing, the bounded PCM handoff, and the chunking of captured samples.
pub mod format;
pub mod mix;
pub mod pump;
pub mod queue;
