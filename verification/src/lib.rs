//! The core of an ear-training quiz: note names, the guess grammar, the
//! per-round state machine and the final score.

pub mod guess;
pub mod names;
pub mod quiz;
pub mod range;
pub mod score;
pub mod text;
