//! A verified interpreter for a small line-oriented turtle instruction
//! language.
//!
//! An instruction file drives a single agent around a bounded plane:
//! `rotation <direction>` points it at one of the four cardinal directions,
//! `walk <count>` advances it one unit per step, emitting a render snapshot
//! after every step. Parsing, the motion state machine and the execution
//! loop live here, fully specified; reading the file and drawing the frames
//! are left to the hosting application.

pub mod engine;
pub mod laws;
pub mod motion;
pub mod parse;
pub mod text;
