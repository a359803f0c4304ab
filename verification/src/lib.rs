//! An adaptive guess-search engine for a three-slot digit-guessing game.
//!
//! The library decides, from the latest oracle feedback (how many symbols sit
//! in the right slot, how many are present but misplaced), which candidate
//! triple to probe next, and records every probe in an append-only history.
//! All decision logic is verified; issuing a probe to the oracle is left to
//! the caller, who feeds each answer back into the engine.

pub mod engine;
pub mod model;
