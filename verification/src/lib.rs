//! Reassembly of ITM instrumentation traffic into defmt log frames.
//!
//! The crate cuts the payload chunks of one stimulus port out of a raw ITM
//! byte stream, decides what becomes of each answer that a streaming defmt
//! decoder gives on them, and resolves every decoded frame to the source
//! location it was logged from.

pub mod framer;
pub mod locations;
pub mod pipeline;
pub mod session;
pub mod symbols;
