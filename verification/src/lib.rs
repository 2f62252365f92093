//! A three-stage byte pipeline: a source stage gathers the bytes of an input
//! channel, a transform stage complements each of them, and a sink stage holds
//! them for the output channel. A coordinator sequences the stages and moves
//! each buffer from one stage to the next.
//!
//! The library touches no channel itself. Its host reads and writes, and
//! reports what came of it; every decision is taken here.

pub mod error;
pub mod stage;
pub mod reader;
pub mod transform;
pub mod writer;
pub mod network;
pub mod laws;
