//! What the three stages have in common.

use vstd::prelude::*;
use crate::error::IoError;

verus! {

/// How far a stage is after one call of `process`.
#[derive(Clone, Copy, Debug, PartialEq, Eq, Structural)]
pub enum Progress {
    /// The stage awaits more from its channel.
    Pending,
    /// The stage has done its work.
    Complete,
}

/// One unit of the pipeline.
pub trait Component {
    /// What the host reports of the channel that the stage is bound to; `()`
    /// for a stage that is bound to none.
    type Outcome;

    /// Takes the stage one step further, or fails with the channel's error.
    fn process(&mut self, outcome: Self::Outcome) -> Result<Progress, IoError>;
}

/// What draining leaves of a buffer: the bytes handed out, then the bytes kept.
pub open spec fn drain(buffer: Seq<u8>) -> (Seq<u8>, Seq<u8>) {
    (buffer, Seq::empty())
}

} // verus!
