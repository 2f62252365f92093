//! The sink stage: it holds the bytes that are due to the output channel.

use vstd::prelude::*;
use crate::error::IoError;
use crate::stage::{Component, Progress};

verus! {

/// The sink stage, with the bytes it was given to write.
pub struct Writer {
    input: Vec<u8>,
}

impl Writer {
    /// The bytes that the stage was given, in the order in which they are due.
    pub closed spec fn input(&self) -> Seq<u8> {
        self.input@
    }

    /// What the stage answers to the outcome of the write: it is complete once
    /// the whole buffer has reached the channel, and hands on the error if not.
    pub open spec fn settle(outcome: Result<(), IoError>) -> Result<Progress, IoError> {
        match outcome {
            Ok(_) => Ok(Progress::Complete),
            Err(error) => Err(error),
        }
    }

    /// A stage with nothing to write.
    pub fn new() -> (stage: Self)
        ensures
            stage.input() == Seq::<u8>::empty(),
    {
        Writer { input: Vec::new() }
    }

    /// Replaces whatever the stage held by `input`.
    pub fn set_input(&mut self, input: Vec<u8>)
        ensures
            final(self).input() == input@,
    {
        self.input = input;
    }

    /// The bytes to write, all of them and in this order, as one write.
    pub fn pending(&self) -> (bytes: &Vec<u8>)
        ensures
            bytes@ == self.input(),
    {
        &self.input
    }
}

impl Component for Writer {
    type Outcome = Result<(), IoError>;

    /// Takes in what the write of the whole buffer came to. The buffer stays
    /// as it was.
    fn process(&mut self, outcome: Result<(), IoError>) -> (result: Result<Progress, IoError>)
        ensures
            result == Self::settle(outcome),
            final(self).input() == old(self).input(),
    {
        match outcome {
            Ok(_) => Ok(Progress::Complete),
            Err(error) => Err(error),
        }
    }
}

} // verus!
