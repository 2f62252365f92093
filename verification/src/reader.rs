//! The source stage: it gathers the bytes that the input channel yields.

use vstd::prelude::*;
use crate::error::IoError;
use crate::stage::{drain, Component, Progress};

verus! {

/// What one read of a single byte from the input channel came to.
#[derive(Debug)]
pub struct ReadOutcome {
    /// How many bytes the channel gave, zero at the end of the stream; or why
    /// the read failed.
    pub count: Result<usize, IoError>,
    /// The byte that was read, where one was.
    pub byte: u8,
}

/// The source stage, with the bytes gathered so far.
pub struct Reader {
    output: Vec<u8>,
}

impl Reader {
    /// The bytes gathered and not yet handed out, in the order of arrival.
    pub closed spec fn output(&self) -> Seq<u8> {
        self.output@
    }

    /// What one read makes of the gathered bytes, and what the stage answers:
    /// a byte is appended and more is awaited, the end of the stream completes
    /// the stage, and a failed read is handed on with nothing appended.
    pub open spec fn absorb(gathered: Seq<u8>, outcome: ReadOutcome) -> (
        Seq<u8>,
        Result<Progress, IoError>,
    ) {
        match outcome.count {
            Ok(count) => if count == 0 {
                (gathered, Ok(Progress::Complete))
            } else {
                (gathered.push(outcome.byte), Ok(Progress::Pending))
            },
            Err(error) => (gathered, Err(error)),
        }
    }

    /// A stage that has gathered nothing.
    pub fn new() -> (stage: Self)
        ensures
            stage.output() == Seq::<u8>::empty(),
    {
        Reader { output: Vec::new() }
    }

    /// Hands out the gathered bytes and leaves the stage with none.
    pub fn get_output(&mut self) -> (taken: Vec<u8>)
        ensures
            (taken@, final(self).output()) == drain(old(self).output()),
    {
        let mut taken: Vec<u8> = Vec::new();
        std::mem::swap(&mut self.output, &mut taken);
        taken
    }
}

impl Component for Reader {
    type Outcome = ReadOutcome;

    /// Takes in what one read came to.
    fn process(&mut self, outcome: ReadOutcome) -> (result: Result<Progress, IoError>)
        ensures
            (final(self).output(), result) == Self::absorb(old(self).output(), outcome),
    {
        match outcome.count {
            Ok(count) => {
                if count == 0 {
                    Ok(Progress::Complete)
                } else {
                    self.output.push(outcome.byte);
                    Ok(Progress::Pending)
                }
            },
            Err(error) => Err(error),
        }
    }
}

} // verus!
