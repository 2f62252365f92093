//! The transform stage: every byte is replaced by its bitwise complement.

use vstd::prelude::*;
use crate::error::IoError;
use crate::stage::{drain, Component, Progress};

verus! {

/// The complement of one byte: the byte that lies as far below 255 as `byte`
/// lies above 0.
pub open spec fn complement(byte: u8) -> u8 {
    (255 - byte) as u8
}

/// The complement of a sequence, byte by byte, in the same order.
pub open spec fn complement_seq(bytes: Seq<u8>) -> Seq<u8> {
    Seq::new(bytes.len(), |i: int| complement(bytes[i]))
}

/// The transform stage, with the buffer it was given and the buffer it made.
pub struct Transformer {
    input: Vec<u8>,
    output: Vec<u8>,
}

impl Transformer {
    /// The bytes that the stage was given to transform.
    pub closed spec fn input(&self) -> Seq<u8> {
        self.input@
    }

    /// The bytes that the stage has produced and not yet handed out.
    pub closed spec fn output(&self) -> Seq<u8> {
        self.output@
    }

    /// A stage with both buffers empty.
    pub fn new() -> (stage: Self)
        ensures
            stage.input() == Seq::<u8>::empty(),
            stage.output() == Seq::<u8>::empty(),
    {
        Transformer { input: Vec::new(), output: Vec::new() }
    }

    /// Replaces whatever input the stage held by `input`.
    pub fn set_input(&mut self, input: Vec<u8>)
        ensures
            final(self).input() == input@,
            final(self).output() == old(self).output(),
    {
        self.input = input;
    }

    /// Hands out the produced bytes and leaves the output buffer empty.
    pub fn get_output(&mut self) -> (taken: Vec<u8>)
        ensures
            (taken@, final(self).output()) == drain(old(self).output()),
            final(self).input() == old(self).input(),
    {
        let mut taken: Vec<u8> = Vec::new();
        std::mem::swap(&mut self.output, &mut taken);
        taken
    }

    /// The complement of `byte`.
    pub fn transform(byte: u8) -> (flipped: u8)
        ensures
            flipped == complement(byte),
            flipped == 255 - byte,
    {
        assert(!byte == (255 - byte) as u8) by (bit_vector);
        !byte
    }
}

impl Component for Transformer {
    type Outcome = ();

    /// Fills the output buffer with the complement of the input buffer, byte
    /// for byte. The stage awaits no channel, so it never fails.
    fn process(&mut self, _outcome: ()) -> (result: Result<Progress, IoError>)
        ensures
            result == Ok::<Progress, IoError>(Progress::Complete),
            final(self).output() == complement_seq(old(self).input()),
            final(self).output().len() == old(self).input().len(),
            final(self).input() == old(self).input(),
    {
        let mut produced: Vec<u8> = Vec::new();
        let mut i: usize = 0;
        while i < self.input.len()
            invariant
                i <= self.input.len(),
                self.input == old(self).input,
                produced@ == complement_seq(self.input@.take(i as int)),
            decreases self.input.len() - i,
        {
            produced.push(Self::transform(self.input[i]));
            i += 1;
            assert(produced@ =~= complement_seq(self.input@.take(i as int)));
        }
        assert(self.input@.take(i as int) =~= self.input@);
        self.output = produced;
        Ok(Progress::Complete)
    }
}

} // verus!
