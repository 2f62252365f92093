//! The coordinator: it owns the three stages, sequences them, and is the only
//! one to move a buffer from one stage to the next.
//!
//! The coordinator never touches a channel. Each call of `run` takes what the
//! host reports of the channels and answers with what the host is to do next.

use vstd::prelude::*;
use crate::error::IoError;
use crate::reader::{ReadOutcome, Reader};
use crate::stage::{Component, Progress};
use crate::transform::{complement_seq, Transformer};
use crate::writer::Writer;

verus! {

/// Where a run stands.
#[derive(Clone, Copy, Debug, PartialEq, Eq, Structural)]
pub enum Phase {
    /// Nothing has happened yet.
    Idle,
    /// The source stage gathers the input.
    Reading,
    /// The transform stage holds the input. It needs nothing of the host, so
    /// a call of `run` that comes here goes on to `Writing` before it returns.
    Transforming,
    /// The sink stage holds the output, and its write is awaited.
    Writing,
    /// The whole output has reached its channel.
    Done,
    /// A read or the write has failed.
    Failed,
}

/// What the host reports to the coordinator.
#[derive(Debug)]
pub enum Event {
    /// The run is to begin.
    Start,
    /// A read of one byte, asked for by `Action::Read`, came to this.
    Read(ReadOutcome),
    /// The write of the output, asked for by `Action::Write`, came to this.
    Written(Result<(), IoError>),
}

/// What the coordinator asks of its host.
#[derive(Clone, Copy, Debug, PartialEq, Eq, Structural)]
pub enum Action {
    /// Read one byte from the input channel and report `Event::Read`.
    Read,
    /// Write the bytes of `outgoing` to the output channel, all of them as one
    /// write, and report `Event::Written`.
    Write,
    /// Nothing: the run is over. The phase tells whether it is done or has
    /// failed.
    Stop,
}

/// A run as the contracts see it: its phase and the four buffers of the stages.
pub struct State {
    /// Where the run stands.
    pub phase: Phase,
    /// The output buffer of the source stage.
    pub gathered: Seq<u8>,
    /// The input buffer of the transform stage.
    pub staged: Seq<u8>,
    /// The output buffer of the transform stage.
    pub produced: Seq<u8>,
    /// The input buffer of the sink stage.
    pub outgoing: Seq<u8>,
}

/// The state before anything has happened.
pub open spec fn initial() -> State {
    State {
        phase: Phase::Idle,
        gathered: Seq::empty(),
        staged: Seq::empty(),
        produced: Seq::empty(),
        outgoing: Seq::empty(),
    }
}

/// The hand-off from the source stage to the transform stage: the gathered
/// bytes leave the one and replace the input of the other.
pub open spec fn hand_to_transform(state: State) -> State {
    State { phase: Phase::Transforming, gathered: Seq::empty(), staged: state.gathered, ..state }
}

/// The transform stage's work and the hand-off to the sink stage: the
/// complement of the staged bytes replaces the input of the sink.
pub open spec fn transform_and_hand_to_sink(state: State) -> State {
    State {
        phase: Phase::Writing,
        produced: Seq::empty(),
        outgoing: complement_seq(state.staged),
        ..state
    }
}

/// The state after `event`, and what `run` answers to it.
///
/// An event that is no outcome of what the phase awaits changes nothing, and
/// the phase's request is repeated. An idle coordinator awaits no outcome: any
/// event begins its run. A finished or failed one asks for nothing more.
pub open spec fn step(state: State, event: Event) -> (State, Result<Action, IoError>) {
    match state.phase {
        Phase::Idle => (State { phase: Phase::Reading, ..state }, Ok(Action::Read)),
        Phase::Reading => match event {
            Event::Read(outcome) => {
                let (gathered, answer) = Reader::absorb(state.gathered, outcome);
                match answer {
                    Ok(Progress::Pending) => (State { gathered, ..state }, Ok(Action::Read)),
                    Ok(Progress::Complete) => (
                        transform_and_hand_to_sink(hand_to_transform(state)),
                        Ok(Action::Write),
                    ),
                    Err(error) => (State { phase: Phase::Failed, ..state }, Err(error)),
                }
            },
            _ => (state, Ok(Action::Read)),
        },
        Phase::Transforming => (transform_and_hand_to_sink(state), Ok(Action::Write)),
        Phase::Writing => match event {
            Event::Written(Ok(_)) => (State { phase: Phase::Done, ..state }, Ok(Action::Stop)),
            Event::Written(Err(error)) => (State { phase: Phase::Failed, ..state }, Err(error)),
            _ => (state, Ok(Action::Write)),
        },
        Phase::Done | Phase::Failed => (state, Ok(Action::Stop)),
    }
}

/// The coordinator of one run.
pub struct Network {
    reader: Reader,
    transformer: Transformer,
    writer: Writer,
    phase: Phase,
}

impl View for Network {
    type V = State;

    closed spec fn view(&self) -> State {
        State {
            phase: self.phase,
            gathered: self.reader.output(),
            staged: self.transformer.input(),
            produced: self.transformer.output(),
            outgoing: self.writer.input(),
        }
    }
}

impl Network {
    /// An idle coordinator whose stages hold nothing.
    pub fn new() -> (network: Self)
        ensures
            network@ == initial(),
    {
        Network {
            reader: Reader::new(),
            transformer: Transformer::new(),
            writer: Writer::new(),
            phase: Phase::Idle,
        }
    }

    /// Where the run stands.
    pub fn phase(&self) -> (phase: Phase)
        ensures
            phase == self@.phase,
    {
        self.phase
    }

    /// The bytes that `Action::Write` asks the host to write.
    pub fn outgoing(&self) -> (bytes: &Vec<u8>)
        ensures
            bytes@ == self@.outgoing,
    {
        self.writer.pending()
    }

    /// Takes the run as far as it goes without the host: `event` is taken in,
    /// and the answer is what the host is to do next, or the error that ended
    /// the run, as the channel gave it.
    pub fn run(&mut self, event: Event) -> (result: Result<Action, IoError>)
        ensures
            (final(self)@, result) == step(old(self)@, event),
    {
        match self.phase {
            Phase::Idle => {
                self.phase = Phase::Reading;
                Ok(Action::Read)
            },
            Phase::Reading => match event {
                Event::Read(outcome) => match self.reader.process(outcome) {
                    Ok(Progress::Pending) => Ok(Action::Read),
                    Ok(Progress::Complete) => {
                        let data = self.reader.get_output();
                        self.transformer.set_input(data);
                        self.phase = Phase::Transforming;
                        self.transform()
                    },
                    Err(error) => {
                        self.phase = Phase::Failed;
                        Err(error)
                    },
                },
                _ => Ok(Action::Read),
            },
            Phase::Transforming => self.transform(),
            Phase::Writing => match event {
                Event::Written(outcome) => match self.writer.process(outcome) {
                    Ok(_) => {
                        self.phase = Phase::Done;
                        Ok(Action::Stop)
                    },
                    Err(error) => {
                        self.phase = Phase::Failed;
                        Err(error)
                    },
                },
                _ => Ok(Action::Write),
            },
            Phase::Done | Phase::Failed => Ok(Action::Stop),
        }
    }

    /// Runs the transform stage and hands its output to the sink stage.
    fn transform(&mut self) -> (result: Result<Action, IoError>)
        ensures
            final(self)@ == transform_and_hand_to_sink(old(self)@),
            result == Ok::<Action, IoError>(Action::Write),
    {
        match self.transformer.process(()) {
            Ok(_) => {
                let transformed = self.transformer.get_output();
                self.writer.set_input(transformed);
                self.phase = Phase::Writing;
                Ok(Action::Write)
            },
            Err(error) => {
                self.phase = Phase::Failed;
                Err(error)
            },
        }
    }
}

} // verus!
