//! What holds of the pipeline whatever bytes pass through it.

use vstd::prelude::*;
use crate::error::IoError;
use crate::network::{initial, step, Action, Event, Phase, State};
use crate::reader::ReadOutcome;
use crate::stage::drain;
use crate::transform::{complement, complement_seq};

verus! {

/// The report that the input channel gave `byte`.
pub open spec fn byte_read(byte: u8) -> Event {
    Event::Read(ReadOutcome { count: Ok(1usize), byte })
}

/// The report that the input channel is at its end. Nothing was read, so
/// `slot` is whatever the host's buffer held.
pub open spec fn stream_ended(slot: u8) -> Event {
    Event::Read(ReadOutcome { count: Ok(0usize), byte: slot })
}

/// The reports of a host that reads `bytes` one by one.
pub open spec fn reads_of(bytes: Seq<u8>) -> Seq<Event> {
    Seq::new(bytes.len(), |i: int| byte_read(bytes[i]))
}

/// The state in which `events`, reported in this order, leave a run.
pub open spec fn after(state: State, events: Seq<Event>) -> State
    decreases events.len(),
{
    if events.len() == 0 {
        state
    } else {
        after(step(state, events[0]).0, events.drop_first())
    }
}

/// Complementing a byte twice gives the byte back.
pub proof fn lemma_complement_is_involution(byte: u8)
    ensures
        complement(complement(byte)) == byte,
{
}

/// Complementing a sequence twice gives the sequence back.
pub proof fn lemma_complement_seq_is_involution(bytes: Seq<u8>)
    ensures
        complement_seq(complement_seq(bytes)) == bytes,
{
    assert(complement_seq(complement_seq(bytes)) =~= bytes);
}

/// The complement of a sequence is as long as the sequence, and holds at each
/// place the complement of the byte that stood there: nothing is dropped,
/// inserted or moved.
pub proof fn lemma_complement_seq_keeps_length_and_order(bytes: Seq<u8>)
    ensures
        complement_seq(bytes).len() == bytes.len(),
        forall|i: int| 0 <= i < bytes.len() ==> complement_seq(bytes)[i] == 255 - bytes[i],
{
}

/// A buffer that is drained twice, with nothing put into it in between, hands
/// out nothing the second time.
pub proof fn lemma_second_drain_is_empty(buffer: Seq<u8>)
    ensures
        drain(drain(buffer).1).0 == Seq::<u8>::empty(),
        drain(drain(buffer).1).1 == Seq::<u8>::empty(),
{
}

/// While a run is reading, the bytes that the channel gives are gathered in
/// the order in which they come, and nothing else changes.
pub proof fn lemma_reading_gathers_in_order(state: State, bytes: Seq<u8>)
    requires
        state.phase == Phase::Reading,
    ensures
        after(state, reads_of(bytes)) == (State { gathered: state.gathered + bytes, ..state }),
    decreases bytes.len(),
{
    if bytes.len() == 0 {
        assert(state.gathered + bytes =~= state.gathered);
    } else {
        let next = step(state, reads_of(bytes)[0]).0;
        let rest = bytes.drop_first();
        assert(reads_of(bytes).drop_first() =~= reads_of(rest));
        lemma_reading_gathers_in_order(next, rest);
        assert(next.gathered + rest =~= state.gathered + bytes);
    }
}

/// A whole run. From the start, a host that reads `bytes` and then meets the
/// end of the stream is asked to write the complement of `bytes`, of the same
/// length and in the same order; for the empty stream that is nothing. If the
/// write succeeds the run is done, and if it fails the run has failed with
/// the error of the write, unchanged.
pub proof fn lemma_run_writes_the_complement(bytes: Seq<u8>, slot: u8)
    ensures
        ({
            let begun = step(initial(), Event::Start);
            let read = after(begun.0, reads_of(bytes));
            let (writing, answer) = step(read, stream_ended(slot));
            &&& begun.1 == Ok::<Action, IoError>(Action::Read)
            &&& answer == Ok::<Action, IoError>(Action::Write)
            &&& writing.phase == Phase::Writing
            &&& writing.outgoing == complement_seq(bytes)
            &&& writing.outgoing.len() == bytes.len()
            &&& writing.gathered == Seq::<u8>::empty()
            &&& step(writing, Event::Written(Ok(()))) == (
                State { phase: Phase::Done, ..writing },
                Ok::<Action, IoError>(Action::Stop),
            )
            &&& forall|error: IoError| #[trigger]
                step(writing, Event::Written(Err(error))) == (
                    State { phase: Phase::Failed, ..writing },
                    Err::<Action, IoError>(error),
                )
        }),
{
    let begun = step(initial(), Event::Start);
    lemma_reading_gathers_in_order(begun.0, bytes);
    assert(begun.0.gathered + bytes =~= bytes);
}

/// A failed read ends the run at once: the error is handed on unchanged, and
/// neither the transform stage nor the sink stage has been given anything.
pub proof fn lemma_failed_read_ends_the_run(state: State, error: IoError, slot: u8)
    requires
        state.phase == Phase::Reading,
    ensures
        step(state, Event::Read(ReadOutcome { count: Err(error), byte: slot })) == (
            State { phase: Phase::Failed, ..state },
            Err::<Action, IoError>(error),
        ),
{
}

/// A failed write ends the run: the error is handed on unchanged, and the run
/// has failed.
pub proof fn lemma_failed_write_ends_the_run(state: State, error: IoError)
    requires
        state.phase == Phase::Writing,
    ensures
        step(state, Event::Written(Err(error))) == (
            State { phase: Phase::Failed, ..state },
            Err::<Action, IoError>(error),
        ),
{
}

/// A run that is done or has failed stays as it is, whatever is reported to
/// it: a failed run never comes to be done, and a done one never fails.
pub proof fn lemma_the_end_is_final(state: State, events: Seq<Event>)
    requires
        state.phase == Phase::Done || state.phase == Phase::Failed,
    ensures
        after(state, events) == state,
        forall|event: Event| #[trigger]
            step(state, event) == (state, Ok::<Action, IoError>(Action::Stop)),
    decreases events.len(),
{
    if events.len() > 0 {
        lemma_the_end_is_final(state, events.drop_first());
    }
}

} // verus!
