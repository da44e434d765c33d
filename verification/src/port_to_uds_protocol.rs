//! One slot of the directory under one writer and any number of readers, as
//! a transition system whose steps are the single loads and stores that the
//! processes make. Whatever the order of the steps, a reader that is handed
//! a name is handed one that a writer stored in full. What `Entry::set` and
//! `Entry::get` do in one piece is a run of the writer and of a reader of
//! this system.

use vstd::prelude::*;
use crate::bytes::zeros;
use crate::port_to_uds::{padded, read_index, write_index, Entry, MAX_UDS_NAME_LEN};

verus! {

/// A reader at work: the counter it loaded, and the bytes it has copied.
pub struct Reading {
    pub seen: u64,
    pub copied: Map<int, u8>,
}

/// The slot, the processes at work on it, and the names that were stored in
/// full, the oldest first.
pub struct SlotState {
    pub counter: u64,
    pub buffers: Seq<Seq<u8>>,
    /// The name that the writer is storing, as the buffer is to hold it.
    pub writer: Option<Seq<u8>>,
    pub readers: Map<int, Reading>,
    pub history: Seq<Seq<u8>>,
}

/// One load or store.
pub enum SlotStep {
    /// The writer loads the counter and sets out to store `name`.
    BeginSet { name: Seq<u8> },
    /// The writer stores one byte in the buffer that it fills.
    WriteByte { at: int, byte: u8 },
    /// The writer, done with the buffer, moves the counter on.
    EndSet,
    /// A reader loads the counter and sets out to copy the name.
    BeginGet { reader: int },
    /// A reader copies one byte of the buffer that the counter referred it
    /// to.
    CopyByte { reader: int, at: int },
    /// A reader, done with the copy, loads the counter again: it hands the
    /// copy out where the counter has not moved, and is at its beginning
    /// again where it has.
    EndGet { reader: int },
}

/// The slot after `initialize`, with no one at work on it.
pub open spec fn initial(state: SlotState) -> bool {
    &&& state.counter == 1
    &&& state.buffers == seq![zeros(MAX_UDS_NAME_LEN as nat), zeros(MAX_UDS_NAME_LEN as nat)]
    &&& state.writer is None
    &&& state.readers == Map::<int, Reading>::empty()
    &&& state.history == seq![zeros(MAX_UDS_NAME_LEN as nat)]
}

/// The copy that a reader made, as a name buffer.
pub open spec fn copy_of(reading: Reading) -> Seq<u8> {
    Seq::new(MAX_UDS_NAME_LEN as nat, |at: int| reading.copied[at])
}

/// Whether the step can be taken. There is one writer: it begins only where
/// it is not at work. It moves the counter on only when the buffer holds
/// the whole name, and the counter never starts over.
pub open spec fn enabled(state: SlotState, step: SlotStep) -> bool {
    match step {
        SlotStep::BeginSet { name } => state.writer is None && name.len() == MAX_UDS_NAME_LEN,
        SlotStep::WriteByte { at, byte } => state.writer is Some && 0 <= at < MAX_UDS_NAME_LEN,
        SlotStep::EndSet => state.writer is Some && state.buffers[write_index(state.counter)]
            == state.writer->Some_0 && state.counter < u64::MAX,
        SlotStep::BeginGet { reader } => !state.readers.dom().contains(reader),
        SlotStep::CopyByte { reader, at } => state.readers.dom().contains(reader) && 0 <= at
            < MAX_UDS_NAME_LEN,
        SlotStep::EndGet { reader } => state.readers.dom().contains(reader) && forall|at: int|
            0 <= at < MAX_UDS_NAME_LEN ==> state.readers[reader].copied.dom().contains(at),
    }
}

/// The slot after the step; a step that cannot be taken changes nothing.
pub open spec fn after(state: SlotState, step: SlotStep) -> SlotState {
    if !enabled(state, step) {
        state
    } else {
        match step {
            SlotStep::BeginSet { name } => SlotState { writer: Some(name), ..state },
            SlotStep::WriteByte { at, byte } => SlotState {
                buffers: state.buffers.update(
                    write_index(state.counter),
                    state.buffers[write_index(state.counter)].update(at, byte),
                ),
                ..state
            },
            SlotStep::EndSet => SlotState {
                counter: (state.counter + 1) as u64,
                writer: None,
                history: state.history.push(state.writer->Some_0),
                ..state
            },
            SlotStep::BeginGet { reader } => SlotState {
                readers: state.readers.insert(
                    reader,
                    Reading { seen: state.counter, copied: Map::empty() },
                ),
                ..state
            },
            SlotStep::CopyByte { reader, at } => SlotState {
                readers: state.readers.insert(
                    reader,
                    Reading {
                        seen: state.readers[reader].seen,
                        copied: state.readers[reader].copied.insert(
                            at,
                            state.buffers[read_index(state.readers[reader].seen)][at],
                        ),
                    },
                ),
                ..state
            },
            SlotStep::EndGet { reader } => SlotState {
                readers: state.readers.remove(reader),
                ..state
            },
        }
    }
}

/// The name that the step hands out: the copy of a reader that ends where
/// the counter has not moved since the reader began.
pub open spec fn handed_out(state: SlotState, step: SlotStep) -> Option<Seq<u8>> {
    match step {
        SlotStep::EndGet { reader } => if enabled(state, step) && state.readers[reader].seen
            == state.counter {
            Some(copy_of(state.readers[reader]))
        } else {
            None
        },
        _ => None,
    }
}

/// The slot after the steps, taken in turn.
pub open spec fn after_all(state: SlotState, steps: Seq<SlotStep>) -> SlotState
    decreases steps.len(),
{
    if steps.len() == 0 {
        state
    } else {
        after(after_all(state, steps.drop_last()), steps.last())
    }
}

/// What holds of the slot at all times: the counter counts the names stored
/// in full, the buffer that it refers readers to holds the last of them, and
/// what a reader has copied since the counter last moved is part of it.
pub open spec fn consistent(state: SlotState) -> bool {
    &&& state.buffers.len() == 2
    &&& state.history.len() == state.counter
    &&& state.counter >= 1
    &&& state.writer matches Some(name) ==> name.len() == MAX_UDS_NAME_LEN
    &&& state.buffers[read_index(state.counter)] == state.history.last()
    &&& state.history.last().len() == MAX_UDS_NAME_LEN
    &&& forall|reader: int| #[trigger]
        state.readers.dom().contains(reader) ==> state.readers[reader].seen <= state.counter
            && state.readers[reader].seen >= 1 && (state.readers[reader].seen == state.counter
            ==> forall|at: int| #[trigger]
            state.readers[reader].copied.dom().contains(at) ==> 0 <= at < MAX_UDS_NAME_LEN
                && state.readers[reader].copied[at] == state.history.last()[at])
}

/// The slot is consistent after `initialize`.
pub proof fn lemma_initial_is_consistent(state: SlotState)
    requires
        initial(state),
    ensures
        consistent(state),
{
}

/// No step breaks the consistency of the slot.
pub proof fn lemma_step_keeps_consistent(state: SlotState, step: SlotStep)
    requires
        consistent(state),
    ensures
        consistent(after(state, step)),
{
    let next = after(state, step);
    if enabled(state, step) {
        match step {
            SlotStep::BeginSet { name } => {},
            SlotStep::WriteByte { at, byte } => {
                assert(read_index(state.counter) != write_index(state.counter));
            },
            SlotStep::EndSet => {
                assert(read_index(next.counter) == write_index(state.counter));
                assert(next.history.last() == state.writer->Some_0);
            },
            SlotStep::BeginGet { reader } => {
                assert forall|other: int| #[trigger]
                    next.readers.dom().contains(other) implies next.readers[other].seen
                    <= next.counter && next.readers[other].seen >= 1 && (next.readers[other].seen
                    == next.counter ==> forall|at: int| #[trigger]
                    next.readers[other].copied.dom().contains(at) ==> 0 <= at < MAX_UDS_NAME_LEN
                        && next.readers[other].copied[at] == next.history.last()[at]) by {
                    if other != reader {
                        assert(state.readers.dom().contains(other));
                    }
                }
            },
            SlotStep::CopyByte { reader, at } => {
                assert forall|other: int| #[trigger]
                    next.readers.dom().contains(other) implies next.readers[other].seen
                    <= next.counter && next.readers[other].seen >= 1 && (next.readers[other].seen
                    == next.counter ==> forall|at: int| #[trigger]
                    next.readers[other].copied.dom().contains(at) ==> 0 <= at < MAX_UDS_NAME_LEN
                        && next.readers[other].copied[at] == next.history.last()[at]) by {
                    assert(state.readers.dom().contains(other));
                }
            },
            SlotStep::EndGet { reader } => {
                assert forall|other: int| #[trigger]
                    next.readers.dom().contains(other) implies next.readers[other].seen
                    <= next.counter && next.readers[other].seen >= 1 && (next.readers[other].seen
                    == next.counter ==> forall|at: int| #[trigger]
                    next.readers[other].copied.dom().contains(at) ==> 0 <= at < MAX_UDS_NAME_LEN
                        && next.readers[other].copied[at] == next.history.last()[at]) by {
                    assert(state.readers.dom().contains(other));
                }
            },
        }
    }
}

/// A reader is never handed a torn name: the name it is handed is the one
/// that was last stored in full.
pub proof fn lemma_handed_out_name_is_complete(state: SlotState, step: SlotStep)
    requires
        consistent(state),
    ensures
        handed_out(state, step) matches Some(name) ==> name == state.history.last(),
{
    if let Some(name) = handed_out(state, step) {
        let reader = step->EndGet_reader;
        assert(state.readers.dom().contains(reader));
        assert forall|at: int| 0 <= at < MAX_UDS_NAME_LEN implies name[at]
            == state.history.last()[at] by {
            assert(state.readers[reader].copied.dom().contains(at));
        }
        assert(name =~= state.history.last());
    }
}

/// The slot is consistent after any steps from its initial state.
pub proof fn lemma_always_consistent(start: SlotState, steps: Seq<SlotStep>)
    requires
        initial(start),
    ensures
        consistent(after_all(start, steps)),
    decreases steps.len(),
{
    if steps.len() == 0 {
        lemma_initial_is_consistent(start);
    } else {
        lemma_always_consistent(start, steps.drop_last());
        lemma_step_keeps_consistent(after_all(start, steps.drop_last()), steps.last());
    }
}

/// Among `steps` the writer set out to store `name`.
pub open spec fn was_set(steps: Seq<SlotStep>, name: Seq<u8>) -> bool {
    exists|i: int| 0 <= i < steps.len() && #[trigger] steps[i] == (SlotStep::BeginSet { name })
}

/// What the slot has ever held in full is what `initialize` left in it or
/// what a writer set out to store.
spec fn history_is_of_sets(state: SlotState, steps: Seq<SlotStep>) -> bool {
    &&& state.history.len() >= 1
    &&& state.history[0] == zeros(MAX_UDS_NAME_LEN as nat)
    &&& forall|k: int| 1 <= k < state.history.len() ==> was_set(steps, #[trigger] state.history[k])
    &&& state.writer matches Some(name) ==> was_set(steps, name)
}

proof fn lemma_was_set_stays(steps: Seq<SlotStep>, name: Seq<u8>)
    requires
        steps.len() > 0,
        was_set(steps.drop_last(), name),
    ensures
        was_set(steps, name),
{
    let i = choose|i: int|
        0 <= i < steps.drop_last().len() && #[trigger] steps.drop_last()[i] == (SlotStep::BeginSet {
            name,
        });
    assert(steps[i] == steps.drop_last()[i]);
}

proof fn lemma_history_is_of_sets(start: SlotState, steps: Seq<SlotStep>)
    requires
        initial(start),
    ensures
        history_is_of_sets(after_all(start, steps), steps),
    decreases steps.len(),
{
    if steps.len() > 0 {
        let before = after_all(start, steps.drop_last());
        let now = after_all(start, steps);
        let step = steps.last();
        lemma_history_is_of_sets(start, steps.drop_last());
        assert(steps[steps.len() - 1] == step);
        assert forall|k: int| 1 <= k < now.history.len() implies was_set(
            steps,
            #[trigger] now.history[k],
        ) by {
            if k < before.history.len() {
                assert(now.history[k] == before.history[k]);
                lemma_was_set_stays(steps, before.history[k]);
            } else {
                lemma_was_set_stays(steps, before.writer->Some_0);
            }
        }
        if let Some(name) = now.writer {
            if before.writer == Some(name) {
                lemma_was_set_stays(steps, name);
            }
        }
    }
}

/// Whatever the processes do and in whatever order, the name that a reader
/// is handed is whole: it is what `initialize` left in the slot, or a name
/// that the writer set out to store and stored in full.
pub proof fn lemma_no_torn_name(start: SlotState, steps: Seq<SlotStep>, step: SlotStep)
    requires
        initial(start),
    ensures
        handed_out(after_all(start, steps), step) matches Some(name) ==> name == zeros(
            MAX_UDS_NAME_LEN as nat,
        ) || was_set(steps, name),
{
    let state = after_all(start, steps);
    lemma_always_consistent(start, steps);
    lemma_history_is_of_sets(start, steps);
    lemma_handed_out_name_is_complete(state, step);
}

/// The slot that `entry` is while no one is at work on it, with the names
/// that it has held.
pub open spec fn slot_of(entry: Entry, history: Seq<Seq<u8>>) -> SlotState {
    SlotState {
        counter: entry.aba_counter,
        buffers: seq![entry.even@, entry.odd@],
        writer: None,
        readers: Map::empty(),
        history,
    }
}

/// A slot that `initialize` has made ready, with no one at work on it, is in
/// the initial state.
pub proof fn lemma_initialized_entry_is_initial(entry: Entry)
    requires
        entry.is_empty_at(1),
    ensures
        initial(slot_of(entry, seq![zeros(MAX_UDS_NAME_LEN as nat)])),
{
    assert(seq![entry.even@, entry.odd@] =~= seq![
        zeros(MAX_UDS_NAME_LEN as nat),
        zeros(MAX_UDS_NAME_LEN as nat),
    ]);
}

/// The first steps of a writer that stores `name`: it begins, and stores
/// the first `count` bytes one after the other.
pub open spec fn writing_steps(name: Seq<u8>, count: nat) -> Seq<SlotStep> {
    seq![SlotStep::BeginSet { name }] + Seq::new(
        count,
        |at: int| SlotStep::WriteByte { at, byte: name[at] },
    )
}

/// The steps of a writer that stores `name`: it begins, stores byte after
/// byte, and ends.
pub open spec fn set_steps(name: Seq<u8>) -> Seq<SlotStep> {
    writing_steps(name, MAX_UDS_NAME_LEN as nat).push(SlotStep::EndSet)
}

/// The steps of a reader up to the last: it begins, and copies the first
/// `count` bytes one after the other.
pub open spec fn copying_steps(reader: int, count: nat) -> Seq<SlotStep> {
    seq![SlotStep::BeginGet { reader }] + Seq::new(
        count,
        |at: int| SlotStep::CopyByte { reader, at },
    )
}

proof fn lemma_writing(state: SlotState, name: Seq<u8>, count: nat)
    requires
        state.writer is None,
        state.buffers.len() == 2,
        state.buffers[write_index(state.counter)].len() == MAX_UDS_NAME_LEN,
        name.len() == MAX_UDS_NAME_LEN,
        count <= MAX_UDS_NAME_LEN,
    ensures
        after_all(state, writing_steps(name, count)) == (SlotState {
            writer: Some(name),
            buffers: state.buffers.update(
                write_index(state.counter),
                name.take(count as int) + state.buffers[write_index(state.counter)].skip(
                    count as int,
                ),
            ),
            ..state
        }),
    decreases count,
{
    let steps = writing_steps(name, count);
    let index = write_index(state.counter);
    if count == 0 {
        assert(steps.drop_last() =~= Seq::<SlotStep>::empty());
        assert(steps.last() == (SlotStep::BeginSet { name }));
        assert(after_all(state, steps.drop_last()) == state);
        assert(name.take(0) + state.buffers[index].skip(0) =~= state.buffers[index]);
        assert(state.buffers.update(index, state.buffers[index]) =~= state.buffers);
    } else {
        let fewer = (count - 1) as nat;
        lemma_writing(state, name, fewer);
        assert(steps.drop_last() =~= writing_steps(name, fewer));
        assert(steps.last() == (SlotStep::WriteByte { at: fewer as int, byte: name[fewer as int] }));
        let before = after_all(state, writing_steps(name, fewer));
        assert(before.buffers[index].update(fewer as int, name[fewer as int]) =~= name.take(
            count as int,
        ) + state.buffers[index].skip(count as int));
        assert(before.buffers.update(
            index,
            before.buffers[index].update(fewer as int, name[fewer as int]),
        ) =~= state.buffers.update(
            index,
            name.take(count as int) + state.buffers[index].skip(count as int),
        ));
    }
}

/// Storing a name in a slot, as `set` does it, is a run of the writer: the
/// slot that `set` leaves is the slot after the writer began, stored every
/// byte, and ended, and the name is the last that the slot holds in full.
pub proof fn lemma_set_runs_the_writer(
    entry: Entry,
    history: Seq<Seq<u8>>,
    value: Seq<u8>,
    stored: Entry,
)
    requires
        value.len() <= MAX_UDS_NAME_LEN,
        entry.aba_counter < u64::MAX,
        entry.stored(value, stored),
    ensures
        after_all(slot_of(entry, history), set_steps(padded(value))) == slot_of(
            stored,
            history.push(padded(value)),
        ),
{
    let state = slot_of(entry, history);
    let name = padded(value);
    let index = write_index(state.counter);
    let steps = set_steps(name);
    lemma_writing(state, name, MAX_UDS_NAME_LEN as nat);
    assert(steps.drop_last() =~= writing_steps(name, MAX_UDS_NAME_LEN as nat));
    assert(steps.last() == SlotStep::EndSet);
    let written = after_all(state, writing_steps(name, MAX_UDS_NAME_LEN as nat));
    assert(name.take(MAX_UDS_NAME_LEN as int) + state.buffers[index].skip(MAX_UDS_NAME_LEN as int)
        =~= name);
    assert(written.buffers[index] == name);
    assert(enabled(written, SlotStep::EndSet));
    let ended = after(written, SlotStep::EndSet);
    assert(ended.buffers =~= seq![stored.even@, stored.odd@]) by {
        assert(read_index(entry.aba_counter) != index);
        assert(stored.buffer(index) == name);
        assert(stored.buffer(read_index(entry.aba_counter)) == entry.buffer(
            read_index(entry.aba_counter),
        ));
    }
    assert(ended.readers =~= Map::<int, Reading>::empty());
}

proof fn lemma_copying(state: SlotState, reader: int, count: nat)
    requires
        !state.readers.dom().contains(reader),
        state.buffers.len() == 2,
        count <= MAX_UDS_NAME_LEN,
    ensures
        after_all(state, copying_steps(reader, count)) == (SlotState {
            readers: state.readers.insert(
                reader,
                Reading {
                    seen: state.counter,
                    copied: Map::new(
                        |at: int| 0 <= at < count,
                        |at: int| state.buffers[read_index(state.counter)][at],
                    ),
                },
            ),
            ..state
        }),
    decreases count,
{
    let steps = copying_steps(reader, count);
    if count == 0 {
        assert(steps.drop_last() =~= Seq::<SlotStep>::empty());
        assert(steps.last() == (SlotStep::BeginGet { reader }));
        assert(after_all(state, steps.drop_last()) == state);
        assert(Map::<int, u8>::empty() =~= Map::new(
            |at: int| 0 <= at < count,
            |at: int| state.buffers[read_index(state.counter)][at],
        ));
    } else {
        let fewer = (count - 1) as nat;
        lemma_copying(state, reader, fewer);
        assert(steps.drop_last() =~= copying_steps(reader, fewer));
        assert(steps.last() == (SlotStep::CopyByte { reader, at: fewer as int }));
        let before = after_all(state, copying_steps(reader, fewer));
        assert(before.readers[reader].copied.insert(
            fewer as int,
            before.buffers[read_index(before.readers[reader].seen)][fewer as int],
        ) =~= Map::new(
            |at: int| 0 <= at < count,
            |at: int| state.buffers[read_index(state.counter)][at],
        ));
        assert(before.readers.insert(
            reader,
            Reading {
                seen: before.readers[reader].seen,
                copied: before.readers[reader].copied.insert(
                    fewer as int,
                    before.buffers[read_index(before.readers[reader].seen)][fewer as int],
                ),
            },
        ) =~= state.readers.insert(
            reader,
            Reading {
                seen: state.counter,
                copied: Map::new(
                    |at: int| 0 <= at < count,
                    |at: int| state.buffers[read_index(state.counter)][at],
                ),
            },
        ));
    }
}

/// Reading the name of a slot, as `get` does it, is a run of a reader: a
/// reader that begins, copies every byte, and ends while no writer moves the
/// counter is handed the name that `get` returns.
pub proof fn lemma_get_runs_a_reader(entry: Entry, history: Seq<Seq<u8>>, reader: int)
    ensures
        handed_out(
            after_all(slot_of(entry, history), copying_steps(reader, MAX_UDS_NAME_LEN as nat)),
            SlotStep::EndGet { reader },
        ) == Some(entry.current()),
{
    let state = slot_of(entry, history);
    lemma_copying(state, reader, MAX_UDS_NAME_LEN as nat);
    let copied = after_all(state, copying_steps(reader, MAX_UDS_NAME_LEN as nat));
    assert(copied.readers.dom().contains(reader));
    assert(copy_of(copied.readers[reader]) =~= entry.current());
}

} // verus!
