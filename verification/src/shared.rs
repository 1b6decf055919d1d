//! The history as it is shared between the producer and the reader.
//!
//! The producer holds a `HistoryWriter`, the reader a `HistoryReader`, and
//! neither ever waits for the other. Every slot is one atomic word. The
//! writer alone decides the logical size and the cursor; it keeps them for
//! itself and publishes a copy of each for the reader. A snapshot reads the
//! published words one at a time, so it may mix samples of two passes of the
//! producer: that is accepted, a live trace needs no more.
//!
//! Samples are raw 32-bit words. What the slots hold is not part of any
//! contract here, since the other thread may change it at any moment. What
//! is proved is which slots are in use and where the cursor stands after
//! every operation of the writer, that no access leaves the buffer, and that
//! every snapshot is fit for resampling. What a run of pushes does to the
//! content of a buffer is stated for `SampleHistory`, whose cursor follows
//! the same model.

use crate::history::{configured_size, next_cursor, samples_per_tenth, ConfigError, HistoryModel};
use std::sync::atomic::{AtomicU32, AtomicUsize, Ordering};
use std::sync::Arc;
use vstd::prelude::*;

verus! {

/// What the reader sees at one instant: the slots that were in use, in index
/// order, and where the producer was about to write.
#[derive(Debug, PartialEq, Eq)]
pub struct HistorySnapshot {
    /// The slots in use; their number is the logical size.
    pub slots: Vec<u32>,
    /// Slot the producer was about to write.
    pub write_cursor: usize,
    /// Sample rate in Hz that was configured.
    pub sample_rate: u32,
}

impl HistorySnapshot {
    /// The cursor points into the slots, or at 0 where there are none.
    pub open spec fn wf(&self) -> bool {
        if self.slots@.len() == 0 {
            self.write_cursor == 0
        } else {
            self.write_cursor < self.slots@.len()
        }
    }
}

/// Where a cursor that was read from shared memory points, for a logical
/// size read at another instant: the cursor itself where it fits, else the
/// cursor wrapped at the logical size, which selects the same slots.
pub open spec fn settled_cursor(cursor: int, logical_size: int) -> int {
    if logical_size == 0 {
        0
    } else {
        cursor % logical_size
    }
}

/// Executable form of `settled_cursor`.
pub fn settle_cursor(cursor: usize, logical_size: usize) -> (settled: usize)
    ensures
        settled == settled_cursor(cursor as int, logical_size as int),
        logical_size > 0 ==> settled < logical_size,
{
    if logical_size == 0 {
        0
    } else {
        cursor % logical_size
    }
}

/// The memory both sides see.
struct SharedSlots {
    slots: Vec<AtomicU32>,
    logical_size: AtomicUsize,
    write_cursor: AtomicUsize,
    sample_rate: AtomicU32,
}

impl SharedSlots {
    /// Publishes a configuration for the reader.
    fn publish_configuration(&self, logical_size: usize, sample_rate: u32) {
        self.logical_size.store(logical_size, Ordering::Relaxed);
        self.sample_rate.store(sample_rate, Ordering::Relaxed);
        self.write_cursor.store(0, Ordering::Relaxed);
    }

    /// Publishes the cursor for the reader.
    fn publish_cursor(&self, cursor: usize) {
        self.write_cursor.store(cursor, Ordering::Relaxed);
    }

    /// Stores `sample` in slot `slot`.
    fn store_sample(&self, slot: usize, sample: u32)
        requires
            slot < self.slots@.len(),
    {
        self.slots[slot].store(sample, Ordering::Relaxed);
    }
}

/// The producer's side of a shared history.
pub struct HistoryWriter {
    shared: Arc<SharedSlots>,
    logical_size: usize,
    write_cursor: usize,
    sample_rate: u32,
    max_sample_rate: u32,
}

/// The reader's side of a shared history.
pub struct HistoryReader {
    shared: Arc<SharedSlots>,
}

impl View for HistoryWriter {
    /// The model of a history whose samples carry no information: the
    /// number of slots, the logical size, the cursor and the rates.
    type V = HistoryModel<()>;

    closed spec fn view(&self) -> HistoryModel<()> {
        HistoryModel {
            slots: Seq::new(self.shared.slots@.len(), |i: int| ()),
            logical_size: self.logical_size as nat,
            write_cursor: self.write_cursor as nat,
            sample_rate: self.sample_rate as nat,
            max_sample_rate: self.max_sample_rate as nat,
        }
    }
}

impl HistoryWriter {
    /// Well-formedness of the value: its model satisfies the data-model
    /// invariant of a history.
    pub open spec fn wf(&self) -> bool {
        self@.wf()
    }

    /// Allocates a shared history for rates up to `max_sample_rate` Hz and
    /// returns its writer. Every slot is zero and none is in use.
    pub fn new(max_sample_rate: u32) -> (writer: Self)
        ensures
            writer.wf(),
            writer@.logical_size == 0,
            writer@.write_cursor == 0,
            writer@.sample_rate == 0,
            writer@.max_sample_rate == max_sample_rate,
    {
        let capacity: usize = samples_per_tenth(max_sample_rate) as usize;
        let mut slots: Vec<AtomicU32> = Vec::with_capacity(capacity);
        let mut filled: usize = 0;
        while filled < capacity
            invariant
                filled <= capacity,
                slots@.len() == filled,
            decreases capacity - filled,
        {
            slots.push(AtomicU32::new(0));
            filled = filled + 1;
        }
        let shared = SharedSlots {
            slots,
            logical_size: AtomicUsize::new(0),
            write_cursor: AtomicUsize::new(0),
            sample_rate: AtomicU32::new(0),
        };
        HistoryWriter {
            shared: Arc::new(shared),
            logical_size: 0,
            write_cursor: 0,
            sample_rate: 0,
            max_sample_rate,
        }
    }

    /// A reader of the same history.
    pub fn reader(&self) -> (reader: HistoryReader)
        ensures
            reader.spec_capacity() == self@.slots.len(),
    {
        HistoryReader { shared: self.shared.clone() }
    }

    /// Selects the slots in use at `sample_rate` Hz and puts the cursor back
    /// at slot 0, as `SampleHistory::configure` does. A rate above the
    /// maximum is rejected and leaves everything as it was.
    pub fn configure(&mut self, sample_rate: u32) -> (outcome: Result<(), ConfigError>)
        requires
            old(self).wf(),
        ensures
            final(self).wf(),
            sample_rate <= old(self)@.max_sample_rate ==> outcome == Ok::<(), ConfigError>(())
                && final(self)@ == old(self)@.configured(sample_rate as nat),
            sample_rate > old(self)@.max_sample_rate ==> outcome == Err::<(), ConfigError>(
                ConfigError::SampleRateTooHigh {
                    requested: sample_rate,
                    maximum: old(self)@.max_sample_rate as u32,
                },
            ) && final(self)@ == old(self)@,
    {
        match configured_size(self.shared.slots.len(), self.max_sample_rate, sample_rate) {
            Err(rejected) => {
                return Err(rejected);
            },
            Ok(size) => {
                self.logical_size = size;
            },
        }
        self.sample_rate = sample_rate;
        self.write_cursor = 0;
        self.shared.publish_configuration(self.logical_size, sample_rate);
        Ok(())
    }

    /// Stores `sample` in the slot under the cursor and advances the cursor,
    /// wrapping at the logical size. Two atomic stores: no allocation, no
    /// lock, no loop. With no slot in use the push is skipped.
    pub fn push(&mut self, sample: u32)
        requires
            old(self).wf(),
        ensures
            final(self).wf(),
            final(self)@ == old(self)@.pushed(()),
    {
        if self.logical_size == 0 {
            return ;
        }
        self.shared.store_sample(self.write_cursor, sample);
        self.write_cursor = next_cursor(self.write_cursor, self.logical_size);
        self.shared.publish_cursor(self.write_cursor);
        proof {
            assert(self@.slots =~= old(self)@.pushed(()).slots);
        }
    }

    /// Puts the cursor back at slot 0.
    pub fn reset(&mut self)
        requires
            old(self).wf(),
        ensures
            final(self).wf(),
            final(self)@ == old(self)@.rewound(),
    {
        self.write_cursor = 0;
        self.shared.publish_cursor(0);
    }

    /// Total number of slots, in use or not.
    pub fn capacity(&self) -> (n: usize)
        ensures
            n == self@.slots.len(),
    {
        self.shared.slots.len()
    }

    /// Number of slots in use.
    pub fn logical_size(&self) -> (n: usize)
        ensures
            n == self@.logical_size,
    {
        self.logical_size
    }

    /// Index of the next slot to be written.
    pub fn write_cursor(&self) -> (cursor: usize)
        ensures
            cursor == self@.write_cursor,
    {
        self.write_cursor
    }

    /// Configured sample rate in Hz, 0 before the first configuration.
    pub fn sample_rate(&self) -> (rate: u32)
        ensures
            rate == self@.sample_rate,
    {
        self.sample_rate
    }

    /// Highest sample rate that `configure` accepts.
    pub fn max_sample_rate(&self) -> (rate: u32)
        ensures
            rate == self@.max_sample_rate,
    {
        self.max_sample_rate
    }
}

impl HistoryReader {
    /// Number of slots of the history, fixed when it was made.
    pub closed spec fn spec_capacity(&self) -> nat {
        self.shared.slots@.len()
    }

    /// Number of slots of the history.
    pub fn capacity(&self) -> (n: usize)
        ensures
            n == self.spec_capacity(),
    {
        self.shared.slots.len()
    }

    /// Copies out the slots in use, the cursor and the sample rate as the
    /// writer last published them, each read once and none under a lock.
    /// Whatever the writer does meanwhile, the snapshot is well-formed.
    pub fn snapshot(&self) -> (snapshot: HistorySnapshot)
        ensures
            snapshot.wf(),
            snapshot.slots@.len() <= self.spec_capacity(),
    {
        let published_size: usize = self.shared.logical_size.load(Ordering::Relaxed);
        let size: usize = snapshot_size(published_size, self.shared.slots.len());
        let cursor: usize = self.shared.write_cursor.load(Ordering::Relaxed);
        let sample_rate: u32 = self.shared.sample_rate.load(Ordering::Relaxed);
        let mut slots: Vec<u32> = Vec::with_capacity(size);
        let mut index: usize = 0;
        while index < size
            invariant
                index <= size <= self.shared.slots@.len(),
                slots@.len() == index,
            decreases size - index,
        {
            slots.push(self.shared.slots[index].load(Ordering::Relaxed));
            index = index + 1;
        }
        HistorySnapshot::assemble(slots, cursor, sample_rate)
    }
}

/// Number of slots a snapshot copies, for a logical size as it was read from
/// shared memory: the published size, or the whole buffer where the
/// published size is more than the buffer holds.
pub open spec fn visible_size(published_size: int, capacity: int) -> int {
    if published_size < capacity {
        published_size
    } else {
        capacity
    }
}

/// Executable form of `visible_size`.
pub fn snapshot_size(published_size: usize, capacity: usize) -> (size: usize)
    ensures
        size == visible_size(published_size as int, capacity as int),
        size <= capacity,
{
    if published_size < capacity {
        published_size
    } else {
        capacity
    }
}

impl HistorySnapshot {
    /// Builds a snapshot from what was read from shared memory: the words of
    /// the slots in use, in index order, the published cursor and the
    /// published sample rate. The words and the rate are kept as they are;
    /// the cursor is settled for the number of words.
    pub fn assemble(slots: Vec<u32>, published_cursor: usize, sample_rate: u32) -> (snapshot:
        HistorySnapshot)
        ensures
            snapshot.wf(),
            snapshot.slots@ == slots@,
            snapshot.write_cursor == settled_cursor(published_cursor as int, slots@.len() as int),
            snapshot.sample_rate == sample_rate,
    {
        let write_cursor: usize = settle_cursor(published_cursor, slots.len());
        HistorySnapshot { slots, write_cursor, sample_rate }
    }
}

} // verus!
