//! Fixed-capacity circular history of samples.
//!
//! The buffer is allocated once, for the highest sample rate it will ever be
//! configured for. Configuring a rate selects how many of its slots are in
//! use (one tenth of a second of samples); pushing overwrites the slot under
//! the write cursor and advances the cursor, wrapping at the logical size.

use crate::sampler::{is_window_of, sample_window};
use vstd::arithmetic::div_mod::{
    lemma_add_mod_noop, lemma_mod_add_multiples_vanish, lemma_mod_bound, lemma_mod_self_0,
    lemma_mod_twice, lemma_small_mod,
};
use vstd::prelude::*;

verus! {

/// Highest sample rate, in Hz, that a default-sized history accepts.
pub const MAX_SAMPLE_RATE: u32 = 192_000;

/// Number of slots of a history sized for `MAX_SAMPLE_RATE`.
pub const MAX_BUFFER_SIZE: usize = 19_200;

/// Number of samples in a tenth of a second at `sample_rate` Hz, rounded to
/// the nearest integer (halves round up).
pub open spec fn tenth_of_second(sample_rate: int) -> int {
    (sample_rate + 5) / 10
}

/// Number of slots in use at `sample_rate` Hz in a buffer of `capacity` slots.
pub open spec fn logical_size_for(capacity: int, sample_rate: int) -> int {
    if tenth_of_second(sample_rate) < capacity {
        tenth_of_second(sample_rate)
    } else {
        capacity
    }
}

/// A default-sized history holds exactly a tenth of a second at the highest
/// rate.
pub proof fn lemma_max_buffer_size_fits_max_rate()
    ensures
        MAX_BUFFER_SIZE == tenth_of_second(MAX_SAMPLE_RATE as int),
        MAX_BUFFER_SIZE == logical_size_for(MAX_BUFFER_SIZE as int, MAX_SAMPLE_RATE as int),
{
}

/// Position of the write cursor after one write at `cursor`.
pub open spec fn advance(cursor: int, logical_size: int) -> int {
    (cursor + 1) % logical_size
}

/// Index of the slot written `age` pushes ago, counted back from `cursor`
/// (`age == 0` is the most recent write).
pub open spec fn slot_before(cursor: int, age: int, logical_size: int) -> int {
    (cursor - 1 - age) % logical_size
}

/// Executable form of `tenth_of_second`.
pub fn samples_per_tenth(sample_rate: u32) -> (n: u32)
    ensures
        n == tenth_of_second(sample_rate as int),
{
    let whole: u32 = sample_rate / 10;
    if sample_rate % 10 >= 5 {
        whole + 1
    } else {
        whole
    }
}

/// Executable form of `advance`: the cursor moves one slot on and wraps to 0
/// at `logical_size`.
pub fn next_cursor(cursor: usize, logical_size: usize) -> (next: usize)
    requires
        cursor < logical_size,
    ensures
        next == advance(cursor as int, logical_size as int),
        next < logical_size,
{
    if cursor + 1 == logical_size {
        proof {
            lemma_mod_self_0(logical_size as int);
        }
        0
    } else {
        proof {
            lemma_small_mod((cursor + 1) as nat, logical_size as nat);
        }
        cursor + 1
    }
}

/// Why a configuration request was turned down.
#[derive(Clone, Copy, Debug, PartialEq, Eq, Structural)]
pub enum ConfigError {
    /// The requested sample rate is above the rate the buffer was sized for.
    SampleRateTooHigh { requested: u32, maximum: u32 },
}

/// Number of slots to use at `sample_rate` Hz in a buffer of `capacity`
/// slots that was sized for `max_sample_rate` Hz: a tenth of a second of
/// samples, at most the capacity. A rate above the maximum is rejected.
pub fn configured_size(capacity: usize, max_sample_rate: u32, sample_rate: u32) -> (outcome: Result<
    usize,
    ConfigError,
>)
    ensures
        sample_rate <= max_sample_rate ==> outcome.is_ok() && outcome.unwrap() == logical_size_for(
            capacity as int,
            sample_rate as int,
        ),
        sample_rate > max_sample_rate ==> outcome == Err::<usize, ConfigError>(
            ConfigError::SampleRateTooHigh { requested: sample_rate, maximum: max_sample_rate },
        ),
{
    if sample_rate > max_sample_rate {
        return Err(
            ConfigError::SampleRateTooHigh { requested: sample_rate, maximum: max_sample_rate },
        );
    }
    let wanted: usize = samples_per_tenth(sample_rate) as usize;
    if wanted < capacity {
        Ok(wanted)
    } else {
        Ok(capacity)
    }
}

/// Mathematical model of a history: what every contract below speaks of.
pub struct HistoryModel<T> {
    /// Every slot of the buffer, in index order; only the first
    /// `logical_size` are in use.
    pub slots: Seq<T>,
    /// Number of slots in use at the configured sample rate.
    pub logical_size: nat,
    /// Index of the next slot to be written.
    pub write_cursor: nat,
    /// Configured sample rate in Hz; 0 until the first configuration.
    pub sample_rate: nat,
    /// Highest sample rate that can be configured.
    pub max_sample_rate: nat,
}

impl<T> HistoryModel<T> {
    /// The data-model invariant: the buffer holds a tenth of a second at the
    /// highest rate, the logical size is the one of the configured rate, and
    /// the cursor points into the part in use.
    pub open spec fn wf(self) -> bool {
        &&& self.slots.len() == tenth_of_second(self.max_sample_rate as int)
        &&& self.sample_rate <= self.max_sample_rate
        &&& self.logical_size == logical_size_for(
            self.slots.len() as int,
            self.sample_rate as int,
        )
        &&& self.logical_size <= self.slots.len()
        &&& if self.logical_size == 0 {
            self.write_cursor == 0
        } else {
            self.write_cursor < self.logical_size
        }
    }

    /// The history after it was configured for `sample_rate`: the logical
    /// size follows the rate and the cursor is back at 0. Slots keep their
    /// content.
    pub open spec fn configured(self, sample_rate: nat) -> Self {
        HistoryModel {
            logical_size: logical_size_for(self.slots.len() as int, sample_rate as int) as nat,
            write_cursor: 0,
            sample_rate,
            ..self
        }
    }

    /// The history after one push: `sample` stands in the slot under the
    /// cursor and the cursor has advanced. A history with no slot in use
    /// stays as it is.
    pub open spec fn pushed(self, sample: T) -> Self {
        if self.logical_size == 0 {
            self
        } else {
            HistoryModel {
                slots: self.slots.update(self.write_cursor as int, sample),
                write_cursor: advance(self.write_cursor as int, self.logical_size as int) as nat,
                ..self
            }
        }
    }

    /// The history after pushing `samples` one by one, first to last.
    pub open spec fn pushed_all(self, samples: Seq<T>) -> Self
        decreases samples.len(),
    {
        if samples.len() == 0 {
            self
        } else {
            self.pushed_all(samples.drop_last()).pushed(samples.last())
        }
    }

    /// The history with the cursor back at slot 0.
    pub open spec fn rewound(self) -> Self {
        HistoryModel { write_cursor: 0, ..self }
    }
}

/// Fixed-capacity circular buffer of samples with one writer.
///
/// `T` is the sample type; the buffer only moves samples around and never
/// computes with them.
pub struct SampleHistory<T> {
    slots: Vec<T>,
    logical_size: usize,
    write_cursor: usize,
    sample_rate: u32,
    max_sample_rate: u32,
}

impl<T> View for SampleHistory<T> {
    type V = HistoryModel<T>;

    closed spec fn view(&self) -> HistoryModel<T> {
        HistoryModel {
            slots: self.slots@,
            logical_size: self.logical_size as nat,
            write_cursor: self.write_cursor as nat,
            sample_rate: self.sample_rate as nat,
            max_sample_rate: self.max_sample_rate as nat,
        }
    }
}

impl<T: Copy> SampleHistory<T> {
    /// Well-formedness of the value: its model satisfies the data-model
    /// invariant. Every constructor establishes it, every method keeps it.
    pub open spec fn wf(&self) -> bool {
        self@.wf()
    }

    /// Allocates a history large enough for `max_sample_rate` Hz, every slot
    /// holding `fill`. It is not configured yet: no slot is in use.
    pub fn new(max_sample_rate: u32, fill: T) -> (history: Self)
        ensures
            history.wf(),
            history@.slots == Seq::new(
                tenth_of_second(max_sample_rate as int) as nat,
                |i: int| fill,
            ),
            history@.logical_size == 0,
            history@.write_cursor == 0,
            history@.sample_rate == 0,
            history@.max_sample_rate == max_sample_rate,
    {
        let capacity: usize = samples_per_tenth(max_sample_rate) as usize;
        let mut slots: Vec<T> = Vec::with_capacity(capacity);
        let mut filled: usize = 0;
        while filled < capacity
            invariant
                filled <= capacity,
                slots@ == Seq::new(filled as nat, |i: int| fill),
            decreases capacity - filled,
        {
            slots.push(fill);
            filled = filled + 1;
            assert(slots@ =~= Seq::new(filled as nat, |i: int| fill));
        }
        SampleHistory { slots, logical_size: 0, write_cursor: 0, sample_rate: 0, max_sample_rate }
    }

    /// Selects the part of the buffer in use at `sample_rate` Hz and puts the
    /// cursor back at slot 0. A rate above the maximum is rejected and leaves
    /// the history as it was.
    pub fn configure(&mut self, sample_rate: u32) -> (outcome: Result<(), ConfigError>)
        requires
            old(self).wf(),
        ensures
            final(self).wf(),
            sample_rate <= old(self)@.max_sample_rate ==> outcome == Ok::<(), ConfigError>(())
                && final(self)@ == old(self)@.configured(sample_rate as nat),
            sample_rate > old(self)@.max_sample_rate ==> outcome == Err::<(), ConfigError>(
                ConfigError::SampleRateTooHigh {
                    requested: sample_rate,
                    maximum: old(self)@.max_sample_rate as u32,
                },
            ) && final(self)@ == old(self)@,
    {
        match configured_size(self.slots.len(), self.max_sample_rate, sample_rate) {
            Err(rejected) => {
                return Err(rejected);
            },
            Ok(size) => {
                self.logical_size = size;
            },
        }
        self.sample_rate = sample_rate;
        self.write_cursor = 0;
        Ok(())
    }

    /// Writes `sample` at the cursor and advances the cursor by one slot,
    /// wrapping at the logical size. Constant time, no allocation. With no
    /// slot in use the push is skipped.
    pub fn push(&mut self, sample: T)
        requires
            old(self).wf(),
        ensures
            final(self).wf(),
            final(self)@ == old(self)@.pushed(sample),
    {
        if self.logical_size == 0 {
            return ;
        }
        let cursor: usize = self.write_cursor;
        self.slots.set(cursor, sample);
        self.write_cursor = next_cursor(cursor, self.logical_size);
    }

    /// Pushes `samples` one by one, first to last.
    pub fn extend(&mut self, samples: &[T])
        requires
            old(self).wf(),
        ensures
            final(self).wf(),
            final(self)@ == old(self)@.pushed_all(samples@),
    {
        let mut done: usize = 0;
        while done < samples.len()
            invariant
                done <= samples@.len(),
                self.wf(),
                self@ == old(self)@.pushed_all(samples@.subrange(0, done as int)),
            decreases samples@.len() - done,
        {
            self.push(samples[done]);
            done = done + 1;
            proof {
                assert(samples@.subrange(0, done as int).drop_last() =~= samples@.subrange(
                    0,
                    done - 1,
                ));
            }
        }
        proof {
            assert(samples@.subrange(0, done as int) =~= samples@);
        }
    }

    /// Puts the cursor back at slot 0 without touching the slots.
    pub fn reset(&mut self)
        requires
            old(self).wf(),
        ensures
            final(self).wf(),
            final(self)@ == old(self)@.rewound(),
    {
        self.write_cursor = 0;
    }

    /// Total number of slots, in use or not.
    pub fn capacity(&self) -> (n: usize)
        ensures
            n == self@.slots.len(),
    {
        self.slots.len()
    }

    /// Number of slots in use.
    pub fn logical_size(&self) -> (n: usize)
        ensures
            n == self@.logical_size,
    {
        self.logical_size
    }

    /// Index of the next slot to be written.
    pub fn write_cursor(&self) -> (cursor: usize)
        ensures
            cursor == self@.write_cursor,
    {
        self.write_cursor
    }

    /// Configured sample rate in Hz, 0 before the first configuration.
    pub fn sample_rate(&self) -> (rate: u32)
        ensures
            rate == self@.sample_rate,
    {
        self.sample_rate
    }

    /// Highest sample rate that `configure` accepts.
    pub fn max_sample_rate(&self) -> (rate: u32)
        ensures
            rate == self@.max_sample_rate,
    {
        self.max_sample_rate
    }

    /// The sample in slot `index`, or `None` where the slot is not in use.
    pub fn slot(&self, index: usize) -> (sample: Option<T>)
        requires
            self.wf(),
        ensures
            index < self@.logical_size ==> sample == Some(self@.slots[index as int]),
            index >= self@.logical_size ==> sample.is_none(),
    {
        if index < self.logical_size {
            Some(self.slots[index])
        } else {
            None
        }
    }

    /// The history resampled to `display_width` points spanning the most
    /// recent `time_window_ms` milliseconds at the configured rate.
    pub fn window(&self, time_window_ms: u32, display_width: usize) -> (points: Vec<T>)
        requires
            self.wf(),
        ensures
            is_window_of(
                points@,
                self@.slots,
                self@.logical_size as int,
                self@.write_cursor as int,
                self@.sample_rate as int,
                time_window_ms as int,
                display_width as int,
            ),
    {
        sample_window(
            self.slots.as_slice(),
            self.logical_size,
            self.write_cursor,
            self.sample_rate,
            time_window_ms,
            display_width,
        )
    }

    /// All slots as a slice, for a reader that takes a snapshot.
    pub fn slots(&self) -> (all: &[T])
        ensures
            all@ == self@.slots,
    {
        self.slots.as_slice()
    }
}

/// Stepping back from the slot after `cursor` lands on `cursor`, and each
/// further step back lands on the slot one before.
proof fn lemma_step_back(cursor: int, age: int, n: int)
    requires
        0 <= cursor < n,
        0 <= age < n,
    ensures
        slot_before(advance(cursor, n), 0, n) == cursor,
        age > 0 ==> slot_before(advance(cursor, n), age, n) == slot_before(cursor, age - 1, n),
        age > 0 ==> slot_before(advance(cursor, n), age, n) != cursor,
        0 <= slot_before(advance(cursor, n), age, n) < n,
{
    let next = advance(cursor, n);
    if cursor + 1 == n {
        lemma_mod_self_0(n);
        assert(next == 0);
        lemma_mod_add_multiples_vanish(-1, n);
        lemma_small_mod((n - 1) as nat, n as nat);
        lemma_mod_add_multiples_vanish(-1 - age, n);
        assert((n + (-1 - age)) % n == (-1 - age) % n);
        lemma_small_mod((n - 1 - age) as nat, n as nat);
        assert(slot_before(next, age, n) == n - 1 - age);
        if age > 0 {
            lemma_small_mod((cursor - age) as nat, n as nat);
        }
    } else {
        lemma_small_mod((cursor + 1) as nat, n as nat);
        assert(next == cursor + 1);
        lemma_small_mod(cursor as nat, n as nat);
        if age <= cursor {
            lemma_small_mod((cursor - age) as nat, n as nat);
        } else {
            lemma_mod_add_multiples_vanish(cursor - age, n);
            lemma_small_mod((n + cursor - age) as nat, n as nat);
        }
    }
}

/// A run of pushes on a history with slots in use: the cursor advances by
/// the number of pushes, modulo the logical size; stepping back from the
/// cursor one finds the pushed samples, most recent first, as far as they
/// have not been overwritten; slots that are not in use keep their content.
/// In particular, after at least one push the slot just before the cursor
/// holds the last sample pushed.
pub proof fn lemma_pushes_wrap_and_keep_latest<T>(history: HistoryModel<T>, samples: Seq<T>)
    requires
        history.wf(),
        history.logical_size > 0,
    ensures
        history.pushed_all(samples).wf(),
        history.pushed_all(samples).logical_size == history.logical_size,
        history.pushed_all(samples).sample_rate == history.sample_rate,
        history.pushed_all(samples).max_sample_rate == history.max_sample_rate,
        history.pushed_all(samples).write_cursor == (history.write_cursor + samples.len()) as int
            % (history.logical_size as int),
        forall|age: int|
            0 <= age < samples.len() && age < history.logical_size ==> #[trigger] history.pushed_all(
                samples,
            ).slots[slot_before(
                history.pushed_all(samples).write_cursor as int,
                age,
                history.logical_size as int,
            )] == samples[samples.len() - 1 - age],
        forall|i: int|
            history.logical_size <= i < history.slots.len() ==> #[trigger] history.pushed_all(
                samples,
            ).slots[i] == history.slots[i],
    decreases samples.len(),
{
    let n = history.logical_size as int;
    if samples.len() == 0 {
        lemma_small_mod(history.write_cursor, n as nat);
    } else {
        let earlier = samples.drop_last();
        let before = history.pushed_all(earlier);
        let after = history.pushed_all(samples);
        lemma_pushes_wrap_and_keep_latest(history, earlier);
        assert(after == before.pushed(samples.last()));
        let c = before.write_cursor as int;
        let total = (history.write_cursor + samples.len()) as int;
        lemma_step_back(c, 0, n);
        lemma_mod_bound(c + 1, n);
        lemma_add_mod_noop(total - 1, 1, n);
        lemma_mod_twice(total - 1, n);
        assert(after.write_cursor == total % n) by {
            if n == 1 {
                lemma_mod_bound(total, n);
            } else {
                lemma_small_mod(1, n as nat);
            }
        }
        assert forall|age: int| 0 <= age < samples.len() && age < n implies #[trigger] after.slots[slot_before(
            after.write_cursor as int,
            age,
            n,
        )] == samples[samples.len() - 1 - age] by {
            lemma_step_back(c, age, n);
            if age > 0 {
                assert(before.slots[slot_before(c, age - 1, n)] == earlier[earlier.len() - 1 - (age
                    - 1)]);
            }
        }
    }
}

/// After configuration and `k` pushes the cursor stands at `k` modulo the
/// logical size, and the slot just before it, wrapping, holds the sample
/// pushed last.
pub proof fn lemma_pushes_after_configure<T>(
    history: HistoryModel<T>,
    sample_rate: nat,
    samples: Seq<T>,
)
    requires
        history.wf(),
        sample_rate <= history.max_sample_rate,
        history.configured(sample_rate).logical_size > 0,
    ensures
        history.configured(sample_rate).wf(),
        history.configured(sample_rate).pushed_all(samples).write_cursor == (samples.len() as int)
            % (history.configured(sample_rate).logical_size as int),
        samples.len() > 0 ==> history.configured(sample_rate).pushed_all(samples).slots[slot_before(
            history.configured(sample_rate).pushed_all(samples).write_cursor as int,
            0,
            history.configured(sample_rate).logical_size as int,
        )] == samples.last(),
{
    let ready = history.configured(sample_rate);
    lemma_pushes_wrap_and_keep_latest(ready, samples);
    if samples.len() > 0 {
        assert(ready.pushed_all(samples).slots[slot_before(
            ready.pushed_all(samples).write_cursor as int,
            0,
            ready.logical_size as int,
        )] == samples[samples.len() - 1 - 0]);
    }
}

/// Pushing into a history with no slot in use changes nothing.
pub proof fn lemma_pushes_skipped_when_empty<T>(history: HistoryModel<T>, samples: Seq<T>)
    requires
        history.logical_size == 0,
    ensures
        history.pushed_all(samples) == history,
    decreases samples.len(),
{
    if samples.len() > 0 {
        lemma_pushes_skipped_when_empty(history, samples.drop_last());
    }
}

} // verus!
