//! Windowed resampling of a history snapshot: one source sample per display
//! column.
//!
//! The window spans the most recent `time_window_ms` milliseconds, never more
//! than what the history holds. Columns walk forward from the write cursor,
//! which is the oldest sample of a full buffer. Where the window holds fewer
//! samples than there are columns a sample repeats; where it holds more,
//! samples are skipped. Nothing is averaged or interpolated.

use vstd::arithmetic::div_mod::lemma_mod_bound;
use vstd::prelude::*;

verus! {

/// Number of samples in `time_window_ms` milliseconds at `sample_rate` Hz,
/// rounded to the nearest integer (halves round up).
pub open spec fn samples_in_window(sample_rate: int, time_window_ms: int) -> int {
    (sample_rate * time_window_ms + 500) / 1000
}

/// Number of samples the window spans: those of the time window, clamped to
/// the logical size of the history.
pub open spec fn window_samples(logical_size: int, sample_rate: int, time_window_ms: int) -> int {
    if samples_in_window(sample_rate, time_window_ms) < logical_size {
        samples_in_window(sample_rate, time_window_ms)
    } else {
        logical_size
    }
}

/// Slot that display column `column` of `display_width` shows, for a window
/// of `samples` samples starting at `write_cursor`.
pub open spec fn source_slot(
    write_cursor: int,
    column: int,
    samples: int,
    display_width: int,
    logical_size: int,
) -> int {
    (write_cursor + (column * samples) / display_width) % logical_size
}

/// Whether nothing can be drawn: the history is not configured, or the draw
/// region has no width.
pub open spec fn is_degenerate(logical_size: int, display_width: int) -> bool {
    logical_size <= 1 || display_width == 0
}

/// What the sampler owes: no point in the degenerate cases, else one point
/// per column, each the sample in that column's source slot.
pub open spec fn is_window_of<T>(
    points: Seq<T>,
    history: Seq<T>,
    logical_size: int,
    write_cursor: int,
    sample_rate: int,
    time_window_ms: int,
    display_width: int,
) -> bool {
    if is_degenerate(logical_size, display_width) {
        points.len() == 0
    } else {
        &&& points.len() == display_width
        &&& forall|column: int|
            0 <= column < display_width ==> #[trigger] points[column] == history[source_slot(
                write_cursor,
                column,
                window_samples(logical_size, sample_rate, time_window_ms),
                display_width,
                logical_size,
            )]
    }
}

/// Number of most recent samples to show. It never exceeds `logical_size`,
/// however long the time window.
pub fn samples_to_display(logical_size: usize, sample_rate: u32, time_window_ms: u32) -> (samples:
    usize)
    ensures
        samples == window_samples(logical_size as int, sample_rate as int, time_window_ms as int),
        samples <= logical_size,
{
    assert(sample_rate * time_window_ms <= 0xffff_ffff * 0xffff_ffff) by (nonlinear_arith)
        requires
            0 <= sample_rate <= 0xffff_ffff,
            0 <= time_window_ms <= 0xffff_ffff,
    ;
    let product: u64 = (sample_rate as u64) * (time_window_ms as u64);
    let wanted: u64 = (product + 500) / 1000;
    if wanted < logical_size as u64 {
        wanted as usize
    } else {
        logical_size
    }
}

/// Slot shown in column `column`. The result always lies in the part of the
/// buffer in use, whatever the cursor.
pub fn source_index(
    write_cursor: usize,
    column: usize,
    samples: usize,
    display_width: usize,
    logical_size: usize,
) -> (index: usize)
    requires
        column < display_width,
        logical_size > 0,
    ensures
        index == source_slot(
            write_cursor as int,
            column as int,
            samples as int,
            display_width as int,
            logical_size as int,
        ),
        index < logical_size,
{
    assert(column * samples <= 0xffff_ffff_ffff_ffff * 0xffff_ffff_ffff_ffff) by (nonlinear_arith)
        requires
            0 <= column <= 0xffff_ffff_ffff_ffff,
            0 <= samples <= 0xffff_ffff_ffff_ffff,
    ;
    let scaled: u128 = (column as u128) * (samples as u128);
    let offset: u128 = scaled / (display_width as u128);
    proof {
        lemma_offset_in_window(column as int, samples as int, display_width as int);
        lemma_mod_bound(write_cursor as int + offset as int, logical_size as int);
    }
    let index: u128 = (write_cursor as u128 + offset) % (logical_size as u128);
    index as usize
}

/// The offset of a column into the window stays inside the window.
proof fn lemma_offset_in_window(column: int, samples: int, display_width: int)
    requires
        0 <= column < display_width,
        0 <= samples,
    ensures
        0 <= (column * samples) / display_width <= samples,
        samples > 0 ==> (column * samples) / display_width < samples,
        0 <= column * samples <= display_width * samples,
{
    assert(0 <= column * samples <= display_width * samples) by (nonlinear_arith)
        requires
            0 <= column < display_width,
            0 <= samples,
    ;
    if samples > 0 {
        assert(column * samples < display_width * samples) by (nonlinear_arith)
            requires
                0 <= column < display_width,
                0 < samples,
        ;
        assert((column * samples) / display_width < samples) by (nonlinear_arith)
            requires
                0 <= column * samples < display_width * samples,
                0 < display_width,
        ;
    } else {
        assert(column * samples == 0) by (nonlinear_arith)
            requires
                samples == 0,
        ;
    }
    assert(0 <= (column * samples) / display_width) by (nonlinear_arith)
        requires
            0 <= column * samples,
            0 < display_width,
    ;
}

/// Resamples a history snapshot to `display_width` points, oldest first.
///
/// Unless nothing can be drawn, `history` holds at least the slots in use.
/// `write_cursor` is the slot the producer writes next. The result depends
/// on the arguments alone.
pub fn sample_window<T: Copy>(
    history: &[T],
    logical_size: usize,
    write_cursor: usize,
    sample_rate: u32,
    time_window_ms: u32,
    display_width: usize,
) -> (points: Vec<T>)
    requires
        is_degenerate(logical_size as int, display_width as int) || logical_size <= history@.len(),
    ensures
        is_window_of(
            points@,
            history@,
            logical_size as int,
            write_cursor as int,
            sample_rate as int,
            time_window_ms as int,
            display_width as int,
        ),
        display_width == 0 ==> points@.len() == 0,
        logical_size <= 1 ==> points@.len() == 0,
{
    let mut points: Vec<T> = Vec::new();
    if logical_size <= 1 || display_width == 0 {
        return points;
    }
    let samples: usize = samples_to_display(logical_size, sample_rate, time_window_ms);
    let mut column: usize = 0;
    while column < display_width
        invariant
            column <= display_width,
            1 < logical_size <= history@.len(),
            samples == window_samples(
                logical_size as int,
                sample_rate as int,
                time_window_ms as int,
            ),
            points@.len() == column,
            forall|done: int|
                0 <= done < column ==> #[trigger] points@[done] == history@[source_slot(
                    write_cursor as int,
                    done,
                    samples as int,
                    display_width as int,
                    logical_size as int,
                )],
        decreases display_width - column,
    {
        let index: usize = source_index(
            write_cursor,
            column,
            samples,
            display_width,
            logical_size,
        );
        points.push(history[index]);
        column = column + 1;
    }
    points
}

/// Sampling is repeatable: two results for the same snapshot and the same
/// arguments are the same sequence.
pub proof fn lemma_sampling_is_repeatable<T>(
    first: Seq<T>,
    second: Seq<T>,
    history: Seq<T>,
    logical_size: int,
    write_cursor: int,
    sample_rate: int,
    time_window_ms: int,
    display_width: int,
)
    requires
        is_window_of(
            first,
            history,
            logical_size,
            write_cursor,
            sample_rate,
            time_window_ms,
            display_width,
        ),
        is_window_of(
            second,
            history,
            logical_size,
            write_cursor,
            sample_rate,
            time_window_ms,
            display_width,
        ),
    ensures
        first == second,
{
    assert(first =~= second);
}

/// The window never asks for more history than exists, and every column
/// reads a slot that is in use.
pub proof fn lemma_window_stays_in_history(
    logical_size: int,
    write_cursor: int,
    sample_rate: int,
    time_window_ms: int,
    display_width: int,
    column: int,
)
    requires
        0 < logical_size,
        0 <= write_cursor,
        0 <= sample_rate,
        0 <= time_window_ms,
        0 <= column < display_width,
    ensures
        0 <= window_samples(logical_size, sample_rate, time_window_ms) <= logical_size,
        0 <= source_slot(
            write_cursor,
            column,
            window_samples(logical_size, sample_rate, time_window_ms),
            display_width,
            logical_size,
        ) < logical_size,
{
    let samples = window_samples(logical_size, sample_rate, time_window_ms);
    assert(0 <= sample_rate * time_window_ms) by (nonlinear_arith)
        requires
            0 <= sample_rate,
            0 <= time_window_ms,
    ;
    lemma_offset_in_window(column, samples, display_width);
    lemma_mod_bound(write_cursor + (column * samples) / display_width, logical_size);
}

} // verus!
