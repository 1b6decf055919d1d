//! Core of a real-time signal monitor: a fixed-capacity sample history, the
//! windowed resampling that turns it into one sample per display column, and
//! the mapping from pointer drags to clamped parameter values.
//!
//! - `history`: the circular buffer and what a run of pushes does to it.
//! - `shared`: the same buffer split into a writer and a reader that live on
//!   different threads.
//! - `sampler`: which slot each display column shows.
//! - `drag`: the gesture state machine and the drag-to-value mapping.
//! - `params`: the two display parameters and their ranges.
//! - `oscilloscope`: one frame's view of all of the above.
//!
//! Sample rates are whole Hz, time windows whole milliseconds, parameter
//! values whole parameter steps and screen coordinates whole screen units.
//! Samples are opaque to the library: it stores and selects them and leaves
//! arithmetic on them to its caller.
//!
//! Every function is verified with Verus. Contracts are stated over
//! mathematical models (`Seq`, `int`) and hold for all inputs.

pub mod drag;
pub mod history;
pub mod oscilloscope;
pub mod params;
pub mod sampler;
pub mod shared;
