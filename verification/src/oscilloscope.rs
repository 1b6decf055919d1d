//! One frame of the oscilloscope: the parameter values, the history snapshot
//! and the cursor as they were read for this frame.
//!
//! The widget is built anew for every frame. It resamples the snapshot for
//! the width it is given, and it is what a drag gesture controls: a gesture
//! starts from its values, and it decides which published values are passed
//! on.

use crate::drag::{DragControllable, DragUpdate};
use crate::sampler::{is_window_of, sample_window};
use vstd::prelude::*;

verus! {

/// Mathematical model of a widget.
pub struct WidgetModel<T> {
    /// Time base in milliseconds.
    pub timebase: u32,
    /// Vertical scale in tenths.
    pub vertical_scale: u32,
    /// Number of slots of the history that are in use.
    pub buffer_size: nat,
    /// Slot the producer writes next.
    pub write_pos: nat,
    /// Sample rate in Hz.
    pub sample_rate: u32,
    /// The history snapshot.
    pub buffer: Seq<T>,
    /// Changes of the time base are passed on.
    pub publishes_timebase: bool,
    /// Changes of the vertical scale are passed on.
    pub publishes_scale: bool,
}

impl<T> WidgetModel<T> {
    /// The snapshot holds every slot in use.
    pub open spec fn wf(self) -> bool {
        self.buffer_size <= self.buffer.len()
    }

    /// The part of `update` that is passed on: the value of an axis nobody
    /// listens to is dropped.
    pub open spec fn passed_on(self, update: DragUpdate) -> DragUpdate {
        DragUpdate {
            horizontal: if self.publishes_timebase {
                update.horizontal
            } else {
                None
            },
            vertical: if self.publishes_scale {
                update.vertical
            } else {
                None
            },
        }
    }
}

/// The oscilloscope for one frame.
pub struct OscilloscopeWidget<'a, T> {
    timebase: u32,
    vertical_scale: u32,
    current_buffer_size: usize,
    current_write_pos: usize,
    current_sample_rate: u32,
    buffer: &'a [T],
    publishes_timebase: bool,
    publishes_scale: bool,
}

impl<'a, T> View for OscilloscopeWidget<'a, T> {
    type V = WidgetModel<T>;

    closed spec fn view(&self) -> WidgetModel<T> {
        WidgetModel {
            timebase: self.timebase,
            vertical_scale: self.vertical_scale,
            buffer_size: self.current_buffer_size as nat,
            write_pos: self.current_write_pos as nat,
            sample_rate: self.current_sample_rate,
            buffer: self.buffer@,
            publishes_timebase: self.publishes_timebase,
            publishes_scale: self.publishes_scale,
        }
    }
}

impl<'a, T: Copy> OscilloscopeWidget<'a, T> {
    /// Well-formedness of the value; `new` establishes it.
    pub open spec fn wf(&self) -> bool {
        self@.wf()
    }

    /// A widget over the snapshot `buffer`, of which the first
    /// `current_buffer_size` slots are in use. It passes no change on until
    /// a listener is announced.
    pub fn new(
        timebase: u32,
        vertical_scale: u32,
        current_buffer_size: usize,
        current_write_pos: usize,
        current_sample_rate: u32,
        buffer: &'a [T],
    ) -> (widget: Self)
        requires
            current_buffer_size <= buffer@.len(),
        ensures
            widget.wf(),
            widget@ == (WidgetModel {
                timebase,
                vertical_scale,
                buffer_size: current_buffer_size as nat,
                write_pos: current_write_pos as nat,
                sample_rate: current_sample_rate,
                buffer: buffer@,
                publishes_timebase: false,
                publishes_scale: false,
            }),
    {
        OscilloscopeWidget {
            timebase,
            vertical_scale,
            current_buffer_size,
            current_write_pos,
            current_sample_rate,
            buffer,
            publishes_timebase: false,
            publishes_scale: false,
        }
    }

    /// Announces a listener for the time base: from now on the widget passes
    /// on the horizontal value of a drag.
    pub fn on_timebase_change(self) -> (widget: Self)
        ensures
            widget@ == (WidgetModel { publishes_timebase: true, ..self@ }),
    {
        let mut widget = self;
        widget.publishes_timebase = true;
        widget
    }

    /// Announces a listener for the vertical scale: from now on the widget
    /// passes on the vertical value of a drag.
    pub fn on_scale_change(self) -> (widget: Self)
        ensures
            widget@ == (WidgetModel { publishes_scale: true, ..self@ }),
    {
        let mut widget = self;
        widget.publishes_scale = true;
        widget
    }

    /// The samples to draw, one per column of a region `display_width`
    /// columns wide, oldest first. Empty where fewer than two slots are in
    /// use or the region has no width.
    pub fn calculate_points(&self, display_width: usize) -> (points: Vec<T>)
        requires
            self.wf(),
        ensures
            is_window_of(
                points@,
                self@.buffer,
                self@.buffer_size as int,
                self@.write_pos as int,
                self@.sample_rate as int,
                self@.timebase as int,
                display_width as int,
            ),
    {
        sample_window(
            self.buffer,
            self.current_buffer_size,
            self.current_write_pos,
            self.current_sample_rate,
            self.timebase,
            display_width,
        )
    }
}

impl<'a, T: Copy> DragControllable for OscilloscopeWidget<'a, T> {
    /// A gesture starts from the time base and the vertical scale of this
    /// frame.
    open spec fn start_values(&self) -> (u32, u32) {
        (self@.timebase, self@.vertical_scale)
    }

    /// The value of an axis nobody listens to is dropped.
    open spec fn passed_on(&self, update: DragUpdate) -> DragUpdate {
        self@.passed_on(update)
    }

    fn initial_drag_position(&self) -> (start: (u32, u32)) {
        (self.timebase, self.vertical_scale)
    }

    fn on_drag(&self, update: DragUpdate) -> (passed: DragUpdate) {
        DragUpdate {
            horizontal: if self.publishes_timebase {
                update.horizontal
            } else {
                None
            },
            vertical: if self.publishes_scale {
                update.vertical
            } else {
                None
            },
        }
    }
}

} // verus!
