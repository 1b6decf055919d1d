//! The two display parameters and their ranges.
//!
//! Values are whole numbers of parameter steps: the time base counts
//! milliseconds, the vertical scale counts tenths.

use crate::drag::{clamp_to, Axis, AxisModel, DragUpdate};
use vstd::prelude::*;

verus! {

/// Shortest time base, in milliseconds.
pub const TIMEBASE_MIN: u32 = 1;

/// Longest time base, in milliseconds.
pub const TIMEBASE_MAX: u32 = 100;

/// Time base of a fresh parameter set, in milliseconds.
pub const TIMEBASE_DEFAULT: u32 = 10;

/// Number of vertical-scale steps in a scale of one.
pub const SCALE_STEPS_PER_UNIT: u32 = 10;

/// Smallest vertical scale, in tenths.
pub const SCALE_MIN: u32 = 5;

/// Largest vertical scale, in tenths.
pub const SCALE_MAX: u32 = 100;

/// Vertical scale of a fresh parameter set, in tenths.
pub const SCALE_DEFAULT: u32 = 10;

/// The display parameters: a time base and a vertical scale, each kept
/// inside its range. Neither constrains the other.
#[derive(Clone, Copy, Debug, PartialEq, Eq)]
pub struct PluginParams {
    timebase: u32,
    vertical_scale: u32,
}

/// Mathematical model of the parameters.
pub struct ParamsModel {
    /// Time base in milliseconds.
    pub timebase: int,
    /// Vertical scale in tenths.
    pub vertical_scale: int,
}

impl ParamsModel {
    /// Both values lie in their ranges.
    pub open spec fn wf(self) -> bool {
        &&& TIMEBASE_MIN <= self.timebase <= TIMEBASE_MAX
        &&& SCALE_MIN <= self.vertical_scale <= SCALE_MAX
    }

    /// The parameters after `update` was applied: each published value
    /// replaces its parameter, limited to the parameter's range.
    pub open spec fn applied(self, update: DragUpdate) -> Self {
        ParamsModel {
            timebase: if update.horizontal.is_some() {
                clamp_to(update.horizontal.unwrap() as int, TIMEBASE_MIN as int, TIMEBASE_MAX as int)
            } else {
                self.timebase
            },
            vertical_scale: if update.vertical.is_some() {
                clamp_to(update.vertical.unwrap() as int, SCALE_MIN as int, SCALE_MAX as int)
            } else {
                self.vertical_scale
            },
        }
    }
}

impl View for PluginParams {
    type V = ParamsModel;

    closed spec fn view(&self) -> ParamsModel {
        ParamsModel { timebase: self.timebase as int, vertical_scale: self.vertical_scale as int }
    }
}

/// Binding of the time base: its whole range over the whole extent.
pub open spec fn timebase_axis_model() -> AxisModel {
    AxisModel {
        min: TIMEBASE_MIN as int,
        max: TIMEBASE_MAX as int,
        sensitivity_num: 1,
        sensitivity_den: 1,
    }
}

/// Binding of the vertical scale: its whole range over the whole extent.
pub open spec fn scale_axis_model() -> AxisModel {
    AxisModel {
        min: SCALE_MIN as int,
        max: SCALE_MAX as int,
        sensitivity_num: 1,
        sensitivity_den: 1,
    }
}

/// Axis that drags the time base.
pub fn timebase_axis() -> (axis: Axis)
    ensures
        axis.wf(),
        axis@ == timebase_axis_model(),
{
    Axis::new(TIMEBASE_MIN, TIMEBASE_MAX, 1, 1).unwrap()
}

/// Axis that drags the vertical scale.
pub fn vertical_scale_axis() -> (axis: Axis)
    ensures
        axis.wf(),
        axis@ == scale_axis_model(),
{
    Axis::new(SCALE_MIN, SCALE_MAX, 1, 1).unwrap()
}

impl PluginParams {
    /// Well-formedness of the value: both parameters lie in their ranges.
    pub open spec fn wf(&self) -> bool {
        self@.wf()
    }

    /// The parameters at their defaults.
    pub fn new() -> (params: Self)
        ensures
            params.wf(),
            params@.timebase == TIMEBASE_DEFAULT,
            params@.vertical_scale == SCALE_DEFAULT,
    {
        PluginParams { timebase: TIMEBASE_DEFAULT, vertical_scale: SCALE_DEFAULT }
    }

    /// Time base in milliseconds.
    pub fn timebase(&self) -> (value: u32)
        ensures
            value == self@.timebase,
    {
        self.timebase
    }

    /// Vertical scale in tenths.
    pub fn vertical_scale(&self) -> (value: u32)
        ensures
            value == self@.vertical_scale,
    {
        self.vertical_scale
    }

    /// Sets the time base to `value` milliseconds, limited to its range.
    pub fn set_timebase(&mut self, value: u32)
        requires
            old(self).wf(),
        ensures
            final(self).wf(),
            final(self)@.timebase == clamp_to(
                value as int,
                TIMEBASE_MIN as int,
                TIMEBASE_MAX as int,
            ),
            final(self)@.vertical_scale == old(self)@.vertical_scale,
    {
        self.timebase = timebase_axis().clamp(value);
    }

    /// Sets the vertical scale to `value` tenths, limited to its range.
    pub fn set_vertical_scale(&mut self, value: u32)
        requires
            old(self).wf(),
        ensures
            final(self).wf(),
            final(self)@.vertical_scale == clamp_to(
                value as int,
                SCALE_MIN as int,
                SCALE_MAX as int,
            ),
            final(self)@.timebase == old(self)@.timebase,
    {
        self.vertical_scale = vertical_scale_axis().clamp(value);
    }

    /// Applies what a drag tick published: the horizontal value to the time
    /// base, the vertical value to the scale. An axis that published nothing
    /// leaves its parameter alone.
    pub fn apply(&mut self, update: &DragUpdate)
        requires
            old(self).wf(),
        ensures
            final(self).wf(),
            final(self)@ == old(self)@.applied(*update),
    {
        match update.horizontal {
            Some(value) => self.set_timebase(value),
            None => {},
        }
        match update.vertical {
            Some(value) => self.set_vertical_scale(value),
            None => {},
        }
    }
}

impl Default for PluginParams {
    fn default() -> (params: Self)
        ensures
            params.wf(),
            params@.timebase == TIMEBASE_DEFAULT,
            params@.vertical_scale == SCALE_DEFAULT,
    {
        PluginParams::new()
    }
}

} // verus!
