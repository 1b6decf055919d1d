//! Mapping from pointer drags to clamped parameter values.
//!
//! A gesture starts when the primary button is pressed inside the controlled
//! region. The pointer position and the values of the bound parameters are
//! captured at that instant, and every later tick of the same gesture is
//! measured against that capture, not against the previous tick. Releasing
//! the button or leaving the region ends the gesture.
//!
//! Parameter values are whole numbers of parameter steps. Coordinates are
//! whole numbers of one screen unit, with y growing downwards.

use vstd::arithmetic::div_mod::{lemma_div_is_ordered, lemma_div_multiples_vanish, lemma_div_pos_is_pos};
use vstd::arithmetic::mul::{lemma_mul_inequality, lemma_mul_nonnegative};
use vstd::prelude::*;

verus! {

/// `value` limited to the range from `min` to `max`.
pub open spec fn clamp_to(value: int, min: int, max: int) -> int {
    if value < min {
        min
    } else if value > max {
        max
    } else {
        value
    }
}

/// Mathematical model of an axis binding.
pub struct AxisModel {
    /// Lowest value of the parameter.
    pub min: int,
    /// Highest value of the parameter.
    pub max: int,
    /// Sensitivity as a fraction: numerator.
    pub sensitivity_num: int,
    /// Sensitivity as a fraction: denominator.
    pub sensitivity_den: int,
}

impl AxisModel {
    /// A usable binding: a range of machine-sized values that is not
    /// reversed, and a sensitivity whose denominator is not zero.
    pub open spec fn wf(self) -> bool {
        &&& 0 <= self.min <= self.max <= u32::MAX
        &&& 0 <= self.sensitivity_num
        &&& 0 < self.sensitivity_den
    }

    /// How far the value moves, in steps, when the pointer has travelled
    /// `travel` units over a region that is `extent` units long: the travel
    /// as a share of the extent, times the span of the range, times the
    /// sensitivity. The size of the move is rounded to the nearest whole
    /// step, a half step counting as a whole one.
    pub open spec fn shift(self, travel: int, extent: int) -> int {
        let size = if travel >= 0 {
            travel
        } else {
            -travel
        };
        let reach = size * (self.max - self.min) * self.sensitivity_num;
        let scale = extent * self.sensitivity_den;
        let steps = (2 * reach + scale) / (2 * scale);
        if travel >= 0 {
            steps
        } else {
            -steps
        }
    }

    /// The value published for a gesture that started at `start` and has
    /// travelled `travel` units in the raising direction.
    pub open spec fn dragged(self, start: int, travel: int, extent: int) -> int {
        clamp_to(start + self.shift(travel, extent), self.min, self.max)
    }
}

/// Binding of one drag direction to one parameter: the parameter's range and
/// the sensitivity of the drag.
#[derive(Clone, Copy, Debug)]
pub struct Axis {
    min: u32,
    max: u32,
    sensitivity_num: u32,
    sensitivity_den: u32,
}

impl View for Axis {
    type V = AxisModel;

    closed spec fn view(&self) -> AxisModel {
        AxisModel {
            min: self.min as int,
            max: self.max as int,
            sensitivity_num: self.sensitivity_num as int,
            sensitivity_den: self.sensitivity_den as int,
        }
    }
}

impl Axis {
    /// Well-formedness of the value; `new` establishes it.
    pub open spec fn wf(&self) -> bool {
        self@.wf()
    }

    /// Binds a parameter with values from `min` to `max` at a sensitivity of
    /// `sensitivity_num / sensitivity_den`. A reversed range or a zero
    /// denominator gives `None`.
    pub fn new(min: u32, max: u32, sensitivity_num: u32, sensitivity_den: u32) -> (axis: Option<
        Axis,
    >)
        ensures
            axis.is_some() <==> min <= max && sensitivity_den > 0,
            axis.is_some() ==> axis.unwrap().wf() && axis.unwrap()@ == (AxisModel {
                min: min as int,
                max: max as int,
                sensitivity_num: sensitivity_num as int,
                sensitivity_den: sensitivity_den as int,
            }),
    {
        if min <= max && sensitivity_den > 0 {
            Some(Axis { min, max, sensitivity_num, sensitivity_den })
        } else {
            None
        }
    }

    /// Lowest value of the bound parameter.
    pub fn min(&self) -> (value: u32)
        ensures
            value == self@.min,
    {
        self.min
    }

    /// Highest value of the bound parameter.
    pub fn max(&self) -> (value: u32)
        ensures
            value == self@.max,
    {
        self.max
    }

    /// `value` limited to the range of the parameter.
    pub fn clamp(&self, value: u32) -> (clamped: u32)
        requires
            self.wf(),
        ensures
            clamped == clamp_to(value as int, self@.min, self@.max),
    {
        if value < self.min {
            self.min
        } else if value > self.max {
            self.max
        } else {
            value
        }
    }

    /// Value to publish for a gesture that started at `start` and has
    /// travelled `travel` units in the raising direction, over a region
    /// `extent` units long. A region without extent gives `None`: there is
    /// nothing to measure the travel against.
    pub fn drag_to_value(&self, start: u32, travel: i64, extent: u32) -> (value: Option<u32>)
        requires
            self.wf(),
        ensures
            extent == 0 ==> value.is_none(),
            extent > 0 ==> value.is_some() && value.unwrap() == self@.dragged(
                start as int,
                travel as int,
                extent as int,
            ),
    {
        if extent == 0 {
            return None;
        }
        let size: u128 = if travel >= 0 {
            travel as u128
        } else {
            (-(travel as i128)) as u128
        };
        let span: u128 = (self.max - self.min) as u128;
        let gain: u128 = self.sensitivity_num as u128;
        assert(0 < extent * self.sensitivity_den <= 0xffff_ffff * 0xffff_ffff) by (nonlinear_arith)
            requires
                0 < extent <= 0xffff_ffff,
                0 < self.sensitivity_den <= 0xffff_ffff,
        ;
        let scale: u128 = (extent as u128) * (self.sensitivity_den as u128);
        assert(size * span <= 0x8000_0000_0000_0000 * 0xffff_ffff) by (nonlinear_arith)
            requires
                0 <= size <= 0x8000_0000_0000_0000,
                0 <= span <= 0xffff_ffff,
        ;
        assert(size * span * gain <= 0x8000_0000_0000_0000 * 0xffff_ffff * 0xffff_ffff)
            by (nonlinear_arith)
            requires
                0 <= size * span <= 0x8000_0000_0000_0000 * 0xffff_ffff,
                0 <= gain <= 0xffff_ffff,
        ;
        let reach: u128 = size * span * gain;
        let steps: u128 = (2 * reach + scale) / (2 * scale);
        assert(steps <= 2 * reach + scale) by (nonlinear_arith)
            requires
                steps == (2 * reach + scale) / (2 * scale),
                0 < scale,
                0 <= reach,
        ;
        let value: u32 = if travel >= 0 {
            let raised: u128 = start as u128 + steps;
            if raised > self.max as u128 {
                self.max
            } else if raised < self.min as u128 {
                self.min
            } else {
                raised as u32
            }
        } else if steps > start as u128 {
            self.min
        } else {
            let lowered: u128 = start as u128 - steps;
            if lowered > self.max as u128 {
                self.max
            } else if lowered < self.min as u128 {
                self.min
            } else {
                lowered as u32
            }
        };
        Some(value)
    }
}

/// The size of a shift is never negative, and it grows with the travel.
proof fn lemma_shift_is_ordered(axis: AxisModel, nearer: int, farther: int, extent: int)
    requires
        axis.wf(),
        extent > 0,
        nearer <= farther,
    ensures
        axis.shift(nearer, extent) <= axis.shift(farther, extent),
        nearer >= 0 ==> axis.shift(nearer, extent) >= 0,
        farther <= 0 ==> axis.shift(farther, extent) <= 0,
        nearer == 0 ==> axis.shift(nearer, extent) == 0,
        farther == 0 ==> axis.shift(farther, extent) == 0,
{
    let gain = (axis.max - axis.min) * axis.sensitivity_num;
    let scale = extent * axis.sensitivity_den;
    let near_size = if nearer >= 0 { nearer } else { -nearer };
    let far_size = if farther >= 0 { farther } else { -farther };
    lemma_mul_nonnegative(axis.max - axis.min, axis.sensitivity_num);
    assert(scale > 0) by (nonlinear_arith)
        requires
            scale == extent * axis.sensitivity_den,
            extent > 0,
            axis.sensitivity_den > 0,
    ;
    let near_reach = near_size * (axis.max - axis.min) * axis.sensitivity_num;
    let far_reach = far_size * (axis.max - axis.min) * axis.sensitivity_num;
    assert(near_reach == near_size * gain) by (nonlinear_arith)
        requires
            near_reach == near_size * (axis.max - axis.min) * axis.sensitivity_num,
            gain == (axis.max - axis.min) * axis.sensitivity_num,
    ;
    assert(far_reach == far_size * gain) by (nonlinear_arith)
        requires
            far_reach == far_size * (axis.max - axis.min) * axis.sensitivity_num,
            gain == (axis.max - axis.min) * axis.sensitivity_num,
    ;
    lemma_mul_nonnegative(near_size, gain);
    lemma_mul_nonnegative(far_size, gain);
    lemma_div_pos_is_pos(2 * near_reach + scale, 2 * scale);
    lemma_div_pos_is_pos(2 * far_reach + scale, 2 * scale);
    if nearer == 0 || farther == 0 {
        assert(0 * gain == 0) by (nonlinear_arith);
        assert(scale / (2 * scale) == 0) by (nonlinear_arith)
            requires
                scale > 0,
        ;
    }
    if nearer >= 0 {
        lemma_mul_inequality(near_size, far_size, gain);
        lemma_div_is_ordered(2 * near_reach + scale, 2 * far_reach + scale, 2 * scale);
    } else if farther < 0 {
        lemma_mul_inequality(far_size, near_size, gain);
        lemma_div_is_ordered(2 * far_reach + scale, 2 * near_reach + scale, 2 * scale);
    }
}

/// Whatever the gesture, the published value lies in the parameter's range.
pub proof fn lemma_dragged_stays_in_range(axis: AxisModel, start: int, travel: int, extent: int)
    requires
        axis.wf(),
    ensures
        axis.min <= axis.dragged(start, travel, extent) <= axis.max,
{
}

/// Dragging to or past an end of the range publishes exactly that end: where
/// the exact result, before rounding, would reach `max` or more the value is
/// `max`, and where it would reach `min` or less the value is `min`.
pub proof fn lemma_drag_pins_at_range_ends(axis: AxisModel, start: int, travel: int, extent: int)
    requires
        axis.wf(),
        extent > 0,
    ensures
        travel >= 0 && travel * (axis.max - axis.min) * axis.sensitivity_num >= (axis.max - start)
            * (extent * axis.sensitivity_den) ==> axis.dragged(start, travel, extent) == axis.max,
        travel <= 0 && (-travel) * (axis.max - axis.min) * axis.sensitivity_num >= (start
            - axis.min) * (extent * axis.sensitivity_den) ==> axis.dragged(start, travel, extent)
            == axis.min,
{
    let scale = extent * axis.sensitivity_den;
    assert(scale > 0) by (nonlinear_arith)
        requires
            scale == extent * axis.sensitivity_den,
            extent > 0,
            axis.sensitivity_den > 0,
    ;
    lemma_shift_is_ordered(axis, travel, travel, extent);
    if travel >= 0 {
        let reach = travel * (axis.max - axis.min) * axis.sensitivity_num;
        let needed = axis.max - start;
        if reach >= needed * scale {
            assert((2 * scale) * needed == 2 * (needed * scale)) by (nonlinear_arith);
            lemma_div_is_ordered((2 * scale) * needed, 2 * reach + scale, 2 * scale);
            lemma_div_multiples_vanish(needed, 2 * scale);
        }
    }
    if travel <= 0 {
        let reach = (-travel) * (axis.max - axis.min) * axis.sensitivity_num;
        let needed = start - axis.min;
        if reach >= needed * scale {
            assert((2 * scale) * needed == 2 * (needed * scale)) by (nonlinear_arith);
            lemma_div_is_ordered((2 * scale) * needed, 2 * reach + scale, 2 * scale);
            lemma_div_multiples_vanish(needed, 2 * scale);
        }
    }
}

/// More travel in the raising direction never publishes a lower value.
pub proof fn lemma_dragged_is_monotone(
    axis: AxisModel,
    start: int,
    nearer: int,
    farther: int,
    extent: int,
)
    requires
        axis.wf(),
        extent > 0,
        nearer <= farther,
    ensures
        axis.dragged(start, nearer, extent) <= axis.dragged(start, farther, extent),
{
    lemma_shift_is_ordered(axis, nearer, farther, extent);
}

/// Travel in the raising direction never publishes less than a gesture that
/// has not moved, and travel in the lowering direction never more. A gesture
/// that has not moved publishes the value it started at, limited to the
/// range.
pub proof fn lemma_travel_direction_is_kept(axis: AxisModel, start: int, travel: int, extent: int)
    requires
        axis.wf(),
        extent > 0,
    ensures
        axis.dragged(start, 0, extent) == clamp_to(start, axis.min, axis.max),
        travel >= 0 ==> axis.dragged(start, travel, extent) >= axis.dragged(start, 0, extent),
        travel <= 0 ==> axis.dragged(start, travel, extent) <= axis.dragged(start, 0, extent),
{
    lemma_shift_is_ordered(axis, 0, 0, extent);
    if travel >= 0 {
        lemma_shift_is_ordered(axis, 0, travel, extent);
    } else {
        lemma_shift_is_ordered(axis, travel, 0, extent);
    }
}

/// The controlled region of the screen, edges included.
#[derive(Clone, Copy, Debug, PartialEq, Eq)]
pub struct Region {
    pub left: i32,
    pub top: i32,
    pub width: u32,
    pub height: u32,
}

impl Region {
    /// Whether the point `(x, y)` lies in the region or on its edge.
    pub open spec fn holds(self, x: int, y: int) -> bool {
        &&& self.left <= x <= self.left + self.width
        &&& self.top <= y <= self.top + self.height
    }

    /// Executable form of `holds`.
    pub fn contains(&self, x: i32, y: i32) -> (inside: bool)
        ensures
            inside == self.holds(x as int, y as int),
    {
        let right: i64 = self.left as i64 + self.width as i64;
        let bottom: i64 = self.top as i64 + self.height as i64;
        self.left <= x && x as i64 <= right && self.top <= y && y as i64 <= bottom
    }
}

/// What the input layer reports in one tick.
#[derive(Clone, Copy, Debug)]
pub struct PointerTick {
    /// Where the pointer is, if it is over the window at all.
    pub position: Option<(i32, i32)>,
    /// The primary button is held.
    pub primary_down: bool,
    /// The primary button went down in this tick.
    pub primary_pressed: bool,
}

/// State of one gesture.
#[derive(Clone, Copy, Debug, PartialEq, Eq)]
pub enum DragSession {
    /// No gesture is under way.
    Idle,
    /// A gesture is under way; the fields are what was captured at its start.
    Active { start_x: i32, start_y: i32, start_horizontal: u32, start_vertical: u32 },
}

/// Values to publish after a tick, one per axis; `None` where an axis has
/// nothing to publish.
#[derive(Clone, Copy, Debug, PartialEq, Eq)]
pub struct DragUpdate {
    pub horizontal: Option<u32>,
    pub vertical: Option<u32>,
}

/// The update that publishes nothing.
pub open spec fn no_update() -> DragUpdate {
    DragUpdate { horizontal: None, vertical: None }
}

/// Whether the tick can start or continue a gesture: the button is held and
/// the pointer is inside the region.
pub open spec fn engaged(region: Region, tick: PointerTick) -> bool {
    &&& tick.primary_down
    &&& tick.position.is_some()
    &&& region.holds(tick.position.unwrap().0 as int, tick.position.unwrap().1 as int)
}

/// What one axis publishes for a gesture that started at `start` and has
/// travelled `travel`: nothing where the axis is not bound or the region has
/// no extent along it.
pub open spec fn axis_update(axis: Option<AxisModel>, start: int, travel: int, extent: int)
    -> Option<u32> {
    if axis.is_some() && extent > 0 {
        Some(axis.unwrap().dragged(start, travel, extent) as u32)
    } else {
        None
    }
}

/// Mathematical model of a gesture controller.
pub struct ControllerModel {
    /// Binding of rightward travel, if any.
    pub horizontal: Option<AxisModel>,
    /// Binding of upward travel, if any.
    pub vertical: Option<AxisModel>,
    /// The gesture under way, if any.
    pub session: DragSession,
}

impl ControllerModel {
    /// Every bound axis is usable.
    pub open spec fn wf(self) -> bool {
        &&& self.horizontal.is_some() ==> self.horizontal.unwrap().wf()
        &&& self.vertical.is_some() ==> self.vertical.unwrap().wf()
    }

    /// State after a tick. A tick that is not engaged ends the gesture; a
    /// press starts one, capturing the pointer and the current values, and
    /// replaces a gesture that was under way; any other tick leaves the state
    /// as it is.
    pub open spec fn next_session(
        self,
        region: Region,
        tick: PointerTick,
        current_horizontal: u32,
        current_vertical: u32,
    ) -> DragSession {
        if !engaged(region, tick) {
            DragSession::Idle
        } else if tick.primary_pressed {
            DragSession::Active {
                start_x: tick.position.unwrap().0,
                start_y: tick.position.unwrap().1,
                start_horizontal: current_horizontal,
                start_vertical: current_vertical,
            }
        } else {
            self.session
        }
    }

    /// Values published by a tick. Only a tick that continues a gesture
    /// publishes: rightward travel since the start raises the horizontal
    /// value, upward travel since the start raises the vertical value.
    pub open spec fn update(self, region: Region, tick: PointerTick) -> DragUpdate {
        if engaged(region, tick) && !tick.primary_pressed {
            match self.session {
                DragSession::Idle => no_update(),
                DragSession::Active { start_x, start_y, start_horizontal, start_vertical } => {
                    DragUpdate {
                        horizontal: axis_update(
                            self.horizontal,
                            start_horizontal as int,
                            tick.position.unwrap().0 - start_x,
                            region.width as int,
                        ),
                        vertical: axis_update(
                            self.vertical,
                            start_vertical as int,
                            start_y - tick.position.unwrap().1,
                            region.height as int,
                        ),
                    }
                },
            }
        } else {
            no_update()
        }
    }
}

/// Turns pointer ticks into parameter updates. It owns the state of the
/// gesture under way and nothing else.
#[derive(Clone, Copy, Debug)]
pub struct DragGestureController {
    horizontal: Option<Axis>,
    vertical: Option<Axis>,
    session: DragSession,
}

/// Model of an optional axis binding.
pub open spec fn axis_model(axis: Option<Axis>) -> Option<AxisModel> {
    if axis.is_some() {
        Some(axis.unwrap()@)
    } else {
        None
    }
}

impl View for DragGestureController {
    type V = ControllerModel;

    closed spec fn view(&self) -> ControllerModel {
        ControllerModel {
            horizontal: axis_model(self.horizontal),
            vertical: axis_model(self.vertical),
            session: self.session,
        }
    }
}

/// Executable form of `axis_update`.
fn update_axis(axis: &Option<Axis>, start: u32, travel: i64, extent: u32) -> (value: Option<u32>)
    requires
        axis.is_some() ==> axis.unwrap().wf(),
    ensures
        value == axis_update(axis_model(*axis), start as int, travel as int, extent as int),
{
    match axis {
        Some(bound) => bound.drag_to_value(start, travel, extent),
        None => None,
    }
}

impl DragGestureController {
    /// Well-formedness of the value; `new` establishes it and `handle`
    /// keeps it.
    pub open spec fn wf(&self) -> bool {
        self@.wf()
    }

    /// A controller in the idle state. Rightward travel drives `horizontal`,
    /// upward travel drives `vertical`; either may be left unbound.
    pub fn new(horizontal: Option<Axis>, vertical: Option<Axis>) -> (controller: Self)
        requires
            horizontal.is_some() ==> horizontal.unwrap().wf(),
            vertical.is_some() ==> vertical.unwrap().wf(),
        ensures
            controller.wf(),
            controller@.horizontal == axis_model(horizontal),
            controller@.vertical == axis_model(vertical),
            controller@.session == DragSession::Idle,
    {
        DragGestureController { horizontal, vertical, session: DragSession::Idle }
    }

    /// The gesture under way, if any.
    pub fn session(&self) -> (session: DragSession)
        ensures
            session == self@.session,
    {
        self.session
    }

    /// Takes one tick of pointer input and returns the values to publish.
    ///
    /// `current_horizontal` and `current_vertical` are the values of the two
    /// parameters now; they are captured when the tick starts a gesture.
    pub fn handle(
        &mut self,
        region: &Region,
        tick: &PointerTick,
        current_horizontal: u32,
        current_vertical: u32,
    ) -> (update: DragUpdate)
        requires
            old(self).wf(),
        ensures
            final(self).wf(),
            final(self)@.horizontal == old(self)@.horizontal,
            final(self)@.vertical == old(self)@.vertical,
            final(self)@.session == old(self)@.next_session(
                *region,
                *tick,
                current_horizontal,
                current_vertical,
            ),
            update == old(self)@.update(*region, *tick),
    {
        let nothing = DragUpdate { horizontal: None, vertical: None };
        if !tick.primary_down {
            self.session = DragSession::Idle;
            return nothing;
        }
        match tick.position {
            None => {
                self.session = DragSession::Idle;
                nothing
            },
            Some((x, y)) => {
                if !region.contains(x, y) {
                    self.session = DragSession::Idle;
                    nothing
                } else if tick.primary_pressed {
                    self.session = DragSession::Active {
                        start_x: x,
                        start_y: y,
                        start_horizontal: current_horizontal,
                        start_vertical: current_vertical,
                    };
                    nothing
                } else {
                    match self.session {
                        DragSession::Idle => nothing,
                        DragSession::Active {
                            start_x,
                            start_y,
                            start_horizontal,
                            start_vertical,
                        } => {
                            let rightward: i64 = x as i64 - start_x as i64;
                            let upward: i64 = start_y as i64 - y as i64;
                            DragUpdate {
                                horizontal: update_axis(
                                    &self.horizontal,
                                    start_horizontal,
                                    rightward,
                                    region.width,
                                ),
                                vertical: update_axis(
                                    &self.vertical,
                                    start_vertical,
                                    upward,
                                    region.height,
                                ),
                            }
                        },
                    }
                }
            },
        }
    }
}

/// Something on screen whose parameters can be changed by dragging over it.
///
/// An implementor says which values a gesture starts from and what becomes
/// of the values a gesture publishes; `handle_drag_control` does the rest.
pub trait DragControllable {
    /// The values of the horizontal and the vertical parameter now.
    spec fn start_values(&self) -> (u32, u32);

    /// The part of `update` that is passed on to whoever listens.
    spec fn passed_on(&self, update: DragUpdate) -> DragUpdate;

    /// The values a gesture that starts now is measured from.
    fn initial_drag_position(&self) -> (start: (u32, u32))
        ensures
            start == self.start_values(),
    ;

    /// Takes the values a tick published and returns those to pass on.
    fn on_drag(&self, update: DragUpdate) -> (passed: DragUpdate)
        ensures
            passed == self.passed_on(update),
    ;

    /// Feeds one tick of pointer input to `controller`, with the current
    /// values as the ones a new gesture captures, and returns what is
    /// passed on.
    fn handle_drag_control(
        &self,
        controller: &mut DragGestureController,
        region: &Region,
        tick: &PointerTick,
    ) -> (passed: DragUpdate)
        requires
            old(controller).wf(),
        ensures
            final(controller).wf(),
            final(controller)@.horizontal == old(controller)@.horizontal,
            final(controller)@.vertical == old(controller)@.vertical,
            final(controller)@.session == old(controller)@.next_session(
                *region,
                *tick,
                self.start_values().0,
                self.start_values().1,
            ),
            passed == self.passed_on(old(controller)@.update(*region, *tick)),
    {
        let (horizontal, vertical) = self.initial_drag_position();
        let update = controller.handle(region, tick, horizontal, vertical);
        self.on_drag(update)
    }
}

/// Every value that a tick publishes lies in the range of its axis.
pub proof fn lemma_published_values_in_range(
    controller: ControllerModel,
    region: Region,
    tick: PointerTick,
)
    requires
        controller.wf(),
    ensures
        controller.update(region, tick).horizontal.is_some() ==> controller.horizontal.is_some()
            && controller.horizontal.unwrap().min <= controller.update(
            region,
            tick,
        ).horizontal.unwrap() <= controller.horizontal.unwrap().max,
        controller.update(region, tick).vertical.is_some() ==> controller.vertical.is_some()
            && controller.vertical.unwrap().min <= controller.update(
            region,
            tick,
        ).vertical.unwrap() <= controller.vertical.unwrap().max,
{
}

/// Moving the pointer up (towards smaller y) never lowers the vertical
/// value below the one the gesture started at, and moving it right never
/// lowers the horizontal value; moving down or left never raises them. The
/// value a gesture started at is taken within the range of its axis.
pub proof fn lemma_pointer_direction_is_kept(
    controller: ControllerModel,
    region: Region,
    tick: PointerTick,
)
    requires
        controller.wf(),
        engaged(region, tick),
        !tick.primary_pressed,
        controller.session is Active,
    ensures
        controller.update(region, tick).vertical.is_some() && tick.position.unwrap().1
            <= controller.session->start_y ==> controller.update(region, tick).vertical.unwrap()
            >= clamp_to(
            controller.session->start_vertical as int,
            controller.vertical.unwrap().min,
            controller.vertical.unwrap().max,
        ),
        controller.update(region, tick).vertical.is_some() && tick.position.unwrap().1
            >= controller.session->start_y ==> controller.update(region, tick).vertical.unwrap()
            <= clamp_to(
            controller.session->start_vertical as int,
            controller.vertical.unwrap().min,
            controller.vertical.unwrap().max,
        ),
        controller.update(region, tick).horizontal.is_some() && tick.position.unwrap().0
            >= controller.session->start_x ==> controller.update(region, tick).horizontal.unwrap()
            >= clamp_to(
            controller.session->start_horizontal as int,
            controller.horizontal.unwrap().min,
            controller.horizontal.unwrap().max,
        ),
        controller.update(region, tick).horizontal.is_some() && tick.position.unwrap().0
            <= controller.session->start_x ==> controller.update(region, tick).horizontal.unwrap()
            <= clamp_to(
            controller.session->start_horizontal as int,
            controller.horizontal.unwrap().min,
            controller.horizontal.unwrap().max,
        ),
{
    if controller.vertical.is_some() && region.height > 0 {
        lemma_travel_direction_is_kept(
            controller.vertical.unwrap(),
            controller.session->start_vertical as int,
            controller.session->start_y - tick.position.unwrap().1,
            region.height as int,
        );
    }
    if controller.horizontal.is_some() && region.width > 0 {
        lemma_travel_direction_is_kept(
            controller.horizontal.unwrap(),
            controller.session->start_horizontal as int,
            tick.position.unwrap().0 - controller.session->start_x,
            region.width as int,
        );
    }
}

/// Releasing the button, or the pointer leaving the region, always ends the
/// gesture and publishes nothing, whether or not the pointer has moved.
pub proof fn lemma_release_ends_gesture(
    controller: ControllerModel,
    region: Region,
    tick: PointerTick,
    current_horizontal: u32,
    current_vertical: u32,
)
    requires
        !tick.primary_down || tick.position.is_none() || !region.holds(
            tick.position.unwrap().0 as int,
            tick.position.unwrap().1 as int,
        ),
    ensures
        controller.next_session(region, tick, current_horizontal, current_vertical)
            == DragSession::Idle,
        controller.update(region, tick) == no_update(),
{
}

/// A move that arrives while no gesture is under way changes nothing and
/// publishes nothing.
pub proof fn lemma_move_without_start_is_ignored(
    controller: ControllerModel,
    region: Region,
    tick: PointerTick,
    current_horizontal: u32,
    current_vertical: u32,
)
    requires
        controller.session == DragSession::Idle,
        !tick.primary_pressed,
    ensures
        controller.next_session(region, tick, current_horizontal, current_vertical)
            == DragSession::Idle,
        controller.update(region, tick) == no_update(),
{
}

/// The axes do not interfere: what the horizontal axis publishes depends on
/// its own binding, its own captured start and the travel along x alone, and
/// likewise for the vertical axis.
pub proof fn lemma_axes_are_independent(
    controller: ControllerModel,
    other: ControllerModel,
    region: Region,
    other_region: Region,
    tick: PointerTick,
    other_tick: PointerTick,
)
    requires
        engaged(region, tick) && !tick.primary_pressed,
        engaged(other_region, other_tick) && !other_tick.primary_pressed,
        controller.session is Active,
        other.session is Active,
    ensures
        controller.horizontal == other.horizontal && region.width == other_region.width
            && controller.session->start_horizontal == other.session->start_horizontal
            && tick.position.unwrap().0 - controller.session->start_x
            == other_tick.position.unwrap().0 - other.session->start_x ==> controller.update(
            region,
            tick,
        ).horizontal == other.update(other_region, other_tick).horizontal,
        controller.vertical == other.vertical && region.height == other_region.height
            && controller.session->start_vertical == other.session->start_vertical
            && controller.session->start_y - tick.position.unwrap().1 == other.session->start_y
            - other_tick.position.unwrap().1 ==> controller.update(region, tick).vertical
            == other.update(other_region, other_tick).vertical,
{
}

} // verus!
