use scope::drag::{Axis, DragGestureController, DragSession, DragUpdate, PointerTick, Region};

fn axis(min: u32, max: u32) -> Axis {
    Axis::new(min, max, 1, 1).unwrap()
}

fn region() -> Region {
    Region { left: 10, top: 20, width: 200, height: 100 }
}

fn press(x: i32, y: i32) -> PointerTick {
    PointerTick { position: Some((x, y)), primary_down: true, primary_pressed: true }
}

fn hold(x: i32, y: i32) -> PointerTick {
    PointerTick { position: Some((x, y)), primary_down: true, primary_pressed: false }
}

fn hover(x: i32, y: i32) -> PointerTick {
    PointerTick { position: Some((x, y)), primary_down: false, primary_pressed: false }
}

fn nothing() -> DragUpdate {
    DragUpdate { horizontal: None, vertical: None }
}

fn two_axis_controller() -> DragGestureController {
    DragGestureController::new(Some(axis(1, 100)), Some(axis(5, 100)))
}

#[test]
fn axis_rejects_a_reversed_range_and_a_zero_denominator() {
    assert!(Axis::new(1, 100, 1, 1).is_some());
    assert!(Axis::new(7, 7, 0, 1).is_some());
    assert!(Axis::new(100, 1, 1, 1).is_none());
    assert!(Axis::new(1, 100, 1, 0).is_none());
    let bound = Axis::new(5, 100, 3, 2).unwrap();
    assert_eq!(bound.min(), 5);
    assert_eq!(bound.max(), 100);
}

#[test]
fn axis_clamp_limits_to_the_range() {
    let bound = axis(1, 100);
    assert_eq!(bound.clamp(0), 1);
    assert_eq!(bound.clamp(1), 1);
    assert_eq!(bound.clamp(50), 50);
    assert_eq!(bound.clamp(100), 100);
    assert_eq!(bound.clamp(101), 100);
    assert_eq!(bound.clamp(u32::MAX), 100);
}

#[test]
fn drag_far_right_publishes_exactly_the_maximum() {
    let bound = axis(1, 100);
    assert_eq!(bound.drag_to_value(50, 1_000, 990), Some(100));
    assert_eq!(bound.drag_to_value(50, 505, 990), Some(100));
    assert_eq!(bound.drag_to_value(50, i64::MAX, 1), Some(100));
}

#[test]
fn drag_far_left_publishes_exactly_the_minimum() {
    let bound = axis(1, 100);
    assert_eq!(bound.drag_to_value(50, -1_000, 990), Some(1));
    assert_eq!(bound.drag_to_value(50, -490, 990), Some(1));
    assert_eq!(bound.drag_to_value(50, i64::MIN, 1), Some(1));
}

#[test]
fn drag_moves_by_the_share_of_the_extent_times_the_span() {
    let bound = axis(1, 100);
    assert_eq!(bound.drag_to_value(10, 50, 200), Some(35));
    assert_eq!(bound.drag_to_value(50, -50, 200), Some(25));
    assert_eq!(bound.drag_to_value(10, 40, 200), Some(30));
    assert_eq!(bound.drag_to_value(1, 100, 100), Some(100));
    assert_eq!(bound.drag_to_value(100, -100, 100), Some(1));
    assert_eq!(bound.drag_to_value(50, 0, 200), Some(50));
    assert_eq!(bound.drag_to_value(50, 1, 200), Some(50));
    assert_eq!(bound.drag_to_value(50, -1, 200), Some(50));
    assert_eq!(bound.drag_to_value(50, 3, 200), Some(51));
    assert_eq!(bound.drag_to_value(50, -3, 200), Some(49));
}

#[test]
fn drag_rounds_to_the_nearest_step() {
    let bound = axis(0, 100);
    assert_eq!(bound.drag_to_value(50, 49, 10_000), Some(50));
    assert_eq!(bound.drag_to_value(50, 50, 10_000), Some(51));
    assert_eq!(bound.drag_to_value(50, 149, 10_000), Some(51));
    assert_eq!(bound.drag_to_value(50, 150, 10_000), Some(52));
    assert_eq!(bound.drag_to_value(50, -49, 10_000), Some(50));
    assert_eq!(bound.drag_to_value(50, -50, 10_000), Some(49));
    assert_eq!(bound.drag_to_value(50, -149, 10_000), Some(49));
    assert_eq!(bound.drag_to_value(50, -150, 10_000), Some(48));
}

#[test]
fn drag_applies_the_sensitivity() {
    let keen = Axis::new(1, 100, 3, 2).unwrap();
    assert_eq!(keen.drag_to_value(10, 50, 200), Some(47));
    assert_eq!(keen.drag_to_value(60, -50, 200), Some(23));
    let dull = Axis::new(1, 100, 1, 4).unwrap();
    assert_eq!(dull.drag_to_value(10, 50, 200), Some(16));
    let dead = Axis::new(1, 100, 0, 1).unwrap();
    assert_eq!(dead.drag_to_value(10, 1_000_000, 200), Some(10));
}

#[test]
fn drag_from_outside_the_range_is_clamped() {
    let bound = axis(10, 20);
    assert_eq!(bound.drag_to_value(0, 0, 100), Some(10));
    assert_eq!(bound.drag_to_value(500, 0, 100), Some(20));
    assert_eq!(bound.drag_to_value(500, -100, 100), Some(20));
    assert_eq!(bound.drag_to_value(0, -100, 100), Some(10));
    assert_eq!(bound.drag_to_value(u32::MAX, i64::MAX, 1), Some(20));
}

#[test]
fn drag_over_no_extent_publishes_nothing() {
    let bound = axis(1, 100);
    assert_eq!(bound.drag_to_value(50, 10, 0), None);
    assert_eq!(bound.drag_to_value(50, 0, 0), None);
}

#[test]
fn drag_handles_the_widest_inputs() {
    let wide = Axis::new(0, u32::MAX, u32::MAX, 1).unwrap();
    assert_eq!(wide.drag_to_value(0, i64::MAX, 1), Some(u32::MAX));
    assert_eq!(wide.drag_to_value(u32::MAX, i64::MIN, 1), Some(0));
    let fine = Axis::new(0, u32::MAX, 1, u32::MAX).unwrap();
    assert_eq!(fine.drag_to_value(7, 1, u32::MAX), Some(7));
    assert_eq!(fine.drag_to_value(7, u32::MAX as i64, u32::MAX), Some(8));
}

#[test]
fn more_travel_never_publishes_less() {
    let bound = Axis::new(5, 100, 7, 3).unwrap();
    let mut last = 0u32;
    for travel in -300i64..=300 {
        let value = bound.drag_to_value(40, travel, 250).unwrap();
        assert!(value >= last);
        assert!((5..=100).contains(&value));
        last = value;
    }
}

#[test]
fn region_contains_its_edges() {
    let area = region();
    assert!(area.contains(10, 20));
    assert!(area.contains(210, 120));
    assert!(area.contains(100, 50));
    assert!(!area.contains(9, 50));
    assert!(!area.contains(211, 50));
    assert!(!area.contains(100, 19));
    assert!(!area.contains(100, 121));
    let far = Region { left: i32::MAX, top: i32::MIN, width: u32::MAX, height: 0 };
    assert!(far.contains(i32::MAX, i32::MIN));
    assert!(!far.contains(i32::MAX, i32::MIN + 1));
}

#[test]
fn press_inside_starts_a_gesture_and_publishes_nothing() {
    let mut controller = two_axis_controller();
    assert_eq!(controller.session(), DragSession::Idle);
    let update = controller.handle(&region(), &press(110, 70), 10, 12);
    assert_eq!(update, nothing());
    assert_eq!(
        controller.session(),
        DragSession::Active { start_x: 110, start_y: 70, start_horizontal: 10, start_vertical: 12 }
    );
}

#[test]
fn press_outside_starts_nothing() {
    let mut controller = two_axis_controller();
    let update = controller.handle(&region(), &press(5, 70), 10, 12);
    assert_eq!(update, nothing());
    assert_eq!(controller.session(), DragSession::Idle);
}

#[test]
fn held_move_publishes_both_axes_relative_to_the_start() {
    let mut controller = two_axis_controller();
    controller.handle(&region(), &press(110, 70), 10, 10);
    let update = controller.handle(&region(), &hold(160, 70), 99, 99);
    assert_eq!(update, DragUpdate { horizontal: Some(35), vertical: Some(10) });
    let update = controller.handle(&region(), &hold(160, 20), 35, 10);
    assert_eq!(update, DragUpdate { horizontal: Some(35), vertical: Some(58) });
    let update = controller.handle(&region(), &hold(110, 70), 35, 58);
    assert_eq!(update, DragUpdate { horizontal: Some(10), vertical: Some(10) });
    assert_eq!(
        controller.session(),
        DragSession::Active { start_x: 110, start_y: 70, start_horizontal: 10, start_vertical: 10 }
    );
}

#[test]
fn upward_movement_never_lowers_the_vertical_value() {
    let mut controller = two_axis_controller();
    controller.handle(&region(), &press(110, 120), 10, 40);
    let mut last = 40u32;
    for y in (20..=120).rev() {
        let update = controller.handle(&region(), &hold(110, y), 10, last);
        let value = update.vertical.unwrap();
        assert!(value >= 40);
        assert!(value >= last);
        last = value;
    }
    assert_eq!(last, 100);
}

#[test]
fn downward_movement_lowers_the_vertical_value() {
    let mut controller = two_axis_controller();
    controller.handle(&region(), &press(110, 20), 10, 40);
    let update = controller.handle(&region(), &hold(110, 40), 10, 40);
    assert_eq!(update.vertical, Some(21));
    let update = controller.handle(&region(), &hold(110, 120), 10, 40);
    assert_eq!(update.vertical, Some(5));
}

#[test]
fn release_ends_the_gesture_even_without_movement() {
    let mut controller = two_axis_controller();
    controller.handle(&region(), &press(110, 70), 10, 10);
    let update = controller.handle(&region(), &hover(110, 70), 10, 10);
    assert_eq!(update, nothing());
    assert_eq!(controller.session(), DragSession::Idle);
}

#[test]
fn leaving_the_region_ends_the_gesture() {
    let mut controller = two_axis_controller();
    controller.handle(&region(), &press(110, 70), 10, 10);
    let update = controller.handle(&region(), &hold(300, 70), 10, 10);
    assert_eq!(update, nothing());
    assert_eq!(controller.session(), DragSession::Idle);
    let update = controller.handle(&region(), &hold(150, 70), 10, 10);
    assert_eq!(update, nothing());
    assert_eq!(controller.session(), DragSession::Idle);

    controller.handle(&region(), &press(110, 70), 10, 10);
    let gone = PointerTick { position: None, primary_down: true, primary_pressed: false };
    assert_eq!(controller.handle(&region(), &gone, 10, 10), nothing());
    assert_eq!(controller.session(), DragSession::Idle);
}

#[test]
fn move_without_a_start_is_ignored() {
    let mut controller = two_axis_controller();
    let update = controller.handle(&region(), &hold(150, 70), 10, 10);
    assert_eq!(update, nothing());
    assert_eq!(controller.session(), DragSession::Idle);
}

#[test]
fn new_press_replaces_the_gesture_under_way() {
    let mut controller = two_axis_controller();
    controller.handle(&region(), &press(110, 70), 10, 10);
    controller.handle(&region(), &hold(160, 70), 10, 10);
    let update = controller.handle(&region(), &press(60, 30), 35, 10);
    assert_eq!(update, nothing());
    assert_eq!(
        controller.session(),
        DragSession::Active { start_x: 60, start_y: 30, start_horizontal: 35, start_vertical: 10 }
    );
    let update = controller.handle(&region(), &hold(80, 30), 35, 10);
    assert_eq!(update, DragUpdate { horizontal: Some(45), vertical: Some(10) });
}

#[test]
fn single_axis_controller_publishes_one_value() {
    let mut sideways = DragGestureController::new(Some(axis(1, 100)), None);
    sideways.handle(&region(), &press(110, 70), 50, 0);
    let update = sideways.handle(&region(), &hold(190, 20), 50, 0);
    assert_eq!(update, DragUpdate { horizontal: Some(90), vertical: None });

    let mut upright = DragGestureController::new(None, Some(axis(1, 100)));
    upright.handle(&region(), &press(110, 70), 0, 50);
    let update = upright.handle(&region(), &hold(210, 30), 0, 50);
    assert_eq!(update, DragUpdate { horizontal: None, vertical: Some(90) });
}

#[test]
fn axes_do_not_interfere() {
    let mut both = two_axis_controller();
    let mut sideways = DragGestureController::new(Some(axis(1, 100)), None);
    both.handle(&region(), &press(110, 70), 20, 30);
    sideways.handle(&region(), &press(110, 25), 20, 77);
    for (x, y) in [(110, 70), (150, 100), (60, 21), (210, 120), (10, 20)] {
        let full = both.handle(&region(), &hold(x, y), 1, 1);
        let flat = sideways.handle(&region(), &hold(x, 25), 2, 2);
        assert_eq!(full.horizontal, flat.horizontal);
    }
}

#[test]
fn region_without_extent_publishes_nothing_on_that_axis() {
    let line = Region { left: 10, top: 20, width: 200, height: 0 };
    let mut controller = two_axis_controller();
    controller.handle(&line, &press(110, 20), 10, 10);
    let update = controller.handle(&line, &hold(160, 20), 10, 10);
    assert_eq!(update, DragUpdate { horizontal: Some(35), vertical: None });
}
