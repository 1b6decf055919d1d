use scope::history::{SampleHistory, MAX_SAMPLE_RATE};
use scope::sampler::{sample_window, samples_to_display, source_index};

#[test]
fn samples_to_display_follows_the_time_window() {
    assert_eq!(samples_to_display(4_410, 44_100, 10), 441);
    assert_eq!(samples_to_display(4_410, 44_100, 1), 44);
    assert_eq!(samples_to_display(4_800, 48_000, 50), 2_400);
    assert_eq!(samples_to_display(4_410, 44_100, 0), 0);
    assert_eq!(samples_to_display(4_410, 0, 100), 0);
}

#[test]
fn samples_to_display_rounds_to_nearest() {
    assert_eq!(samples_to_display(1_000, 1_499, 1), 1);
    assert_eq!(samples_to_display(1_000, 1_500, 1), 2);
    assert_eq!(samples_to_display(1_000, 499, 1), 0);
    assert_eq!(samples_to_display(1_000, 500, 1), 1);
    assert_eq!(samples_to_display(19_200, 11_025, 3), 33);
}

#[test]
fn samples_to_display_is_clamped_to_the_logical_size() {
    assert_eq!(samples_to_display(4_410, 44_100, 100), 4_410);
    assert_eq!(samples_to_display(4_410, 44_100, 1_000), 4_410);
    assert_eq!(samples_to_display(4_410, u32::MAX, u32::MAX), 4_410);
    assert_eq!(samples_to_display(0, 44_100, 10), 0);
    assert_eq!(samples_to_display(1, 192_000, 100), 1);
    for window in [1u32, 7, 99, 100, 101, 5_000, u32::MAX] {
        for rate in [1u32, 8_000, 44_100, 192_000, u32::MAX] {
            assert!(samples_to_display(4_410, rate, window) <= 4_410);
        }
    }
}

#[test]
fn source_index_walks_forward_from_the_cursor() {
    assert_eq!(source_index(0, 0, 8, 4, 8), 0);
    assert_eq!(source_index(0, 1, 8, 4, 8), 2);
    assert_eq!(source_index(0, 3, 8, 4, 8), 6);
    assert_eq!(source_index(5, 0, 8, 4, 8), 5);
    assert_eq!(source_index(5, 2, 8, 4, 8), 1);
    assert_eq!(source_index(5, 3, 8, 4, 8), 3);
    assert_eq!(source_index(7, 9, 3, 10, 8), 1);
}

#[test]
fn source_index_stays_in_the_part_in_use() {
    for cursor in [0usize, 1, 6, 7, 8, 100, usize::MAX] {
        for column in 0..10usize {
            assert!(source_index(cursor, column, 7, 10, 7) < 7);
        }
    }
    assert_eq!(source_index(usize::MAX, 0, 1, 1, usize::MAX), 0);
    assert_eq!(
        source_index(usize::MAX - 1, usize::MAX - 1, usize::MAX, usize::MAX, usize::MAX),
        usize::MAX - 2
    );
}

#[test]
fn window_decimates_when_it_holds_more_samples_than_columns() {
    let history: Vec<u32> = (0..10).collect();
    let points = sample_window(&history, 10, 0, 1_000, 10, 5);
    assert_eq!(points, vec![0, 2, 4, 6, 8]);
    let points = sample_window(&history, 10, 4, 1_000, 10, 5);
    assert_eq!(points, vec![4, 6, 8, 0, 2]);
}

#[test]
fn window_repeats_samples_when_it_holds_fewer_than_columns() {
    let history: Vec<u32> = (100..110).collect();
    let points = sample_window(&history, 10, 7, 1_000, 3, 6);
    assert_eq!(points, vec![107, 107, 108, 108, 109, 109]);
}

#[test]
fn window_ignores_slots_that_are_not_in_use() {
    let history: Vec<i32> = vec![1, 2, 3, 4, -1, -1, -1, -1];
    let points = sample_window(&history, 4, 2, 1_000, 100, 8);
    assert_eq!(points, vec![3, 3, 4, 4, 1, 1, 2, 2]);
    assert!(points.iter().all(|p| *p > 0));
}

#[test]
fn window_is_empty_for_zero_width() {
    let history: Vec<f32> = vec![0.5; 100];
    assert!(sample_window(&history, 100, 0, 44_100, 10, 0).is_empty());
    assert!(sample_window(&history, 100, 99, 0, 0, 0).is_empty());
    assert!(sample_window(&history, 0, 0, u32::MAX, u32::MAX, 0).is_empty());
    assert!(sample_window(&history, 1, 12_345, 1, 1, 0).is_empty());
}

#[test]
fn window_is_empty_when_fewer_than_two_slots_are_in_use() {
    let history: Vec<f32> = vec![0.5; 100];
    assert!(sample_window(&history, 0, 0, 44_100, 10, 600).is_empty());
    assert!(sample_window(&history, 1, 0, 44_100, 10, 600).is_empty());
    assert_eq!(sample_window(&history, 2, 0, 44_100, 10, 600).len(), 600);
}

#[test]
fn window_of_zero_length_repeats_the_oldest_sample() {
    let history: Vec<u32> = (0..10).collect();
    let points = sample_window(&history, 10, 3, 0, 50, 4);
    assert_eq!(points, vec![3, 3, 3, 3]);
}

#[test]
fn sampling_twice_gives_the_same_points() {
    let history: Vec<f32> = (0..4_410).map(|i| (i as f32 * 0.01).sin()).collect();
    let first = sample_window(&history, 4_410, 1_234, 44_100, 25, 600);
    let second = sample_window(&history, 4_410, 1_234, 44_100, 25, 600);
    assert_eq!(first.len(), 600);
    assert_eq!(first, second);
}

#[test]
fn full_buffer_of_ones_gives_ten_equal_points() {
    let mut history: SampleHistory<f32> = SampleHistory::new(MAX_SAMPLE_RATE, 0.0);
    assert_eq!(history.configure(44_100), Ok(()));
    assert_eq!(history.logical_size(), 4_410);
    for _ in 0..(4_410 + 100) {
        history.push(1.0);
    }
    assert_eq!(history.write_cursor(), 100);
    assert_eq!(samples_to_display(history.logical_size(), 44_100, 100), 4_410);
    let points = history.window(100, 10);
    assert_eq!(points.len(), 10);
    assert!(points.iter().all(|p| *p == 1.0));
    let center_y = 200.0f32;
    let half_height = 160.0f32;
    let vertical_scale = 1.0f32;
    let ys: Vec<f32> = points.iter().map(|p| center_y - p * half_height * vertical_scale).collect();
    assert!(ys.iter().all(|y| *y == ys[0]));
    assert_eq!(ys[0], 40.0);
}

#[test]
fn history_window_matches_the_free_function() {
    let mut history: SampleHistory<u32> = SampleHistory::new(1_000, 0);
    assert_eq!(history.configure(1_000), Ok(()));
    for k in 0..250u32 {
        history.push(k);
    }
    let from_method = history.window(40, 16);
    let from_function = sample_window(
        history.slots(),
        history.logical_size(),
        history.write_cursor(),
        history.sample_rate(),
        40,
        16,
    );
    assert_eq!(from_method, from_function);
    assert_eq!(from_method.len(), 16);
    assert_eq!(from_method[0], 150);
    assert_eq!(from_method[15], 187);
}

#[test]
fn window_of_zero_width_is_empty_whatever_the_snapshot() {
    let none: Vec<f32> = Vec::new();
    assert!(sample_window(&none, 4_410, 17, 44_100, 10, 0).is_empty());
    assert!(sample_window(&none, usize::MAX, usize::MAX, u32::MAX, u32::MAX, 0).is_empty());
    assert!(sample_window(&none, 1, 0, 44_100, 10, 600).is_empty());
}
