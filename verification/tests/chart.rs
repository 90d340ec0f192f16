use dashboard::chart::{visible_range, visible_samples, ChartWindow};
use dashboard::signal::Sample;

fn samples(times: &[u64]) -> Vec<Sample> {
    times.iter().map(|t| Sample { time: *t }).collect()
}

#[test]
fn window_bounds_are_inclusive() {
    let buffer = samples(&[0, 200, 400, 600, 800, 1000]);
    let window = ChartWindow {
        start: 200,
        end: 800,
    };
    assert_eq!(visible_range(&buffer, &window), (1, 5));
    assert_eq!(
        visible_samples(&buffer, &window),
        samples(&[200, 400, 600, 800])
    );
}

#[test]
fn window_between_samples_shows_the_inner_ones() {
    let buffer = samples(&[0, 200, 400, 600, 800, 1000]);
    let window = ChartWindow {
        start: 100,
        end: 700,
    };
    assert_eq!(visible_range(&buffer, &window), (1, 4));
}

#[test]
fn window_behind_the_buffer_shows_nothing() {
    let buffer = samples(&[0, 200, 400]);
    let window = ChartWindow {
        start: 1000,
        end: 2000,
    };
    assert_eq!(visible_range(&buffer, &window), (3, 3));
    assert_eq!(visible_samples(&buffer, &window), vec![]);
}

#[test]
fn window_before_the_buffer_shows_nothing() {
    let buffer = samples(&[500, 600]);
    let window = ChartWindow { start: 0, end: 400 };
    assert_eq!(visible_range(&buffer, &window), (0, 0));
}

#[test]
fn window_in_a_gap_shows_nothing() {
    let buffer = samples(&[0, 1000]);
    let window = ChartWindow {
        start: 300,
        end: 700,
    };
    assert_eq!(visible_range(&buffer, &window), (1, 1));
}

#[test]
fn inverted_window_shows_nothing() {
    let buffer = samples(&[0, 200, 400]);
    let window = ChartWindow {
        start: 300,
        end: 100,
    };
    assert_eq!(visible_range(&buffer, &window), (2, 2));
    assert_eq!(visible_samples(&buffer, &window), vec![]);
}

#[test]
fn empty_buffer_shows_nothing() {
    let window = ChartWindow { start: 0, end: 10 };
    assert_eq!(visible_range(&vec![], &window), (0, 0));
}

#[test]
fn equal_times_are_all_shown() {
    let buffer = samples(&[1, 5, 5, 5, 9]);
    let window = ChartWindow { start: 5, end: 5 };
    assert_eq!(visible_range(&buffer, &window), (1, 4));
}

#[test]
fn midpoint_rounds_down() {
    assert_eq!(
        ChartWindow {
            start: 0,
            end: 20000
        }
        .midpoint(),
        10000
    );
    assert_eq!(ChartWindow { start: 1, end: 4 }.midpoint(), 2);
    assert_eq!(ChartWindow { start: 9, end: 2 }.midpoint(), 5);
    assert_eq!(
        ChartWindow {
            start: u64::MAX - 2,
            end: u64::MAX
        }
        .midpoint(),
        u64::MAX - 1
    );
}

#[test]
fn shifting_keeps_the_width() {
    let window = ChartWindow {
        start: 3000,
        end: 23000,
    };
    let moved = window.shifted(1000);
    assert_eq!(
        moved,
        ChartWindow {
            start: 4000,
            end: 24000
        }
    );
    assert_eq!(moved.end - moved.start, window.end - window.start);
}
