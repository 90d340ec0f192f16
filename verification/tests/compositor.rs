use dashboard::chart::ChartWindow;
use dashboard::compositor::{
    color_of, label_axis, list_events, name_of, LABEL_WIDTH, VALUE_CEILING, VALUE_FLOOR,
};
use dashboard::events::{Category, EventQueue, EventRecord};
use dashboard::layout::{Area, Regions};
use dashboard::noise::{noise_lines, noise_words, NOISE_LINES};
use dashboard::panels::{Alignment, Color, Corner, ValueRange, VisualTree};
use dashboard::signal::Sample;
use dashboard::state::App;

fn area(x: u16, y: u16, width: u16, height: u16) -> Area {
    Area {
        x,
        y,
        width,
        height,
    }
}

fn regions() -> Regions {
    Regions {
        left: area(0, 0, 40, 24),
        right: area(40, 0, 12, 24),
        chart: area(0, 0, 40, 5),
        noise: area(0, 5, 40, 19),
        events: area(40, 0, 12, 20),
        gauge_frame: area(40, 20, 12, 4),
        gauge_above: area(40, 20, 12, 1),
        gauge_bar: area(40, 21, 12, 2),
        gauge_below: area(40, 23, 12, 1),
    }
}

#[test]
fn categories_have_their_names_and_colours() {
    assert_eq!(name_of(Category::Type1), "TYPE1");
    assert_eq!(name_of(Category::Type2), "TYPE2");
    assert_eq!(name_of(Category::Type3), "TYPE3");
    assert_eq!(name_of(Category::Type4), "TYPE4");
    assert_eq!(color_of(Category::Type1), Color::Red);
    assert_eq!(color_of(Category::Type2), Color::Magenta);
    assert_eq!(color_of(Category::Type3), Color::Yellow);
    assert_eq!(color_of(Category::Type4), Color::Blue);
    assert_eq!(LABEL_WIDTH, 9);
}

#[test]
fn axis_labels_name_start_middle_and_end() {
    let labels = label_axis(&ChartWindow {
        start: 0,
        end: 20000,
    });
    assert_eq!(labels, vec!["0", "10", "20"]);
    let labels = label_axis(&ChartWindow {
        start: 28000,
        end: 48000,
    });
    assert_eq!(labels, vec!["28", "38", "48"]);
    let labels = label_axis(&ChartWindow {
        start: 1000,
        end: 2000,
    });
    assert_eq!(labels, vec!["1", "1.5", "2"]);
}

#[test]
fn event_list_shows_the_back_of_the_queue_first() {
    let queue = EventQueue::new(vec![
        EventRecord::new("first", Category::Type1),
        EventRecord::new("second", Category::Type3),
        EventRecord::new("third", Category::Type4),
    ]);
    let entries = list_events(&queue, 4);
    assert_eq!(entries.len(), 3);
    assert_eq!(entries[0].message, "third");
    assert_eq!(entries[0].label, "TYPE4    ");
    assert_eq!(entries[0].color, Color::Blue);
    assert_eq!(entries[1].message, "second");
    assert_eq!(entries[1].label, "TYPE3    ");
    assert_eq!(entries[1].color, Color::Yellow);
    assert_eq!(entries[2].message, "first");
    assert_eq!(entries[2].label, "TYPE1    ");
    assert_eq!(entries[2].color, Color::Red);
    for entry in &entries {
        assert_eq!(entry.rule, "----");
        assert_eq!(entry.timestamp, "2020-01-01 10:00:00");
    }
}

#[test]
fn event_list_of_an_empty_queue_is_empty() {
    let queue = EventQueue::new(vec![]);
    assert_eq!(list_events(&queue, 10), vec![]);
}

#[test]
fn noise_lines_are_the_words_in_binary() {
    let lines = noise_lines(&vec![0, 1, 6, u64::MAX]);
    assert_eq!(lines, vec!["0", "1", "110", &"1".repeat(64)]);
}

#[test]
fn noise_words_come_in_the_number_asked_for() {
    assert_eq!(noise_words(0).len(), 0);
    assert_eq!(noise_words(100).len(), 100);
    assert_eq!(NOISE_LINES, 100);
}

#[test]
fn new_dashboard_composed() {
    let app = App::new();
    let panels = app.compose(&regions(), &vec![5, 0]);
    assert_eq!(panels.chart.area, area(0, 0, 40, 5));
    assert_eq!(
        panels.chart.window,
        ChartWindow {
            start: 0,
            end: 20000
        }
    );
    assert_eq!(panels.chart.labels, vec!["0", "10", "20"]);
    assert_eq!(panels.chart.points.len(), 101);
    assert_eq!(panels.chart.points[0], Sample { time: 0 });
    assert_eq!(panels.chart.points[100], Sample { time: 20000 });
    assert_eq!(panels.noise.area, area(0, 5, 40, 19));
    assert_eq!(panels.noise.lines, vec!["101", "0"]);
    assert_eq!(panels.noise.scroll, 0);
    assert_eq!(panels.events.area, area(40, 0, 12, 20));
    assert_eq!(panels.events.entries.len(), 26);
    assert_eq!(panels.events.entries[0].message, "Message26");
    assert_eq!(panels.events.entries[0].color, Color::Blue);
    assert_eq!(panels.events.entries[0].rule, "------------");
    assert_eq!(panels.events.entries[2].message, "Message24");
    assert_eq!(panels.events.entries[2].label, "TYPE3    ");
    assert_eq!(panels.events.entries[2].color, Color::Yellow);
    assert_eq!(panels.events.entries[25].message, "Message1");
    assert_eq!(panels.gauge.frame, area(40, 20, 12, 4));
    assert_eq!(panels.gauge.bar, area(40, 21, 12, 2));
    assert_eq!(panels.gauge.percent, 0);
}

#[test]
fn fixed_parts_of_the_panels() {
    let app = App::new();
    let panels = app.compose(&regions(), &vec![]);
    assert_eq!(
        panels.chart.values,
        ValueRange {
            low: -20000,
            high: 20000
        }
    );
    assert_eq!(VALUE_FLOOR, -20000);
    assert_eq!(VALUE_CEILING, 20000);
    assert_eq!(panels.noise.alignment, Alignment::Center);
    assert!(panels.noise.wrap);
    assert_eq!(panels.events.anchor, Corner::BottomLeft);
    assert_eq!(panels.gauge.title, "Decryption in progress");
}

#[test]
fn composition_follows_the_state() {
    let mut app = App::new();
    for _ in 0..3 {
        app.tick();
    }
    let panels = app.compose(&regions(), &vec![]);
    assert_eq!(panels.chart.labels, vec!["3", "13", "23"]);
    assert_eq!(panels.chart.points.len(), 101);
    assert_eq!(panels.chart.points[0], Sample { time: 3000 });
    assert_eq!(panels.chart.points[100], Sample { time: 23000 });
    assert_eq!(panels.noise.lines.len(), 0);
    assert_eq!(panels.noise.scroll, 3);
    assert_eq!(panels.events.entries[0].message, "Message3");
    assert_eq!(panels.events.entries[25].message, "Message4");
    assert_eq!(panels.gauge.percent, 12);
}

#[test]
fn composition_leaves_the_state_alone() {
    let app = App::new();
    let first = app.compose(&regions(), &vec![1, 2, 3]);
    let second = app.compose(&regions(), &vec![1, 2, 3]);
    assert_eq!(first, second);
    assert_eq!(app.decrypt_progress(), 0);
    assert_eq!(app.data_signal().len(), 2000);
}

#[test]
fn noise_changes_the_noise_lines_only() {
    let app = App::new();
    let first = app.compose(&regions(), &vec![1, 2, 3]);
    let second = app.compose(&regions(), &vec![7, 8]);
    assert_eq!(first.chart, second.chart);
    assert_eq!(first.events, second.events);
    assert_eq!(first.gauge, second.gauge);
    assert_eq!(first.noise.area, second.noise.area);
    assert_eq!(first.noise.scroll, second.noise.scroll);
    assert_ne!(first.noise.lines, second.noise.lines);
}

#[test]
fn viewport_without_cells_gives_the_empty_tree() {
    let app = App::new();
    assert_eq!(app.ui(area(0, 0, 0, 0)), VisualTree::Empty);
    assert_eq!(app.ui(area(0, 0, 80, 0)), VisualTree::Empty);
    assert_eq!(app.ui(area(3, 4, 0, 24)), VisualTree::Empty);
}

#[test]
fn frame_in_a_viewport() {
    let app = App::new();
    let tree = app.ui(area(0, 0, 100, 40));
    let panels = match tree {
        VisualTree::Panels(panels) => panels,
        VisualTree::Empty => panic!("a viewport with cells gives panels"),
    };
    assert_eq!(panels.chart.area, area(0, 0, 50, 8));
    assert_eq!(panels.noise.area, area(0, 8, 50, 32));
    assert_eq!(panels.events.area, area(50, 0, 50, 34));
    assert_eq!(panels.gauge.frame, area(50, 34, 50, 6));
    assert_eq!(panels.gauge.bar.x, 50);
    assert_eq!(panels.gauge.bar.width, 50);
    assert!(panels.gauge.bar.y >= 34);
    assert!(panels.gauge.bar.y + panels.gauge.bar.height <= 40);
    assert_eq!(panels.gauge.percent, 0);
    assert_eq!(panels.chart.labels, vec!["0", "10", "20"]);
    assert_eq!(panels.chart.points.len(), 101);
    assert_eq!(panels.events.entries.len(), 26);
    assert_eq!(panels.events.entries[0].rule, "-".repeat(50));
    assert_eq!(panels.noise.lines.len(), 100);
    for line in &panels.noise.lines {
        assert!(!line.is_empty() && line.len() <= 64);
        assert!(line.chars().all(|c| c == '0' || c == '1'));
        assert!(line == "0" || line.starts_with('1'));
    }
}

#[test]
fn two_frames_of_one_state_differ_in_noise_only() {
    let app = App::new();
    let first = app.ui(area(0, 0, 90, 30));
    let second = app.ui(area(0, 0, 90, 30));
    match (first, second) {
        (VisualTree::Panels(a), VisualTree::Panels(b)) => {
            assert_eq!(a.chart, b.chart);
            assert_eq!(a.events, b.events);
            assert_eq!(a.gauge, b.gauge);
            assert_eq!(a.noise.area, b.noise.area);
            assert_eq!(a.noise.scroll, b.noise.scroll);
        }
        _ => panic!("a viewport with cells gives panels"),
    }
}

#[test]
fn frame_in_a_single_cell() {
    let app = App::new();
    match app.ui(area(0, 0, 1, 1)) {
        VisualTree::Panels(panels) => {
            assert_eq!(panels.gauge.percent, 0);
            assert_eq!(panels.noise.lines.len(), 100);
        }
        VisualTree::Empty => panic!("a viewport with cells gives panels"),
    }
}
