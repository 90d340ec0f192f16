use dashboard::chart::ChartWindow;
use dashboard::events::Category;
use dashboard::signal::Sample;
use dashboard::state::{
    App, INITIAL_SAMPLES, SAMPLES_PER_TICK, SCROLL_PERIOD, SIGNAL_INTERVAL, WINDOW_STEP,
};

fn front_messages(app: &App, count: usize) -> Vec<String> {
    (0..count)
        .map(|i| app.events().get(i).message.clone())
        .collect()
}

#[test]
fn new_dashboard_starts_empty() {
    let app = App::new();
    assert_eq!(app.decrypt_progress(), 0);
    assert_eq!(app.scroll(), 0);
    assert_eq!(
        app.window(),
        ChartWindow {
            start: 0,
            end: 20000
        }
    );
    assert_eq!(app.data_signal().len(), 2000);
    assert_eq!(app.data_signal()[0], Sample { time: 0 });
    assert_eq!(app.data_signal()[1], Sample { time: 200 });
    assert_eq!(app.data_signal()[1999], Sample { time: 399_800 });
    assert_eq!(app.signal().time(), 400_000);
    assert_eq!(app.signal().interval(), 200);
    assert_eq!(app.signal().period(), 3000);
    assert_eq!(app.signal().scale(), 18000);
    assert!(app.ready());
}

#[test]
fn new_dashboard_holds_the_fixed_events() {
    let app = App::new();
    let events = app.events();
    assert_eq!(events.len(), 26);
    let expected = [
        4, 4, 1, 2, 4, 4, 3, 4, 4, 4, 1, 4, 4, 4, 4, 4, 2, 2, 4, 4, 3, 4, 4, 3, 4, 4,
    ];
    for i in 0..26 {
        let record = events.get(i);
        assert_eq!(record.message, format!("Message{}", i + 1));
        let category = match expected[i] {
            1 => Category::Type1,
            2 => Category::Type2,
            3 => Category::Type3,
            _ => Category::Type4,
        };
        assert_eq!(record.category, category);
    }
}

#[test]
fn gauge_gains_four_percent() {
    let mut app = App::new();
    app.update_decrypt_bar();
    assert_eq!(app.decrypt_progress(), 4);
    app.update_decrypt_bar();
    assert_eq!(app.decrypt_progress(), 8);
    assert_eq!(app.scroll(), 0);
    assert_eq!(app.data_signal().len(), 2000);
}

#[test]
fn gauge_stops_at_full() {
    let mut app = App::new();
    let mut last = 0;
    for t in 1..=40u16 {
        app.update_decrypt_bar();
        assert_eq!(app.decrypt_progress(), (4 * t).min(100));
        assert!(app.decrypt_progress() >= last);
        last = app.decrypt_progress();
    }
    assert_eq!(app.decrypt_progress(), 100);
}

#[test]
fn gauge_is_full_at_the_twenty_fifth_update() {
    let mut app = App::new();
    for _ in 0..24 {
        app.update_decrypt_bar();
    }
    assert_eq!(app.decrypt_progress(), 96);
    app.update_decrypt_bar();
    assert_eq!(app.decrypt_progress(), 100);
}

#[test]
fn tick_moves_every_part() {
    let mut app = App::new();
    app.tick();
    assert_eq!(app.decrypt_progress(), 4);
    assert_eq!(app.scroll(), 1);
    assert_eq!(
        app.window(),
        ChartWindow {
            start: 1000,
            end: 21000
        }
    );
    assert_eq!(app.data_signal().len(), 2010);
    assert_eq!(app.data_signal()[2000], Sample { time: 400_000 });
    assert_eq!(app.data_signal()[2009], Sample { time: 401_800 });
    assert_eq!(app.signal().time(), 402_000);
    assert_eq!(
        front_messages(&app, 3),
        vec!["Message2", "Message3", "Message4"]
    );
    assert_eq!(app.events().get(25).message, "Message1");
}

#[test]
fn scroll_returns_after_a_period() {
    let mut app = App::new();
    let mut seen = Vec::new();
    for _ in 0..(3 * SCROLL_PERIOD) {
        seen.push(app.scroll());
        app.tick();
    }
    for t in 0..(2 * SCROLL_PERIOD as usize) {
        assert_eq!(seen[t], (t % 10) as u16);
        assert_eq!(seen[t + SCROLL_PERIOD as usize], seen[t]);
    }
}

#[test]
fn window_slides_and_keeps_its_width() {
    let mut app = App::new();
    let first = app.window();
    for t in 1..=50u64 {
        app.tick();
        assert_eq!(app.window().start, first.start + t * WINDOW_STEP);
        assert_eq!(app.window().end - app.window().start, 20000);
    }
}

#[test]
fn buffer_grows_by_a_batch_each_tick() {
    let mut app = App::new();
    for t in 1..=30usize {
        app.tick();
        assert_eq!(
            app.data_signal().len(),
            INITIAL_SAMPLES + t * SAMPLES_PER_TICK
        );
    }
    let samples = app.data_signal();
    for i in 0..samples.len() {
        assert_eq!(samples[i].time, i as u64 * SIGNAL_INTERVAL);
    }
}

#[test]
fn events_return_after_as_many_ticks_as_records() {
    let mut app = App::new();
    for _ in 0..26 {
        app.tick();
    }
    assert_eq!(
        front_messages(&app, 3),
        vec!["Message1", "Message2", "Message3"]
    );
    assert_eq!(app.events().get(25).message, "Message26");
}

#[test]
fn twenty_eight_ticks_end_to_end() {
    let mut app = App::new();
    for _ in 0..25 {
        app.tick();
    }
    assert_eq!(app.decrypt_progress(), 100);
    for _ in 0..3 {
        app.tick();
    }
    assert_eq!(app.decrypt_progress(), 100);
    assert_eq!(
        front_messages(&app, 26),
        (0..26)
            .map(|i| format!("Message{}", (i + 28 % 26) % 26 + 1))
            .collect::<Vec<String>>()
    );
    assert_eq!(app.events().get(0).message, "Message3");
    assert_eq!(app.data_signal().len(), 2000 + 28 * 10);
    assert_eq!(
        app.window(),
        ChartWindow {
            start: 28000,
            end: 48000
        }
    );
    assert_eq!(app.scroll(), 8);
}
