//! The state of the dashboard and its transition from one frame to the next.

use crate::chart::{ascending, ChartWindow, WindowModel};
use crate::events::{rotated, Category, EventModel, EventQueue, EventRecord};
use crate::signal::{lemma_samples_join, samples_from, Sample, SignalModel, SinSignal};
use vstd::prelude::*;

verus! {

/// What the decryption gauge gains with each tick, in percent.
pub const DECRYPT_STEP: u16 = 4;

/// The gauge is full at this value and stays there.
pub const DECRYPT_FULL: u16 = 100;

/// The scroll offset of the noise text runs from 0 to one below this value
/// and then starts again.
pub const SCROLL_PERIOD: u16 = 10;

/// The number of samples that a tick adds to the buffer.
pub const SAMPLES_PER_TICK: usize = 10;

/// The number of samples in the buffer of a new dashboard.
pub const INITIAL_SAMPLES: usize = 2000;

/// How far a tick moves the chart's window, in thousandths.
pub const WINDOW_STEP: u64 = 1000;

/// The end of the chart's window in a new dashboard, in thousandths; the
/// window starts at 0.
pub const WINDOW_WIDTH: u64 = 20000;

/// The time between two samples of the dashboard's signal, in thousandths.
pub const SIGNAL_INTERVAL: u64 = 200;

/// The period parameter of the dashboard's signal, in thousandths.
pub const SIGNAL_PERIOD: u64 = 3000;

/// The amplitude of the dashboard's signal, in thousandths.
pub const SIGNAL_SCALE: u64 = 18000;

/// An event with the given message and category.
pub open spec fn event(message: Seq<char>, category: Category) -> EventModel {
    EventModel { message, category }
}

/// The events of a new dashboard, front first.
pub open spec fn initial_events() -> Seq<EventModel> {
    seq![
        event("Message1"@, Category::Type4),
        event("Message2"@, Category::Type4),
        event("Message3"@, Category::Type1),
        event("Message4"@, Category::Type2),
        event("Message5"@, Category::Type4),
        event("Message6"@, Category::Type4),
        event("Message7"@, Category::Type3),
        event("Message8"@, Category::Type4),
        event("Message9"@, Category::Type4),
        event("Message10"@, Category::Type4),
        event("Message11"@, Category::Type1),
        event("Message12"@, Category::Type4),
        event("Message13"@, Category::Type4),
        event("Message14"@, Category::Type4),
        event("Message15"@, Category::Type4),
        event("Message16"@, Category::Type4),
        event("Message17"@, Category::Type2),
        event("Message18"@, Category::Type2),
        event("Message19"@, Category::Type4),
        event("Message20"@, Category::Type4),
        event("Message21"@, Category::Type3),
        event("Message22"@, Category::Type4),
        event("Message23"@, Category::Type4),
        event("Message24"@, Category::Type3),
        event("Message25"@, Category::Type4),
        event("Message26"@, Category::Type4),
    ]
}

/// Mathematical model of the dashboard's state.
pub struct AppModel {
    /// Progress of the mock decryption, in percent.
    pub progress: int,
    /// The event queue, front first.
    pub events: Seq<EventModel>,
    /// Scroll offset of the noise text.
    pub scroll: int,
    pub signal: SignalModel,
    /// Every sample drawn from the signal so far, oldest first. Nothing is
    /// ever taken out of it.
    pub samples: Seq<Sample>,
    pub window: WindowModel,
}

impl AppModel {
    pub open spec fn wf(&self) -> bool {
        &&& 0 <= self.progress <= DECRYPT_FULL
        &&& 0 <= self.scroll < SCROLL_PERIOD
        &&& self.signal.wf()
        &&& self.window.wf()
        &&& self.samples == samples_from(0, self.signal.interval, self.samples.len())
        &&& self.signal.time == self.samples.len() * self.signal.interval
    }

    /// Whether `t` more ticks keep the signal's time and the window's end
    /// within `u64`.
    pub open spec fn can_tick_times(&self, t: nat) -> bool {
        &&& self.signal.has_room(SAMPLES_PER_TICK as nat * t)
        &&& self.window.end + WINDOW_STEP * t <= u64::MAX
    }

    pub open spec fn can_tick(&self) -> bool {
        self.can_tick_times(1)
    }

    /// The state one tick later: the gauge gains its step up to full, the
    /// front event goes to the back, the scroll offset moves on by one
    /// within its period, the buffer gains the signal's next samples, and
    /// the window moves on by its step.
    pub open spec fn ticked(&self) -> AppModel {
        AppModel {
            progress: if self.progress + DECRYPT_STEP >= DECRYPT_FULL {
                DECRYPT_FULL as int
            } else {
                self.progress + DECRYPT_STEP
            },
            events: rotated(self.events, 1),
            scroll: (self.scroll + 1) % (SCROLL_PERIOD as int),
            signal: self.signal.advanced(SAMPLES_PER_TICK as nat),
            samples: self.samples + samples_from(
                self.signal.time,
                self.signal.interval,
                SAMPLES_PER_TICK as nat,
            ),
            window: self.window.shifted(WINDOW_STEP as int),
        }
    }

    /// The state `t` ticks later.
    pub open spec fn ticked_times(&self, t: nat) -> AppModel
        decreases t,
    {
        if t == 0 {
            *self
        } else {
            self.ticked_times((t - 1) as nat).ticked()
        }
    }
}

/// The model of a new dashboard.
pub open spec fn initial_model() -> AppModel {
    AppModel {
        progress: 0,
        events: initial_events(),
        scroll: 0,
        signal: SignalModel {
            time: INITIAL_SAMPLES * SIGNAL_INTERVAL,
            interval: SIGNAL_INTERVAL as int,
            period: SIGNAL_PERIOD as int,
            scale: SIGNAL_SCALE as int,
        },
        samples: samples_from(0, SIGNAL_INTERVAL as int, INITIAL_SAMPLES as nat),
        window: WindowModel { start: 0, end: WINDOW_WIDTH as int },
    }
}

/// Samples that lie a positive interval apart are in ascending order.
pub proof fn lemma_samples_ascending(start: int, interval: int, n: nat)
    requires
        0 <= start,
        0 <= interval,
        start + n * interval <= u64::MAX,
    ensures
        ascending(samples_from(start, interval, n)),
{
    let s = samples_from(start, interval, n);
    assert forall|i: int, j: int| 0 <= i <= j < s.len() implies s[i].time <= s[j].time by {
        assert(0 <= i * interval <= j * interval <= n * interval) by (nonlinear_arith)
            requires
                0 <= i <= j < n,
                0 <= interval,
        ;
    }
}

/// The state of the dashboard.
pub struct App {
    decrypt_progress: u16,
    events: EventQueue,
    scroll: u16,
    signal: SinSignal,
    data_signal: Vec<Sample>,
    window: ChartWindow,
}

impl View for App {
    type V = AppModel;

    closed spec fn view(&self) -> AppModel {
        AppModel {
            progress: self.decrypt_progress as int,
            events: self.events@,
            scroll: self.scroll as int,
            signal: self.signal@,
            samples: self.data_signal@,
            window: self.window@,
        }
    }
}

impl App {
    pub open spec fn wf(&self) -> bool {
        self@.wf()
    }

    /// The dashboard at start: the fixed list of events, an empty gauge, no
    /// scroll, the window over the first twenty units of time, and the
    /// buffer filled with the first samples of a new signal.
    pub fn new() -> (app: App)
        ensures
            app.wf(),
            app@ == initial_model(),
    {
        let mut signal = SinSignal::new(SIGNAL_INTERVAL, SIGNAL_PERIOD, SIGNAL_SCALE);
        let data_signal = signal.take(INITIAL_SAMPLES);
        let mut records: Vec<EventRecord> = Vec::new();
        records.push(EventRecord::new("Message1", Category::Type4));
        records.push(EventRecord::new("Message2", Category::Type4));
        records.push(EventRecord::new("Message3", Category::Type1));
        records.push(EventRecord::new("Message4", Category::Type2));
        records.push(EventRecord::new("Message5", Category::Type4));
        records.push(EventRecord::new("Message6", Category::Type4));
        records.push(EventRecord::new("Message7", Category::Type3));
        records.push(EventRecord::new("Message8", Category::Type4));
        records.push(EventRecord::new("Message9", Category::Type4));
        records.push(EventRecord::new("Message10", Category::Type4));
        records.push(EventRecord::new("Message11", Category::Type1));
        records.push(EventRecord::new("Message12", Category::Type4));
        records.push(EventRecord::new("Message13", Category::Type4));
        records.push(EventRecord::new("Message14", Category::Type4));
        records.push(EventRecord::new("Message15", Category::Type4));
        records.push(EventRecord::new("Message16", Category::Type4));
        records.push(EventRecord::new("Message17", Category::Type2));
        records.push(EventRecord::new("Message18", Category::Type2));
        records.push(EventRecord::new("Message19", Category::Type4));
        records.push(EventRecord::new("Message20", Category::Type4));
        records.push(EventRecord::new("Message21", Category::Type3));
        records.push(EventRecord::new("Message22", Category::Type4));
        records.push(EventRecord::new("Message23", Category::Type4));
        records.push(EventRecord::new("Message24", Category::Type3));
        records.push(EventRecord::new("Message25", Category::Type4));
        records.push(EventRecord::new("Message26", Category::Type4));
        let events = EventQueue::new(records);
        assert(events@ =~= initial_events());
        App {
            decrypt_progress: 0,
            events,
            scroll: 0,
            signal,
            data_signal,
            window: ChartWindow { start: 0, end: WINDOW_WIDTH },
        }
    }

    /// Decides whether the next tick keeps the signal's time and the
    /// window's end within `u64`, which [`App::tick`] asks of its caller.
    pub fn ready(&self) -> (ready: bool)
        requires
            self.wf(),
        ensures
            ready == self@.can_tick(),
    {
        self.signal.can_take(SAMPLES_PER_TICK) && self.window.end <= u64::MAX - WINDOW_STEP
    }

    /// Adds one step to the decryption gauge, which stops at full.
    pub fn update_decrypt_bar(&mut self)
        requires
            old(self).wf(),
        ensures
            final(self).wf(),
            final(self)@ == (AppModel { progress: old(self)@.ticked().progress, ..old(self)@ }),
            old(self)@.progress <= final(self)@.progress <= DECRYPT_FULL,
            old(self)@.progress == DECRYPT_FULL ==> final(self)@.progress == DECRYPT_FULL,
    {
        if self.decrypt_progress >= DECRYPT_FULL - DECRYPT_STEP {
            self.decrypt_progress = DECRYPT_FULL;
        } else {
            self.decrypt_progress = self.decrypt_progress + DECRYPT_STEP;
        }
    }

    /// Advances the dashboard by one frame. All parts of the state move
    /// together.
    pub fn tick(&mut self)
        requires
            old(self).wf(),
            old(self)@.can_tick(),
        ensures
            final(self).wf(),
            final(self)@ == old(self)@.ticked(),
            final(self)@.window.start == old(self)@.window.start + WINDOW_STEP,
            final(self)@.window.width() == old(self)@.window.width(),
            final(self)@.samples.len() == old(self)@.samples.len() + SAMPLES_PER_TICK,
            final(self)@.events.to_multiset() == old(self)@.events.to_multiset(),
    {
        self.update_decrypt_bar();
        self.events.rotate();
        self.scroll = (self.scroll + 1) % SCROLL_PERIOD;
        let mut batch = self.signal.take(SAMPLES_PER_TICK);
        self.data_signal.append(&mut batch);
        self.window = self.window.shifted(WINDOW_STEP);
        proof {
            let before = old(self)@;
            let n = before.samples.len();
            let d = before.signal.interval;
            lemma_samples_join(0, d, n, SAMPLES_PER_TICK as nat);
            assert((n + SAMPLES_PER_TICK) * d == n * d + SAMPLES_PER_TICK * d) by (nonlinear_arith);
        }
    }

    pub fn decrypt_progress(&self) -> (percent: u16)
        ensures
            percent == self@.progress,
    {
        self.decrypt_progress
    }

    pub fn scroll(&self) -> (offset: u16)
        ensures
            offset == self@.scroll,
    {
        self.scroll
    }

    pub fn window(&self) -> (window: ChartWindow)
        ensures
            window@ == self@.window,
            window == self@.window.bounds(),
    {
        self.window
    }

    pub fn events(&self) -> (events: &EventQueue)
        ensures
            events@ == self@.events,
    {
        &self.events
    }

    pub fn signal(&self) -> (signal: &SinSignal)
        ensures
            signal@ == self@.signal,
    {
        &self.signal
    }

    pub fn data_signal(&self) -> (samples: &Vec<Sample>)
        ensures
            samples@ == self@.samples,
    {
        &self.data_signal
    }
}

} // verus!
