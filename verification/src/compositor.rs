//! From a snapshot of the state to the tree of panels that shows it.

use crate::chart::{visible, visible_samples, ChartWindow};
use crate::events::{Category, EventModel, EventQueue};
use crate::layout::{arrange, laid_out, lemma_division_nests, Area, Regions};
use crate::noise::{noise_lines, noise_text, noise_words, NOISE_LINES};
use crate::panels::{
    Alignment, ChartModel, ChartPanel, Color, Corner, Dashboard, DashboardModel, EntryModel,
    EventEntry, EventListModel, EventPanel, GaugeModel, GaugePanel, NoiseModel, NoisePanel,
    TreeModel, ValueRange, VisualTree,
};
use crate::state::{lemma_samples_ascending, App, AppModel};
use crate::text::{format_thousandths, pad_right, padded, rule, rule_text, thousandths_text};
use vstd::prelude::*;
use vstd::string::StringExecFns;

verus! {

/// The width to which the event list pads a category's label.
pub const LABEL_WIDTH: usize = 9;

/// The lower bound of the chart's value axis, in thousandths.
pub const VALUE_FLOOR: i64 = -20000;

/// The upper bound of the chart's value axis, in thousandths.
pub const VALUE_CEILING: i64 = 20000;

/// The name under which the event list shows a category.
pub open spec fn category_name(category: Category) -> Seq<char> {
    match category {
        Category::Type1 => "TYPE1"@,
        Category::Type2 => "TYPE2"@,
        Category::Type3 => "TYPE3"@,
        Category::Type4 => "TYPE4"@,
    }
}

/// The colour in which the event list shows a category.
pub open spec fn category_color(category: Category) -> Color {
    match category {
        Category::Type1 => Color::Red,
        Category::Type2 => Color::Magenta,
        Category::Type3 => Color::Yellow,
        Category::Type4 => Color::Blue,
    }
}

/// The time stamp that every entry of the event list shows.
pub open spec fn timestamp_text() -> Seq<char> {
    "2020-01-01 10:00:00"@
}

/// The title of the gauge.
pub open spec fn gauge_title() -> Seq<char> {
    "Decryption in progress"@
}

/// The entry that shows `event` in a list `width` cells wide.
pub open spec fn entry_of(event: EventModel, width: nat) -> EntryModel {
    EntryModel {
        rule: rule_text(width),
        label: padded(category_name(event.category), LABEL_WIDTH as nat),
        color: category_color(event.category),
        timestamp: timestamp_text(),
        message: event.message,
    }
}

/// The entries of the event list: one for each event, the back of the queue
/// first.
pub open spec fn event_entries(events: Seq<EventModel>, width: nat) -> Seq<EntryModel> {
    Seq::new(events.len(), |i: int| entry_of(events[events.len() - 1 - i], width))
}

/// The labels of the chart's time axis: the window's start, its middle and
/// its end.
pub open spec fn chart_labels(window: ChartWindow) -> Seq<Seq<char>> {
    seq![
        thousandths_text(window.start as nat),
        thousandths_text(((window.start + window.end) / 2) as nat),
        thousandths_text(window.end as nat),
    ]
}

/// The panels that show the state `app` in the areas `regions`, with the
/// numbers `words` as noise.
pub open spec fn composed(app: AppModel, regions: Regions, words: Seq<u64>) -> DashboardModel {
    DashboardModel {
        chart: ChartModel {
            area: regions.chart,
            window: app.window.bounds(),
            labels: chart_labels(app.window.bounds()),
            values: ValueRange { low: VALUE_FLOOR, high: VALUE_CEILING },
            points: visible(app.samples, app.window.bounds()),
        },
        noise: NoiseModel {
            area: regions.noise,
            lines: noise_text(words),
            alignment: Alignment::Center,
            wrap: true,
            scroll: app.scroll as u16,
        },
        events: EventListModel {
            area: regions.events,
            anchor: Corner::BottomLeft,
            entries: event_entries(app.events, regions.events.width as nat),
        },
        gauge: GaugeModel {
            frame: regions.gauge_frame,
            title: gauge_title(),
            bar: regions.gauge_bar,
            percent: app.progress as u16,
        },
    }
}

/// Whether the panels of two dashboards lie in the same areas.
pub open spec fn same_areas(p: DashboardModel, q: DashboardModel) -> bool {
    &&& p.chart.area == q.chart.area
    &&& p.noise.area == q.noise.area
    &&& p.events.area == q.events.area
    &&& p.gauge.frame == q.gauge.frame
    &&& p.gauge.bar == q.gauge.bar
}

/// Whether two dashboards are equal but for the lines of the noise text.
pub open spec fn same_but_noise(p: DashboardModel, q: DashboardModel) -> bool {
    p == (DashboardModel { noise: NoiseModel { lines: p.noise.lines, ..q.noise }, ..q })
}

/// Whether two dashboards show the same but for where the panels lie, for
/// the lines of the noise text, and for the rules of the event list, which
/// are as wide as the list.
pub open spec fn same_content(p: DashboardModel, q: DashboardModel) -> bool {
    &&& p.chart == (ChartModel { area: p.chart.area, ..q.chart })
    &&& p.noise == (NoiseModel { area: p.noise.area, lines: p.noise.lines, ..q.noise })
    &&& p.events.anchor == q.events.anchor
    &&& p.events.entries.len() == q.events.entries.len()
    &&& forall|i: int|
        0 <= i < p.events.entries.len() ==> (#[trigger] p.events.entries[i]) == (EntryModel {
            rule: p.events.entries[i].rule,
            ..q.events.entries[i]
        })
    &&& p.gauge == (GaugeModel { frame: p.gauge.frame, bar: p.gauge.bar, ..q.gauge })
}

/// Whether the panels of a dashboard lie in `viewport` as they should.
pub open spec fn fits(panels: DashboardModel, viewport: Area) -> bool {
    laid_out(
        viewport,
        panels.chart.area,
        panels.noise.area,
        panels.events.area,
        panels.gauge.frame,
        panels.gauge.bar,
    )
}

/// Whether `tree` is a frame of the state `app` in `viewport`: the empty
/// tree where the viewport has no cells, and otherwise the composition of
/// the state with some division of the viewport and some batch of noise of
/// the fixed size. In such a composition the panels lie in the viewport as
/// they should.
pub open spec fn shows(tree: TreeModel, app: AppModel, viewport: Area) -> bool {
    if viewport.is_empty() {
        tree == TreeModel::Empty
    } else {
        &&& tree is Panels
        &&& fits(tree->Panels_0, viewport)
        &&& exists|regions: Regions, words: Seq<u64>|
            {
                &&& regions.divides(viewport)
                &&& words.len() == NOISE_LINES
                &&& tree == TreeModel::Panels(#[trigger] composed(app, regions, words))
            }
    }
}

/// Two compositions of one state show the same content, and where they lie
/// in the same areas they are equal but for the lines of the noise text.
pub proof fn lemma_compositions_agree(
    app: AppModel,
    regions: Regions,
    words: Seq<u64>,
    other_regions: Regions,
    other_words: Seq<u64>,
)
    ensures
        same_content(
            composed(app, regions, words),
            composed(app, other_regions, other_words),
        ),
        same_areas(
            composed(app, regions, words),
            composed(app, other_regions, other_words),
        ) ==> same_but_noise(
            composed(app, regions, words),
            composed(app, other_regions, other_words),
        ),
        composed(app, regions, words).noise.lines.len() == words.len(),
{
}

/// Two frames of one state in one viewport have the same shape and show the
/// same content. Where they also lie in the same areas, they are equal but
/// for the lines of the noise text.
pub proof fn lemma_frames_agree(app: AppModel, viewport: Area, a: TreeModel, b: TreeModel)
    requires
        shows(a, app, viewport),
        shows(b, app, viewport),
    ensures
        a is Empty <==> viewport.is_empty(),
        b is Empty <==> viewport.is_empty(),
        a is Panels && b is Panels ==> {
            let p = a->Panels_0;
            let q = b->Panels_0;
            &&& same_content(p, q)
            &&& p.noise.lines.len() == q.noise.lines.len()
            &&& same_areas(p, q) ==> same_but_noise(p, q)
        },
{
    if !viewport.is_empty() {
        let (ra, wa) = choose|regions: Regions, words: Seq<u64>|
            {
                &&& regions.divides(viewport)
                &&& words.len() == NOISE_LINES
                &&& a == TreeModel::Panels(#[trigger] composed(app, regions, words))
            };
        let (rb, wb) = choose|regions: Regions, words: Seq<u64>|
            {
                &&& regions.divides(viewport)
                &&& words.len() == NOISE_LINES
                &&& b == TreeModel::Panels(#[trigger] composed(app, regions, words))
            };
        lemma_compositions_agree(app, ra, wa, rb, wb);
        lemma_compositions_agree(app, rb, wb, ra, wa);
    }
}

/// The name under which the event list shows a category.
pub fn name_of(category: Category) -> (name: &'static str)
    ensures
        name@ == category_name(category),
{
    match category {
        Category::Type1 => "TYPE1",
        Category::Type2 => "TYPE2",
        Category::Type3 => "TYPE3",
        Category::Type4 => "TYPE4",
    }
}

/// The colour in which the event list shows a category.
pub fn color_of(category: Category) -> (color: Color)
    ensures
        color == category_color(category),
{
    match category {
        Category::Type1 => Color::Red,
        Category::Type2 => Color::Magenta,
        Category::Type3 => Color::Yellow,
        Category::Type4 => Color::Blue,
    }
}

/// The labels of the chart's time axis.
pub fn label_axis(window: &ChartWindow) -> (labels: Vec<String>)
    ensures
        labels.deep_view() == chart_labels(*window),
{
    let mut labels: Vec<String> = Vec::new();
    labels.push(format_thousandths(window.start));
    labels.push(format_thousandths(window.midpoint()));
    labels.push(format_thousandths(window.end));
    assert(labels.deep_view() =~= chart_labels(*window));
    labels
}

/// The entries of the event list for a queue, in a list `width` cells wide.
pub fn list_events(events: &EventQueue, width: u16) -> (entries: Vec<EventEntry>)
    ensures
        entries@.map_values(|e: EventEntry| e@) == event_entries(events@, width as nat),
{
    let n: usize = events.len();
    let mut entries: Vec<EventEntry> = Vec::new();
    let mut i: usize = 0;
    while i < n
        invariant
            i <= n,
            n == events@.len(),
            entries@.len() == i,
            forall|j: int|
                0 <= j < i ==> (#[trigger] entries@[j])@ == entry_of(
                    events@[n - 1 - j],
                    width as nat,
                ),
        decreases n - i,
    {
        let record = events.get(n - 1 - i);
        entries.push(
            EventEntry {
                rule: rule(width as usize),
                label: pad_right(name_of(record.category), LABEL_WIDTH),
                color: color_of(record.category),
                timestamp: String::from_str("2020-01-01 10:00:00"),
                message: record.message.clone(),
            },
        );
        i = i + 1;
    }
    assert(entries@.map_values(|e: EventEntry| e@) =~= event_entries(events@, width as nat));
    entries
}

impl App {
    /// Composes the panels of a frame from the state, the areas of the
    /// panels and the numbers to show as noise. The state is only read.
    pub fn compose(&self, regions: &Regions, words: &Vec<u64>) -> (panels: Dashboard)
        requires
            self.wf(),
        ensures
            panels@ == composed(self@, *regions, words@),
    {
        let window = self.window();
        proof {
            let m = self@;
            lemma_samples_ascending(0, m.signal.interval, m.samples.len());
        }
        Dashboard {
            chart: ChartPanel {
                area: regions.chart,
                window,
                labels: label_axis(&window),
                values: ValueRange { low: VALUE_FLOOR, high: VALUE_CEILING },
                points: visible_samples(self.data_signal(), &window),
            },
            noise: NoisePanel {
                area: regions.noise,
                lines: noise_lines(words),
                alignment: Alignment::Center,
                wrap: true,
                scroll: self.scroll(),
            },
            events: EventPanel {
                area: regions.events,
                anchor: Corner::BottomLeft,
                entries: list_events(self.events(), regions.events.width),
            },
            gauge: GaugePanel {
                frame: regions.gauge_frame,
                title: String::from_str("Decryption in progress"),
                bar: regions.gauge_bar,
                percent: self.decrypt_progress(),
            },
        }
    }

    /// The tree of panels for a frame in the given viewport. A viewport
    /// without cells gives the empty tree. Otherwise the viewport is divided
    /// among the panels and a fresh batch of noise is drawn; the tree is the
    /// composition of the state with those areas and that noise.
    pub fn ui(&self, viewport: Area) -> (tree: VisualTree)
        requires
            self.wf(),
        ensures
            shows(tree@, self@, viewport),
    {
        if viewport.has_no_cells() {
            return VisualTree::Empty;
        }
        let regions = arrange(viewport);
        let words = noise_words(NOISE_LINES);
        let panels = self.compose(&regions, &words);
        proof {
            lemma_division_nests(regions, viewport);
            assert(panels@ == composed(self@, regions, words@));
        }
        VisualTree::Panels(panels)
    }
}

} // verus!
