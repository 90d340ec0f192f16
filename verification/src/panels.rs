//! The tree of panels that a frame shows.

use crate::chart::ChartWindow;
use crate::layout::Area;
use crate::signal::Sample;
use vstd::prelude::*;

verus! {

/// The colours of the event list's labels.
#[derive(Clone, Copy, Debug, PartialEq, Eq, Structural)]
pub enum Color {
    Red,
    Magenta,
    Yellow,
    Blue,
}

/// How the lines of a text are placed in their panel.
#[derive(Clone, Copy, Debug, PartialEq, Eq, Structural)]
pub enum Alignment {
    Left,
    Center,
    Right,
}

/// The corner of a list from which its entries are laid out.
#[derive(Clone, Copy, Debug, PartialEq, Eq, Structural)]
pub enum Corner {
    TopLeft,
    TopRight,
    BottomRight,
    BottomLeft,
}

/// A closed range of signal values, in thousandths.
#[derive(Clone, Copy, Debug, PartialEq, Eq, Structural)]
pub struct ValueRange {
    pub low: i64,
    pub high: i64,
}

/// The chart of the signal.
#[derive(Debug, PartialEq, Eq)]
pub struct ChartPanel {
    pub area: Area,
    /// The bounds of the time axis.
    pub window: ChartWindow,
    /// The labels of the time axis: at its start, its middle and its end.
    pub labels: Vec<String>,
    /// The bounds of the value axis.
    pub values: ValueRange,
    /// The samples to plot, oldest first.
    pub points: Vec<Sample>,
}

/// Mathematical model of a [`ChartPanel`].
pub struct ChartModel {
    pub area: Area,
    pub window: ChartWindow,
    pub labels: Seq<Seq<char>>,
    pub values: ValueRange,
    pub points: Seq<Sample>,
}

impl View for ChartPanel {
    type V = ChartModel;

    open spec fn view(&self) -> ChartModel {
        ChartModel {
            area: self.area,
            window: self.window,
            labels: self.labels.deep_view(),
            values: self.values,
            points: self.points@,
        }
    }
}

/// The panel of noise text.
#[derive(Debug, PartialEq, Eq)]
pub struct NoisePanel {
    pub area: Area,
    pub lines: Vec<String>,
    pub alignment: Alignment,
    /// Whether a line that is wider than the panel goes on in the next row.
    pub wrap: bool,
    /// The number of rows scrolled out at the top.
    pub scroll: u16,
}

/// Mathematical model of a [`NoisePanel`].
pub struct NoiseModel {
    pub area: Area,
    pub lines: Seq<Seq<char>>,
    pub alignment: Alignment,
    pub wrap: bool,
    pub scroll: u16,
}

impl View for NoisePanel {
    type V = NoiseModel;

    open spec fn view(&self) -> NoiseModel {
        NoiseModel {
            area: self.area,
            lines: self.lines.deep_view(),
            alignment: self.alignment,
            wrap: self.wrap,
            scroll: self.scroll,
        }
    }
}

/// One entry of the event list: a rule, a header made of the category's
/// label and a time stamp, and the message.
#[derive(Debug, PartialEq, Eq)]
pub struct EventEntry {
    pub rule: String,
    pub label: String,
    pub color: Color,
    pub timestamp: String,
    pub message: String,
}

/// Mathematical model of an [`EventEntry`].
pub struct EntryModel {
    pub rule: Seq<char>,
    pub label: Seq<char>,
    pub color: Color,
    pub timestamp: Seq<char>,
    pub message: Seq<char>,
}

impl View for EventEntry {
    type V = EntryModel;

    open spec fn view(&self) -> EntryModel {
        EntryModel {
            rule: self.rule@,
            label: self.label@,
            color: self.color,
            timestamp: self.timestamp@,
            message: self.message@,
        }
    }
}

/// The event list. Its first entry is the one to show nearest the list's
/// anchor.
#[derive(Debug, PartialEq, Eq)]
pub struct EventPanel {
    pub area: Area,
    pub anchor: Corner,
    pub entries: Vec<EventEntry>,
}

/// Mathematical model of an [`EventPanel`].
pub struct EventListModel {
    pub area: Area,
    pub anchor: Corner,
    pub entries: Seq<EntryModel>,
}

impl View for EventPanel {
    type V = EventListModel;

    open spec fn view(&self) -> EventListModel {
        EventListModel {
            area: self.area,
            anchor: self.anchor,
            entries: self.entries@.map_values(|e: EventEntry| e@),
        }
    }
}

/// The gauge of the mock decryption.
#[derive(Debug, PartialEq, Eq)]
pub struct GaugePanel {
    /// The area of the gauge's titled frame.
    pub frame: Area,
    pub title: String,
    /// The area of the bar inside the frame.
    pub bar: Area,
    /// How much of the bar is filled, from 0 to 100.
    pub percent: u16,
}

/// Mathematical model of a [`GaugePanel`].
pub struct GaugeModel {
    pub frame: Area,
    pub title: Seq<char>,
    pub bar: Area,
    pub percent: u16,
}

impl View for GaugePanel {
    type V = GaugeModel;

    open spec fn view(&self) -> GaugeModel {
        GaugeModel {
            frame: self.frame,
            title: self.title@,
            bar: self.bar,
            percent: self.percent,
        }
    }
}

/// The four panels of the dashboard.
#[derive(Debug, PartialEq, Eq)]
pub struct Dashboard {
    pub chart: ChartPanel,
    pub noise: NoisePanel,
    pub events: EventPanel,
    pub gauge: GaugePanel,
}

/// Mathematical model of a [`Dashboard`].
pub struct DashboardModel {
    pub chart: ChartModel,
    pub noise: NoiseModel,
    pub events: EventListModel,
    pub gauge: GaugeModel,
}

impl View for Dashboard {
    type V = DashboardModel;

    open spec fn view(&self) -> DashboardModel {
        DashboardModel {
            chart: self.chart@,
            noise: self.noise@,
            events: self.events@,
            gauge: self.gauge@,
        }
    }
}

/// What a frame shows: nothing at all where the viewport has no cells, the
/// four panels otherwise.
#[derive(Debug, PartialEq, Eq)]
pub enum VisualTree {
    Empty,
    Panels(Dashboard),
}

/// Mathematical model of a [`VisualTree`].
pub enum TreeModel {
    Empty,
    Panels(DashboardModel),
}

impl View for VisualTree {
    type V = TreeModel;

    open spec fn view(&self) -> TreeModel {
        match self {
            VisualTree::Empty => TreeModel::Empty,
            VisualTree::Panels(panels) => TreeModel::Panels(panels@),
        }
    }
}

} // verus!
