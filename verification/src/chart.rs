//! The window of time that the chart shows, and the samples that fall in it.

use crate::signal::Sample;
use vstd::prelude::*;

verus! {

/// The closed range of time that the chart shows, in thousandths.
#[derive(Clone, Copy, Debug, PartialEq, Eq, Structural)]
pub struct ChartWindow {
    pub start: u64,
    pub end: u64,
}

/// Mathematical model of the chart's window: its bounds as numbers without
/// a machine limit.
pub struct WindowModel {
    pub start: int,
    pub end: int,
}

impl WindowModel {
    /// The bounds are in order and fit the machine words that hold them.
    pub open spec fn wf(&self) -> bool {
        0 <= self.start <= self.end <= u64::MAX
    }

    /// The length of the window; moving the window does not change it.
    pub open spec fn width(&self) -> int {
        self.end - self.start
    }

    /// The window moved later by `step`.
    pub open spec fn shifted(&self, step: int) -> WindowModel {
        WindowModel { start: self.start + step, end: self.end + step }
    }

    /// The window as the chart holds it.
    pub open spec fn bounds(&self) -> ChartWindow {
        ChartWindow { start: self.start as u64, end: self.end as u64 }
    }
}

impl View for ChartWindow {
    type V = WindowModel;

    open spec fn view(&self) -> WindowModel {
        WindowModel { start: self.start as int, end: self.end as int }
    }
}

impl ChartWindow {
    pub open spec fn wf(&self) -> bool {
        self.start <= self.end
    }

    /// The length of the window; moving the window does not change it.
    pub open spec fn width(&self) -> int {
        self.end - self.start
    }

    pub open spec fn contains(&self, time: u64) -> bool {
        self.start <= time <= self.end
    }

    /// The time half way between the bounds, rounded down.
    pub fn midpoint(&self) -> (mid: u64)
        ensures
            mid == (self.start + self.end) / 2,
    {
        if self.start <= self.end {
            self.start + (self.end - self.start) / 2
        } else {
            self.end + (self.start - self.end) / 2
        }
    }

    /// The window moved later by `step`.
    pub fn shifted(&self, step: u64) -> (moved: ChartWindow)
        requires
            self.wf(),
            self.end + step <= u64::MAX,
        ensures
            moved@ == self@.shifted(step as int),
            moved.start == self.start + step,
            moved.end == self.end + step,
            moved.wf(),
            moved.width() == self.width(),
    {
        ChartWindow { start: self.start + step, end: self.end + step }
    }
}

/// No sample is earlier than one before it.
pub open spec fn ascending(samples: Seq<Sample>) -> bool {
    forall|i: int, j: int| 0 <= i <= j < samples.len() ==> samples[i].time <= samples[j].time
}

/// The samples that the window shows, in their order.
pub open spec fn visible(samples: Seq<Sample>, window: ChartWindow) -> Seq<Sample> {
    samples.filter(|s: Sample| window.contains(s.time))
}

/// Whether a time lies before a bound, or on it where the bound takes part.
pub open spec fn precedes(time: u64, bound: u64, inclusive: bool) -> bool {
    if inclusive {
        time <= bound
    } else {
        time < bound
    }
}

/// The number of samples that lie before the bound. In an ascending run
/// these are its first samples.
fn count_preceding(samples: &Vec<Sample>, bound: u64, inclusive: bool) -> (count: usize)
    requires
        ascending(samples@),
    ensures
        count <= samples@.len(),
        forall|i: int|
            0 <= i < samples@.len() ==> (i < count <==> precedes(
                #[trigger] samples@[i].time,
                bound,
                inclusive,
            )),
{
    let mut low: usize = 0;
    let mut high: usize = samples.len();
    while low < high
        invariant
            low <= high <= samples@.len(),
            ascending(samples@),
            forall|i: int| 0 <= i < low ==> precedes(#[trigger] samples@[i].time, bound, inclusive),
            forall|i: int|
                high <= i < samples@.len() ==> !precedes(
                    #[trigger] samples@[i].time,
                    bound,
                    inclusive,
                ),
        decreases high - low,
    {
        let mid: usize = low + (high - low) / 2;
        let time: u64 = samples[mid].time;
        let before = if inclusive {
            time <= bound
        } else {
            time < bound
        };
        if before {
            low = mid + 1;
        } else {
            high = mid;
        }
    }
    low
}

/// In an ascending run, the samples of a window are the run's samples from
/// the first that is not before the window to the last that is not behind it.
pub proof fn lemma_visible_is_subrange(samples: Seq<Sample>, window: ChartWindow, lo: int, hi: int)
    requires
        0 <= lo <= hi <= samples.len(),
        forall|i: int|
            0 <= i < samples.len() ==> (lo <= i < hi <==> window.contains(
                #[trigger] samples[i].time,
            )),
    ensures
        visible(samples, window) == samples.subrange(lo, hi),
    decreases samples.len(),
{
    let shown = |s: Sample| window.contains(s.time);
    reveal(Seq::filter);
    if samples.len() == 0 {
        assert(samples.filter(shown) =~= samples.subrange(lo, hi));
    } else {
        let rest = samples.drop_last();
        let last = samples.len() - 1;
        assert(window.contains(samples[last].time) <==> lo <= last < hi);
        if hi == samples.len() && lo < hi {
            assert forall|i: int| 0 <= i < rest.len() implies (lo <= i < hi - 1
                <==> window.contains(#[trigger] rest[i].time)) by {
                assert(rest[i] == samples[i]);
            }
            lemma_visible_is_subrange(rest, window, lo, hi - 1);
            assert(rest.subrange(lo, hi - 1).push(samples.last()) =~= samples.subrange(lo, hi));
        } else {
            let top = if hi == samples.len() {
                hi - 1
            } else {
                hi
            };
            let bottom = if lo > top {
                top
            } else {
                lo
            };
            assert forall|i: int| 0 <= i < rest.len() implies (bottom <= i < top
                <==> window.contains(#[trigger] rest[i].time)) by {
                assert(rest[i] == samples[i]);
            }
            lemma_visible_is_subrange(rest, window, bottom, top);
            assert(rest.subrange(bottom, top) =~= samples.subrange(lo, hi));
        }
    }
}

/// The indices `(lo, hi)` between which the samples of the window lie.
pub fn visible_range(samples: &Vec<Sample>, window: &ChartWindow) -> (range: (usize, usize))
    requires
        ascending(samples@),
    ensures
        range.0 <= range.1 <= samples@.len(),
        forall|i: int|
            0 <= i < samples@.len() ==> (range.0 <= i < range.1 <==> window.contains(
                #[trigger] samples@[i].time,
            )),
        forall|i: int| 0 <= i < samples@.len() ==> (i < range.0 <==> samples@[i].time < window.start),
        samples@.subrange(range.0 as int, range.1 as int) == visible(samples@, *window),
{
    let lo = count_preceding(samples, window.start, false);
    let upto = count_preceding(samples, window.end, true);
    let hi = if upto < lo {
        lo
    } else {
        upto
    };
    proof {
        lemma_visible_is_subrange(samples@, *window, lo as int, hi as int);
    }
    (lo, hi)
}

/// The samples that the window shows, in their order.
pub fn visible_samples(samples: &Vec<Sample>, window: &ChartWindow) -> (shown: Vec<Sample>)
    requires
        ascending(samples@),
    ensures
        shown@ == visible(samples@, *window),
{
    let (lo, hi) = visible_range(samples, window);
    let mut shown: Vec<Sample> = Vec::new();
    let mut i: usize = lo;
    while i < hi
        invariant
            lo <= i <= hi <= samples@.len(),
            shown@ == samples@.subrange(lo as int, i as int),
        decreases hi - i,
    {
        shown.push(samples[i]);
        i = i + 1;
        assert(shown@ =~= samples@.subrange(lo as int, i as int));
    }
    shown
}

} // verus!
