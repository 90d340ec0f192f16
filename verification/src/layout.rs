//! Screen areas, and how the viewport is divided among the panels.

use ratatui::layout::{Constraint, Direction, Layout, Rect};
use vstd::prelude::*;

verus! {

/// A rectangle of character cells on the screen.
#[derive(Clone, Copy, Debug, PartialEq, Eq, Structural)]
pub struct Area {
    pub x: u16,
    pub y: u16,
    pub width: u16,
    pub height: u16,
}

impl Area {
    /// An area without cells shows nothing.
    pub open spec fn is_empty(&self) -> bool {
        self.width == 0 || self.height == 0
    }

    /// Decides [`Area::is_empty`].
    pub fn has_no_cells(&self) -> (empty: bool)
        ensures
            empty == self.is_empty(),
    {
        self.width == 0 || self.height == 0
    }
}

/// The direction along which an area is cut into parts.
#[derive(Clone, Copy, Debug, PartialEq, Eq, Structural)]
pub enum Cut {
    /// Parts lie side by side.
    Columns,
    /// Parts lie one below the other.
    Rows,
}

/// A part of a cut area spans the area across the direction of the cut:
/// columns have the area's height, rows its width.
pub open spec fn spans(cut: Cut, area: Area, part: Area) -> bool {
    match cut {
        Cut::Columns => part.y == area.y && part.height == area.height,
        Cut::Rows => part.x == area.x && part.width == area.width,
    }
}

/// Calls `ratatui::layout::Layout::split` on a layout without margin, with
/// the given direction and one `Constraint::Percentage` for each entry of
/// `percentages`. The contract claims that one part comes back for each
/// percentage, and that each part has the position and size of `area` across
/// the direction of the cut, which the function copies from its argument.
/// Where a part starts and ends along the cut is the outcome of a constraint
/// solver, each bound rounded on its own; nothing is claimed of it, and
/// [`settle`] tests it. The function panics where the solver refuses a
/// constraint; those it must meet here (the parts lie in the area, in order
/// and without gaps) can be met for every area.
#[verifier::external_body]
pub(crate) fn split(cut: Cut, percentages: &Vec<u16>, area: Area) -> (parts: Vec<Area>)
    ensures
        parts@.len() == percentages@.len(),
        forall|i: int| 0 <= i < parts@.len() ==> spans(cut, area, #[trigger] parts@[i]),
{
    let direction = match cut {
        Cut::Columns => Direction::Horizontal,
        Cut::Rows => Direction::Vertical,
    };
    let constraints: Vec<Constraint> =
        percentages.iter().map(|p| Constraint::Percentage(*p)).collect();
    let rect = Rect { x: area.x, y: area.y, width: area.width, height: area.height };
    let parts = Layout::default().direction(direction).constraints(constraints).split(rect);
    parts.iter().map(|r| Area { x: r.x, y: r.y, width: r.width, height: r.height }).collect()
}

/// Where an area starts along a cut: its left edge for columns, its top row
/// for rows.
pub open spec fn start_along(cut: Cut, area: Area) -> int {
    match cut {
        Cut::Columns => area.x as int,
        Cut::Rows => area.y as int,
    }
}

/// How far an area reaches along a cut: its width for columns, its height
/// for rows.
pub open spec fn extent_along(cut: Cut, area: Area) -> int {
    match cut {
        Cut::Columns => area.width as int,
        Cut::Rows => area.height as int,
    }
}

/// The first position behind an area along a cut.
pub open spec fn end_along(cut: Cut, area: Area) -> int {
    start_along(cut, area) + extent_along(cut, area)
}

/// Where the parts of an area end along a cut: where the area ends, and at
/// the last coordinate of the screen where the area reaches beyond it.
pub open spec fn limit_along(cut: Cut, area: Area) -> int {
    if end_along(cut, area) > u16::MAX {
        u16::MAX as int
    } else {
        end_along(cut, area)
    }
}

/// Whether `parts` divide `area` along `cut`: every part spans the area
/// across the cut, the first part starts where the area starts, each next
/// part starts where the one before it ends, and the last part ends where
/// the area ends. So the parts lie in the order given, cover the area and do
/// not overlap.
pub open spec fn tiles(cut: Cut, area: Area, parts: Seq<Area>) -> bool {
    &&& parts.len() > 0
    &&& forall|i: int| 0 <= i < parts.len() ==> spans(cut, area, #[trigger] parts[i])
    &&& start_along(cut, parts[0]) == start_along(cut, area)
    &&& forall|i: int|
        0 < i < parts.len() ==> start_along(cut, #[trigger] parts[i]) == end_along(
            cut,
            parts[i - 1],
        )
    &&& end_along(cut, parts.last()) == limit_along(cut, area)
}

/// The part of `area` that starts at `start` along the cut and reaches
/// `extent` far.
pub open spec fn placed(cut: Cut, area: Area, start: int, extent: int) -> Area {
    match cut {
        Cut::Columns => Area {
            x: start as u16,
            y: area.y,
            width: extent as u16,
            height: area.height,
        },
        Cut::Rows => Area {
            x: area.x,
            y: start as u16,
            width: area.width,
            height: extent as u16,
        },
    }
}

/// How far the parts of an area reach together along a cut.
pub open spec fn whole_along(cut: Cut, area: Area) -> int {
    limit_along(cut, area) - start_along(cut, area)
}

/// The sum of the first `n` shares.
pub open spec fn share_sum(percentages: Seq<u16>, n: nat) -> int
    decreases n,
{
    if n == 0 {
        0
    } else {
        share_sum(percentages, (n - 1) as nat) + percentages[n - 1]
    }
}

/// Whether something `extent` far is the given percentage of how far the
/// parts of `area` reach together along the cut, to within one cell.
pub open spec fn is_share(cut: Cut, area: Area, extent: int, percentage: int) -> bool {
    -100 <= 100 * extent - percentage * whole_along(cut, area) <= 100
}

/// Whether each part has its share of the area: there is one part for each
/// percentage, and the extent of a part differs by at most one cell from
/// that percentage of how far the parts reach together.
pub open spec fn shared(cut: Cut, area: Area, parts: Seq<Area>, percentages: Seq<u16>) -> bool {
    &&& parts.len() == percentages.len()
    &&& forall|i: int|
        0 <= i < parts.len() ==> -100 <= 100 * extent_along(cut, #[trigger] parts[i])
            - percentages[i] * whole_along(cut, area) <= 100
}

/// A sum of shares, counted up to the whole at most.
pub open spec fn capped(total: int) -> int {
    if total > 100 {
        100
    } else {
        total
    }
}

/// Where the first `n` parts end in the division by shares: behind as many
/// hundredths of the whole as their shares sum to, rounded down; the last
/// part ends where the parts are to end.
pub open spec fn share_bound(cut: Cut, area: Area, percentages: Seq<u16>, n: int) -> int {
    if n <= 0 {
        start_along(cut, area)
    } else if n >= percentages.len() {
        limit_along(cut, area)
    } else {
        start_along(cut, area) + whole_along(cut, area) * capped(
            share_sum(percentages, n as nat),
        ) / 100
    }
}

/// The division of an area by shares, computed in whole numbers: part `i`
/// lies between where the first `i` and the first `i + 1` parts end.
pub open spec fn by_shares(cut: Cut, area: Area, percentages: Seq<u16>) -> Seq<Area> {
    Seq::new(
        percentages.len(),
        |i: int|
            placed(
                cut,
                area,
                share_bound(cut, area, percentages, i),
                share_bound(cut, area, percentages, i + 1) - share_bound(
                    cut,
                    area,
                    percentages,
                    i,
                ),
            ),
    )
}

/// The parts to use for a cut of `area` by the given shares, given the parts
/// that the layout engine proposes: those parts where they divide the area
/// and each has its share, and the division by shares where they do not.
pub open spec fn settled(
    cut: Cut,
    area: Area,
    percentages: Seq<u16>,
    proposed: Seq<Area>,
) -> Seq<Area> {
    if tiles(cut, area, proposed) && shared(cut, area, proposed, percentages) {
        proposed
    } else {
        by_shares(cut, area, percentages)
    }
}

/// Sums of shares do not fall as more shares are counted.
pub proof fn lemma_share_sum_grows(percentages: Seq<u16>, n: nat, m: nat)
    requires
        n <= m <= percentages.len(),
    ensures
        0 <= share_sum(percentages, n) <= share_sum(percentages, m),
    decreases m,
{
    if m > 0 {
        if n < m {
            lemma_share_sum_grows(percentages, n, (m - 1) as nat);
        } else {
            lemma_share_sum_grows(percentages, (n - 1) as nat, (m - 1) as nat);
        }
    }
}

/// In the division by shares the parts end in order, between the start of
/// the area and where its parts are to end.
pub proof fn lemma_share_bounds_ordered(cut: Cut, area: Area, percentages: Seq<u16>, n: int)
    requires
        0 <= n < percentages.len(),
    ensures
        start_along(cut, area) <= share_bound(cut, area, percentages, n) <= share_bound(
            cut,
            area,
            percentages,
            n + 1,
        ) <= limit_along(cut, area) <= u16::MAX,
{
    let whole = whole_along(cut, area);
    lemma_share_sum_grows(percentages, n as nat, (n + 1) as nat);
    let low = capped(share_sum(percentages, n as nat));
    let high = capped(share_sum(percentages, (n + 1) as nat));
    assert(0 <= (whole * low) / 100 <= (whole * high) / 100 <= whole) by (nonlinear_arith)
        requires
            0 <= low <= high <= 100,
            0 <= whole,
    ;
}

/// The division by shares is a division.
pub proof fn lemma_by_shares_tiles(cut: Cut, area: Area, percentages: Seq<u16>)
    requires
        percentages.len() > 0,
    ensures
        tiles(cut, area, by_shares(cut, area, percentages)),
{
    let parts = by_shares(cut, area, percentages);
    assert forall|i: int| 0 <= i < parts.len() implies {
        &&& spans(cut, area, #[trigger] parts[i])
        &&& start_along(cut, parts[i]) == share_bound(cut, area, percentages, i)
        &&& end_along(cut, parts[i]) == share_bound(cut, area, percentages, i + 1)
    } by {
        lemma_share_bounds_ordered(cut, area, percentages, i);
    }
    assert forall|i: int| 0 < i < parts.len() implies start_along(cut, #[trigger] parts[i])
        == end_along(cut, parts[i - 1]) by {
        assert(end_along(cut, parts[i - 1]) == share_bound(cut, area, percentages, i));
    }
}

/// Where the shares sum to the whole, each part of the division by shares
/// has its share.
pub proof fn lemma_by_shares_shared(cut: Cut, area: Area, percentages: Seq<u16>)
    requires
        share_sum(percentages, percentages.len()) == 100,
    ensures
        shared(cut, area, by_shares(cut, area, percentages), percentages),
{
    let parts = by_shares(cut, area, percentages);
    let whole = whole_along(cut, area);
    let count = percentages.len();
    assert forall|i: int| 0 <= i < parts.len() implies -100 <= 100 * extent_along(
        cut,
        #[trigger] parts[i],
    ) - percentages[i] * whole <= 100 by {
        lemma_share_bounds_ordered(cut, area, percentages, i);
        lemma_share_sum_grows(percentages, i as nat, (i + 1) as nat);
        lemma_share_sum_grows(percentages, (i + 1) as nat, count);
        let before = share_sum(percentages, i as nat);
        let behind = share_sum(percentages, (i + 1) as nat);
        let share = percentages[i] as int;
        assert(behind == before + share);
        let low = whole * before;
        let high = whole * behind;
        assert(high == low + share * whole) by (nonlinear_arith)
            requires
                behind == before + share,
                low == whole * before,
                high == whole * behind,
        ;
        assert(whole * 0 == 0);
        assert(whole * 100 / 100 == whole) by (nonlinear_arith);
        assert(share_bound(cut, area, percentages, i) == start_along(cut, area) + low / 100);
        assert(share_bound(cut, area, percentages, i + 1) == start_along(cut, area) + high / 100);
        assert(extent_along(cut, parts[i]) == high / 100 - low / 100);
    }
}

/// Where an area starts along a cut.
pub fn start_of(cut: Cut, area: &Area) -> (start: u16)
    ensures
        start == start_along(cut, *area),
{
    match cut {
        Cut::Columns => area.x,
        Cut::Rows => area.y,
    }
}

/// How far an area reaches along a cut.
pub fn extent_of(cut: Cut, area: &Area) -> (extent: u16)
    ensures
        extent == extent_along(cut, *area),
{
    match cut {
        Cut::Columns => area.width,
        Cut::Rows => area.height,
    }
}

/// Decides [`spans`].
pub fn spans_across(cut: Cut, area: &Area, part: &Area) -> (across: bool)
    ensures
        across == spans(cut, *area, *part),
{
    match cut {
        Cut::Columns => part.y == area.y && part.height == area.height,
        Cut::Rows => part.x == area.x && part.width == area.width,
    }
}

/// The part of `area` that starts at `start` along the cut and reaches
/// `extent` far.
pub fn place(cut: Cut, area: &Area, start: u16, extent: u16) -> (part: Area)
    ensures
        part == placed(cut, *area, start as int, extent as int),
{
    match cut {
        Cut::Columns => Area { x: start, y: area.y, width: extent, height: area.height },
        Cut::Rows => Area { x: area.x, y: start, width: area.width, height: extent },
    }
}

/// Decides [`tiles`].
pub fn is_tiling(cut: Cut, area: &Area, parts: &Vec<Area>) -> (tiling: bool)
    ensures
        tiling == tiles(cut, *area, parts@),
{
    let count: usize = parts.len();
    if count == 0 {
        return false;
    }
    let mut expected: u32 = start_of(cut, area) as u32;
    let mut i: usize = 0;
    while i < count
        invariant
            0 <= i <= count,
            count == parts@.len(),
            count > 0,
            expected <= 2 * u16::MAX,
            forall|j: int| 0 <= j < i ==> spans(cut, *area, #[trigger] parts@[j]),
            i > 0 ==> start_along(cut, parts@[0]) == start_along(cut, *area),
            forall|j: int|
                0 < j < i ==> start_along(cut, #[trigger] parts@[j]) == end_along(
                    cut,
                    parts@[j - 1],
                ),
            i == 0 ==> expected == start_along(cut, *area),
            i > 0 ==> expected == end_along(cut, parts@[i - 1]),
        decreases count - i,
    {
        let part = &parts[i];
        if !spans_across(cut, area, part) {
            return false;
        }
        if start_of(cut, part) as u32 != expected {
            return false;
        }
        expected = start_of(cut, part) as u32 + extent_of(cut, part) as u32;
        i = i + 1;
    }
    let end: u32 = start_of(cut, area) as u32 + extent_of(cut, area) as u32;
    let limit: u32 = if end > 0xffff {
        0xffff
    } else {
        end
    };
    expected == limit
}

/// Decides [`shared`].
pub fn is_shared(cut: Cut, area: &Area, parts: &Vec<Area>, percentages: &Vec<u16>) -> (fair: bool)
    ensures
        fair == shared(cut, *area, parts@, percentages@),
{
    let count: usize = parts.len();
    if count != percentages.len() {
        return false;
    }
    let start: i64 = start_of(cut, area) as i64;
    let end: i64 = start + extent_of(cut, area) as i64;
    let whole: i64 = if end > 0xffff {
        0xffff - start
    } else {
        end - start
    };
    let mut i: usize = 0;
    while i < count
        invariant
            i <= count,
            count == parts@.len(),
            count == percentages@.len(),
            whole == whole_along(cut, *area),
            0 <= whole <= u16::MAX,
            forall|j: int|
                0 <= j < i ==> -100 <= 100 * extent_along(cut, #[trigger] parts@[j])
                    - percentages@[j] * whole_along(cut, *area) <= 100,
        decreases count - i,
    {
        let share: i64 = percentages[i] as i64;
        assert(0 <= share * whole <= 0xffff * 0xffff) by (nonlinear_arith)
            requires
                0 <= share <= 0xffff,
                0 <= whole <= 0xffff,
        ;
        let gap: i64 = 100 * (extent_of(cut, &parts[i]) as i64) - share * whole;
        if gap < -100 || gap > 100 {
            return false;
        }
        i = i + 1;
    }
    true
}

/// The division of `area` by shares.
pub fn divide_by_shares(cut: Cut, area: &Area, percentages: &Vec<u16>) -> (parts: Vec<Area>)
    ensures
        parts@ == by_shares(cut, *area, percentages@),
{
    let count: usize = percentages.len();
    let start: u16 = start_of(cut, area);
    let end: u32 = start as u32 + extent_of(cut, area) as u32;
    let limit: u16 = if end > 0xffff {
        0xffff
    } else {
        end as u16
    };
    let whole: u32 = (limit - start) as u32;
    let mut parts: Vec<Area> = Vec::new();
    let mut bound: u16 = start;
    let mut counted: u32 = 0;
    let mut i: usize = 0;
    while i < count
        invariant
            i <= count,
            count == percentages@.len(),
            start == start_along(cut, *area),
            limit == limit_along(cut, *area),
            whole == whole_along(cut, *area),
            bound == share_bound(cut, *area, percentages@, i as int),
            counted == capped(share_sum(percentages@, i as nat)),
            0 <= counted <= 100,
            parts@.len() == i,
            forall|j: int| 0 <= j < i ==> #[trigger] parts@[j] == by_shares(
                cut,
                *area,
                percentages@,
            )[j],
        decreases count - i,
    {
        proof {
            lemma_share_bounds_ordered(cut, *area, percentages@, i as int);
            lemma_share_sum_grows(percentages@, i as nat, (i + 1) as nat);
        }
        let sum: u32 = counted + percentages[i] as u32;
        counted = if sum > 100 {
            100
        } else {
            sum
        };
        let next: u16 = if i + 1 == count {
            limit
        } else {
            assert(0 <= (whole * counted) / 100 <= whole && whole * counted <= 0xffff * 100)
                by (nonlinear_arith)
                requires
                    0 <= counted <= 100,
                    0 <= whole <= 0xffff,
            ;
            (start as u32 + whole * counted / 100) as u16
        };
        parts.push(place(cut, area, bound, next - bound));
        bound = next;
        i = i + 1;
    }
    assert(parts@ =~= by_shares(cut, *area, percentages@));
    parts
}

/// Settles a cut of `area` by the given shares: the proposed parts are kept
/// where they divide the area and each has its share, and replaced by the
/// division by shares where they do not. What comes back divides the area
/// in either case, and where the shares sum to the whole each part has its
/// share.
pub fn settle(cut: Cut, area: &Area, percentages: &Vec<u16>, proposed: Vec<Area>) -> (parts: Vec<
    Area,
>)
    ensures
        parts@ == settled(cut, *area, percentages@, proposed@),
        parts@.len() == percentages@.len(),
        percentages@.len() > 0 ==> tiles(cut, *area, parts@),
        share_sum(percentages@, percentages@.len()) == 100 ==> shared(
            cut,
            *area,
            parts@,
            percentages@,
        ),
{
    if is_tiling(cut, area, &proposed) && is_shared(cut, area, &proposed, percentages) {
        proposed
    } else {
        proof {
            if percentages@.len() > 0 {
                lemma_by_shares_tiles(cut, *area, percentages@);
            }
            if share_sum(percentages@, percentages@.len()) == 100 {
                lemma_by_shares_shared(cut, *area, percentages@);
            }
        }
        divide_by_shares(cut, area, percentages)
    }
}

/// Cuts `area` into one part for each percentage: the parts that the layout
/// engine gives for these shares, settled.
fn cut_area(cut: Cut, percentages: &Vec<u16>, area: &Area) -> (parts: Vec<Area>)
    requires
        percentages@.len() > 0,
        share_sum(percentages@, percentages@.len()) == 100,
    ensures
        parts@.len() == percentages@.len(),
        tiles(cut, *area, parts@),
        shared(cut, *area, parts@, percentages@),
{
    settle(cut, area, percentages, split(cut, percentages, *area))
}

/// The division of the viewport: its two columns, the areas of the panels
/// in them, and the three bands of the gauge's frame.
#[derive(Clone, Copy, Debug, PartialEq, Eq, Structural)]
pub struct Regions {
    /// The left column, which holds the chart and the noise text.
    pub left: Area,
    /// The right column, which holds the event list and the gauge.
    pub right: Area,
    /// The chart, at the top of the left column.
    pub chart: Area,
    /// The noise text, below the chart.
    pub noise: Area,
    /// The event list, at the top of the right column.
    pub events: Area,
    /// The frame of the gauge, below the event list.
    pub gauge_frame: Area,
    /// The band of the gauge's frame above the bar.
    pub gauge_above: Area,
    /// The bar of the gauge, the middle band of its frame.
    pub gauge_bar: Area,
    /// The band of the gauge's frame below the bar.
    pub gauge_below: Area,
}

/// The shares of the two columns in the viewport, in percent.
pub open spec fn column_shares() -> Seq<u16> {
    seq![50u16, 50u16]
}

/// The shares of chart and noise text in the left column, in percent.
pub open spec fn left_shares() -> Seq<u16> {
    seq![20u16, 80u16]
}

/// The shares of event list and gauge in the right column, in percent.
pub open spec fn right_shares() -> Seq<u16> {
    seq![85u16, 15u16]
}

/// The shares of the three bands in the frame of the gauge, in percent.
pub open spec fn band_shares() -> Seq<u16> {
    seq![30u16, 40u16, 30u16]
}

impl Regions {
    /// The two columns, left first.
    pub open spec fn columns(&self) -> Seq<Area> {
        seq![self.left, self.right]
    }

    /// The rows of the left column, top first.
    pub open spec fn left_rows(&self) -> Seq<Area> {
        seq![self.chart, self.noise]
    }

    /// The rows of the right column, top first.
    pub open spec fn right_rows(&self) -> Seq<Area> {
        seq![self.events, self.gauge_frame]
    }

    /// The bands of the gauge's frame, top first.
    pub open spec fn bands(&self) -> Seq<Area> {
        seq![self.gauge_above, self.gauge_bar, self.gauge_below]
    }

    /// Whether the areas divide `viewport` as the dashboard does: the left
    /// and the right column, side by side, make up the viewport, half of it
    /// each; chart above noise text make up the left column, 20 to 80, and
    /// event list above gauge frame the right one, 85 to 15; and the frame
    /// of the gauge is made up of three bands, 30, 40, 30, one below the
    /// other, of which the bar is the middle one. Each share holds to within
    /// one cell.
    pub open spec fn divides(&self, viewport: Area) -> bool {
        &&& tiles(Cut::Columns, viewport, self.columns())
        &&& shared(Cut::Columns, viewport, self.columns(), column_shares())
        &&& tiles(Cut::Rows, self.left, self.left_rows())
        &&& shared(Cut::Rows, self.left, self.left_rows(), left_shares())
        &&& tiles(Cut::Rows, self.right, self.right_rows())
        &&& shared(Cut::Rows, self.right, self.right_rows(), right_shares())
        &&& tiles(Cut::Rows, self.gauge_frame, self.bands())
        &&& shared(Cut::Rows, self.gauge_frame, self.bands(), band_shares())
    }
}

/// Whether two columns stand in `viewport` as the dashboard's do: side by
/// side from its left edge to its right one, as high as the viewport, and
/// each half as wide to within one cell.
pub open spec fn in_halves(viewport: Area, left: Area, right: Area) -> bool {
    &&& spans(Cut::Columns, viewport, left)
    &&& spans(Cut::Columns, viewport, right)
    &&& left.x == viewport.x
    &&& right.x == left.x + left.width
    &&& right.x + right.width == limit_along(Cut::Columns, viewport)
    &&& is_share(Cut::Columns, viewport, left.width as int, 50)
    &&& is_share(Cut::Columns, viewport, right.width as int, 50)
}

/// Whether the panels lie in `viewport` as the dashboard's do, each share to
/// within one cell: the chart in the top left corner, half the viewport
/// wide and 20 percent high, with the noise text below it for the other 80;
/// to their right, as far as the viewport goes, the event list, 85 percent
/// high, with the frame of the gauge below it for the other 15; and in that
/// frame the bar of the gauge, as wide as the frame, below a band of 30
/// percent of the frame's height and itself 40 percent high.
pub open spec fn laid_out(
    viewport: Area,
    chart: Area,
    noise: Area,
    events: Area,
    frame: Area,
    bar: Area,
) -> bool {
    &&& chart.x == viewport.x
    &&& chart.y == viewport.y
    &&& is_share(Cut::Columns, viewport, chart.width as int, 50)
    &&& is_share(Cut::Rows, viewport, chart.height as int, 20)
    &&& spans(Cut::Rows, chart, noise)
    &&& noise.y == chart.y + chart.height
    &&& noise.y + noise.height == limit_along(Cut::Rows, viewport)
    &&& is_share(Cut::Rows, viewport, noise.height as int, 80)
    &&& events.x == chart.x + chart.width
    &&& events.y == viewport.y
    &&& events.x + events.width == limit_along(Cut::Columns, viewport)
    &&& is_share(Cut::Columns, viewport, events.width as int, 50)
    &&& is_share(Cut::Rows, viewport, events.height as int, 85)
    &&& spans(Cut::Rows, events, frame)
    &&& frame.y == events.y + events.height
    &&& frame.y + frame.height == limit_along(Cut::Rows, viewport)
    &&& is_share(Cut::Rows, viewport, frame.height as int, 15)
    &&& spans(Cut::Rows, frame, bar)
    &&& frame.y <= bar.y
    &&& bar.y + bar.height <= frame.y + frame.height
    &&& is_share(Cut::Rows, frame, bar.y - frame.y, 30)
    &&& is_share(Cut::Rows, frame, bar.height as int, 40)
}

/// A division of the viewport, said area by area: the columns stand in
/// halves, the panels are laid out in them, and the bands of the gauge's
/// frame lie one below the other.
pub proof fn lemma_division_nests(regions: Regions, viewport: Area)
    requires
        regions.divides(viewport),
    ensures
        in_halves(viewport, regions.left, regions.right),
        laid_out(
            viewport,
            regions.chart,
            regions.noise,
            regions.events,
            regions.gauge_frame,
            regions.gauge_bar,
        ),
        spans(Cut::Rows, regions.left, regions.chart),
        spans(Cut::Rows, regions.right, regions.events),
        spans(Cut::Rows, regions.gauge_frame, regions.gauge_above),
        spans(Cut::Rows, regions.gauge_frame, regions.gauge_below),
        regions.gauge_above.y == regions.gauge_frame.y,
        regions.gauge_bar.y == regions.gauge_above.y + regions.gauge_above.height,
        regions.gauge_below.y == regions.gauge_bar.y + regions.gauge_bar.height,
        regions.gauge_below.y + regions.gauge_below.height == limit_along(
            Cut::Rows,
            regions.gauge_frame,
        ),
        is_share(Cut::Rows, regions.gauge_frame, regions.gauge_below.height as int, 30),
{
    let columns = regions.columns();
    let left = regions.left_rows();
    let right = regions.right_rows();
    let bands = regions.bands();
    assert(columns[0] == regions.left && columns[1] == regions.right);
    assert(columns.last() == regions.right);
    assert(column_shares()[0] == 50 && column_shares()[1] == 50);
    assert(left[0] == regions.chart && left[1] == regions.noise);
    assert(left.last() == regions.noise);
    assert(left_shares()[0] == 20 && left_shares()[1] == 80);
    assert(right[0] == regions.events && right[1] == regions.gauge_frame);
    assert(right.last() == regions.gauge_frame);
    assert(right_shares()[0] == 85 && right_shares()[1] == 15);
    assert(bands[0] == regions.gauge_above && bands[1] == regions.gauge_bar && bands[2]
        == regions.gauge_below);
    assert(bands.last() == regions.gauge_below);
    assert(band_shares()[0] == 30 && band_shares()[1] == 40 && band_shares()[2] == 30);
    assert(whole_along(Cut::Rows, regions.left) == whole_along(Cut::Rows, viewport));
    assert(whole_along(Cut::Rows, regions.right) == whole_along(Cut::Rows, viewport));
}

/// Divides the viewport among the panels.
///
/// The viewport is cut into two columns of half the width. The left column
/// is cut 20 to 80 into chart and noise text, the right one 85 to 15 into
/// event list and gauge, and the gauge's frame is cut 30, 40, 30 into bands,
/// of which the middle one is for the bar. Each cut is proposed by the
/// layout engine and settled, so that its parts divide what was cut and
/// each has its share to within one cell.
pub fn arrange(viewport: Area) -> (regions: Regions)
    ensures
        regions.divides(viewport),
        in_halves(viewport, regions.left, regions.right),
        laid_out(
            viewport,
            regions.chart,
            regions.noise,
            regions.events,
            regions.gauge_frame,
            regions.gauge_bar,
        ),
{
    let halves: Vec<u16> = vec![50u16, 50u16];
    let chart_and_noise: Vec<u16> = vec![20u16, 80u16];
    let events_and_gauge: Vec<u16> = vec![85u16, 15u16];
    let three_bands: Vec<u16> = vec![30u16, 40u16, 30u16];
    proof {
        reveal_with_fuel(share_sum, 4);
        assert(halves@ =~= column_shares());
        assert(chart_and_noise@ =~= left_shares());
        assert(events_and_gauge@ =~= right_shares());
        assert(three_bands@ =~= band_shares());
    }
    let columns = cut_area(Cut::Columns, &halves, &viewport);
    let left = cut_area(Cut::Rows, &chart_and_noise, &columns[0]);
    let right = cut_area(Cut::Rows, &events_and_gauge, &columns[1]);
    let bands = cut_area(Cut::Rows, &three_bands, &right[1]);
    let regions = Regions {
        left: columns[0],
        right: columns[1],
        chart: left[0],
        noise: left[1],
        events: right[0],
        gauge_frame: right[1],
        gauge_above: bands[0],
        gauge_bar: bands[1],
        gauge_below: bands[2],
    };
    proof {
        assert(columns@ =~= regions.columns());
        assert(left@ =~= regions.left_rows());
        assert(right@ =~= regions.right_rows());
        assert(bands@ =~= regions.bands());
        lemma_division_nests(regions, viewport);
    }
    regions
}

} // verus!
