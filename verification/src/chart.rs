//! Settings shared by the charts, series types and calendar helpers of
//! heat maps.

use vstd::prelude::*;

use crate::color::Color;
use crate::date::{days_before_year, spec_first_weekday, spec_is_leap_year};

verus! {

/// Where a chart's legend goes.
#[derive(Debug, Clone, Copy, PartialEq, Eq, Structural)]
pub enum LegendPosition {
    /// Above the plot.
    Top,
    /// Below the plot.
    Bottom,
    /// Left of the plot.
    Left,
    /// Right of the plot.
    Right,
    /// No legend.
    Hidden,
}

/// How a rose chart maps values to sectors.
#[derive(Debug, Clone, Copy, PartialEq, Eq, Structural)]
pub enum RoseStyle {
    /// Radius proportional to the value.
    Radius,
    /// Area proportional to the value.
    Area,
}

/// Where data labels go.
#[derive(Debug, Clone, Copy, PartialEq, Eq, Structural)]
pub enum LabelPosition {
    /// Inside the shape.
    Inside,
    /// Outside the shape.
    Outside,
    /// Right of the shape.
    Right,
}

/// Marker drawn at data points.
#[derive(Debug, Clone, Copy, PartialEq, Eq, Structural)]
pub enum PointStyle {
    /// A disc.
    Circle,
    /// A diamond.
    Diamond,
    /// A cross.
    Cross,
}

/// Outline of a radar chart's grid.
#[derive(Debug, Clone, Copy, PartialEq, Eq, Structural)]
pub enum RadarShape {
    /// Polygonal grid.
    Polygon,
    /// Circular grid.
    Circle,
}

/// Outline of a funnel chart.
#[derive(Debug, Clone, Copy, PartialEq, Eq, Structural)]
pub enum FunnelShape {
    /// Trapezoids narrowing downwards.
    Normal,
    /// Narrowing evenly on both sides.
    Symmetric,
}

/// Alignment of a funnel chart's bars.
#[derive(Debug, Clone, Copy, PartialEq, Eq, Structural)]
pub enum FunnelAlign {
    /// Centred.
    Center,
    /// Left aligned.
    Left,
    /// Right aligned.
    Right,
}

/// How one series of a combined chart is drawn.
#[derive(Debug, Clone, Copy, PartialEq, Eq, Structural)]
pub enum ChartType {
    /// Bars.
    Bar,
    /// A line.
    Line,
    /// A filled line.
    Area,
}

/// The value axis a series of a combined chart uses.
#[derive(Debug, Clone, Copy, PartialEq, Eq, Structural)]
pub enum AxisSide {
    /// Left axis.
    Left,
    /// Right axis.
    Right,
}

/// Stroke of a line.
#[derive(Debug, Clone, Copy, PartialEq, Eq, Structural)]
pub enum LineStyle {
    /// Solid stroke.
    Solid,
    /// Dashed stroke.
    Dashed,
}

/// Shape of a gauge.
#[derive(Debug, Clone, Copy, PartialEq, Eq, Structural)]
pub enum GaugeType {
    /// Half circle.
    Dashboard,
    /// Full circle.
    Full,
    /// Ring.
    Ring,
}

/// What brings up a tooltip.
#[derive(Debug, Clone, Copy, PartialEq, Eq, Structural)]
pub enum TooltipTrigger {
    /// Hovering follows the item under the pointer.
    Hover,
    /// A click pins the item until the next click.
    Click,
}

impl Default for TooltipTrigger {
    fn default() -> (t: TooltipTrigger)
        ensures t == TooltipTrigger::Hover,
    {
        TooltipTrigger::Hover
    }
}

/// Role of a bar in a waterfall chart.
#[derive(Debug, Clone, Copy, PartialEq, Eq, Structural)]
pub enum WaterfallKind {
    /// A running total.
    Total,
    /// A rise.
    Increase,
    /// A fall.
    Decrease,
}

/// Which chart a chart widget draws.
#[derive(Debug, Clone, Copy, PartialEq, Eq, Structural)]
pub enum ChartKind {
    /// Nothing chosen yet.
    Generic,
    /// Bars.
    Bar,
    /// Lines.
    Line,
    /// Filled lines.
    Area,
    /// Scattered points or bubbles.
    Scatter,
    /// Radar.
    Radar,
    /// Heat map.
    Heatmap,
    /// Funnel.
    Funnel,
    /// Waterfall.
    Waterfall,
    /// Bars and lines combined.
    Combo,
    /// Tree map.
    Treemap,
    /// Gauge.
    Gauge,
}

/// Interaction settings of a chart.
#[derive(Debug, Clone, Copy, PartialEq, Eq, Structural)]
pub struct InteractionConfig {
    /// The wheel zooms.
    pub zoom: bool,
    /// Dragging pans.
    pub pan: bool,
    /// A crosshair follows the pointer.
    pub crosshair: bool,
}

/// Pointer state a chart keeps when it takes over new settings.
#[derive(Debug, Clone, Copy, PartialEq, Eq, Structural)]
pub struct SyncRetention {
    /// The hovered position is kept.
    pub hovered: bool,
    /// A pinned tooltip is kept.
    pub tooltip: bool,
    /// The pan offset is kept.
    pub pan: bool,
    /// The zoom factor is kept.
    pub zoom: bool,
}

/// What a chart keeps when it takes over settings with interaction
/// `interaction`, brushing on or off (`brush`) and tooltip trigger `tooltip`:
/// the hovered position while anything follows the pointer, a pinned tooltip
/// while tooltips are pinned by clicking, and pan and zoom while still enabled.
pub fn sync_retention(interaction: Option<InteractionConfig>, brush: bool, tooltip: Option<TooltipTrigger>) -> (r: SyncRetention)
    ensures
        r.hovered == (interaction is Some || brush || tooltip is Some),
        r.tooltip == (tooltip == Some(TooltipTrigger::Click)),
        r.pan == (interaction matches Some(c) && c.pan),
        r.zoom == (interaction matches Some(c) && c.zoom),
{
    let hovered = interaction.is_some() || brush || tooltip.is_some();
    let pinned = match tooltip {
        Some(TooltipTrigger::Click) => true,
        _ => false,
    };
    let (pan, zoom) = match interaction {
        Some(c) => (c.pan, c.zoom),
        None => (false, false),
    };
    SyncRetention { hovered, tooltip: pinned, pan, zoom }
}

/// A named series of chart data.
#[derive(Debug, Clone, PartialEq)]
pub struct ChartSeries<T> {
    /// Name shown in the legend and tooltips.
    pub name: String,
    /// The data.
    pub data: T,
}

impl<T> ChartSeries<T> {
    /// Creates a series.
    pub fn new(name: &str, data: T) -> (s: ChartSeries<T>)
        ensures s.name@ == name@, s.data == data,
    {
        ChartSeries { name: name.to_owned(), data }
    }
}

/// A series of a combined chart.
#[derive(Debug, Clone, PartialEq)]
pub struct ComboSeries<T> {
    /// Series name.
    pub name: String,
    /// The data.
    pub data: T,
    /// How the series is drawn.
    pub chart_type: ChartType,
    /// Value axis the series uses.
    pub axis: AxisSide,
    /// Stroke of the series' line.
    pub line_style: LineStyle,
}

impl<T> ComboSeries<T> {
    /// Creates a series drawn as a solid line on the left axis.
    pub fn new(name: &str, data: T) -> (s: ComboSeries<T>)
        ensures
            s.name@ == name@,
            s.data == data,
            s.chart_type == ChartType::Line,
            s.axis == AxisSide::Left,
            s.line_style == LineStyle::Solid,
    {
        ComboSeries {
            name: name.to_owned(),
            data,
            chart_type: ChartType::Line,
            axis: AxisSide::Left,
            line_style: LineStyle::Solid,
        }
    }

    /// Sets how the series is drawn.
    pub fn chart_type(self, chart_type: ChartType) -> (s: ComboSeries<T>)
        ensures
            s.name@ == self.name@,
            s.data == self.data,
            s.chart_type == chart_type,
            s.axis == self.axis,
            s.line_style == self.line_style,
    {
        let mut s = self;
        s.chart_type = chart_type;
        s
    }

    /// Sets the value axis.
    pub fn y_axis(self, axis: AxisSide) -> (s: ComboSeries<T>)
        ensures
            s.name@ == self.name@,
            s.data == self.data,
            s.chart_type == self.chart_type,
            s.axis == axis,
            s.line_style == self.line_style,
    {
        let mut s = self;
        s.axis = axis;
        s
    }

    /// Sets the stroke.
    pub fn line_style(self, line_style: LineStyle) -> (s: ComboSeries<T>)
        ensures
            s.name@ == self.name@,
            s.data == self.data,
            s.chart_type == self.chart_type,
            s.axis == self.axis,
            s.line_style == line_style,
    {
        let mut s = self;
        s.line_style = line_style;
        s
    }
}

/// Red, green and blue of the series palette, which repeats after six colours.
pub open spec fn palette_rgb(index: nat) -> (u8, u8, u8) {
    let i = index % 6;
    if i == 0 {
        (22u8, 119u8, 255u8)
    } else if i == 1 {
        (82u8, 196u8, 26u8)
    } else if i == 2 {
        (250u8, 173u8, 20u8)
    } else if i == 3 {
        (245u8, 34u8, 45u8)
    } else if i == 4 {
        (114u8, 46u8, 209u8)
    } else {
        (19u8, 194u8, 194u8)
    }
}

/// Opaque colour of series `index` in the palette.
pub fn palette_color(index: usize) -> (c: Color)
    ensures
        (c.r, c.g, c.b) == palette_rgb(index as nat),
        c.a == 255,
{
    let i = index % 6;
    let (r, g, b) = if i == 0 {
        (22u8, 119u8, 255u8)
    } else if i == 1 {
        (82u8, 196u8, 26u8)
    } else if i == 2 {
        (250u8, 173u8, 20u8)
    } else if i == 3 {
        (245u8, 34u8, 45u8)
    } else if i == 4 {
        (114u8, 46u8, 209u8)
    } else {
        (19u8, 194u8, 194u8)
    };
    Color::from_rgba(r, g, b, 255)
}

/// Slot of `value` among `count` equal slots of the span of length `extent`
/// that starts at `start`; a value before the span falls in the first slot and
/// one past it in the last. Without slots or span the slot is 0.
pub open spec fn spec_slot_index(value: int, start: int, extent: int, count: int) -> int {
    if count <= 0 || extent <= 0 || value < start {
        0
    } else if value - start >= extent {
        count - 1
    } else {
        (value - start) * count / extent
    }
}

/// Slot of `value` among `count` equal slots of the span `start`, `start + extent`.
pub fn slot_index(value: i32, start: i32, extent: u32, count: usize) -> (r: usize)
    ensures
        r == spec_slot_index(value as int, start as int, extent as int, count as int),
        count > 0 ==> r < count,
{
    if count == 0 || extent == 0 || value < start {
        return 0;
    }
    let offset: u64 = (value as i64 - start as i64) as u64;
    if offset >= extent as u64 {
        return count - 1;
    }
    let n: u128 = count as u128;
    let w: u128 = extent as u128;
    assert(offset * n <= 0xffff_ffff * 0xffff_ffff_ffff_ffff) by (nonlinear_arith)
        requires offset <= 0xffff_ffff, n <= 0xffff_ffff_ffff_ffff;
    let scaled: u128 = offset as u128 * n;
    assert(scaled / w < n) by (nonlinear_arith)
        requires offset < w, 0 < w, scaled == offset * n, 0 < n;
    (scaled / w) as usize
}

/// Whether entry `a` comes before entry `b` when entries are ordered by key
/// and then by position.
pub open spec fn key_order_before(keys: Seq<u32>, a: int, b: int) -> bool {
    keys[a] < keys[b] || (keys[a] == keys[b] && a < b)
}

/// Whether `order` lists the positions of `keys` sorted by key, equal keys
/// keeping their positions' order: a stable sort.
pub open spec fn is_stable_key_order(keys: Seq<u32>, order: Seq<usize>) -> bool {
    &&& order.len() == keys.len()
    &&& forall|i: int| 0 <= i < order.len() ==> #[trigger] order[i] < keys.len()
    &&& forall|i: int, j: int| 0 <= i < j < order.len() ==> key_order_before(keys, order[i] as int, order[j] as int)
}

/// The positions of `keys` in stable sorted order of their keys, used to sort
/// colour stops by position.
pub fn stable_key_order(keys: &[u32]) -> (order: Vec<usize>)
    ensures
        is_stable_key_order(keys@, order@),
        forall|q: usize| q < keys@.len() ==> #[trigger] order@.contains(q),
{
    let mut order: Vec<usize> = Vec::new();
    let n = keys.len();
    for i in 0..n
        invariant
            n == keys@.len(),
            order@.len() == i,
            forall|k: int| 0 <= k < order@.len() ==> #[trigger] order@[k] < i,
            forall|a: int, b: int| 0 <= a < b < order@.len() ==>
                key_order_before(keys@, order@[a] as int, order@[b] as int),
            forall|q: usize| q < i ==> #[trigger] order@.contains(q),
    {
        let key = keys[i];
        let mut p: usize = 0;
        while p < order.len() && keys[order[p]] <= key
            invariant
                n == keys@.len(),
                i < n,
                key == keys@[i as int],
                p <= order@.len(),
                forall|k: int| 0 <= k < order@.len() ==> #[trigger] order@[k] < i,
                forall|k: int| 0 <= k < p ==> keys@[#[trigger] order@[k] as int] <= key,
            decreases order@.len() - p,
        {
            p = p + 1;
        }
        let ghost before = order@;
        proof {
            assert forall|k: int| p <= k < before.len() implies keys@[#[trigger] before[k] as int] > key by {
                if p < before.len() {
                    assert(keys@[before[p as int] as int] > key);
                    if k > p {
                        assert(key_order_before(keys@, before[p as int] as int, before[k] as int));
                    }
                }
            }
        }
        order.insert(p, i);
        proof {
            assert forall|a: int, b: int| 0 <= a < b < order@.len() implies
                key_order_before(keys@, order@[a] as int, order@[b] as int) by {
                if b < p {
                    assert(order@[a] == before[a] && order@[b] == before[b]);
                } else if b == p {
                    assert(order@[a] == before[a]);
                    assert(keys@[before[a] as int] <= key);
                } else if a == p {
                    assert(order@[b] == before[b - 1]);
                } else if a < p {
                    assert(order@[a] == before[a] && order@[b] == before[b - 1]);
                    assert(key_order_before(keys@, before[a] as int, before[b - 1] as int));
                } else {
                    assert(order@[a] == before[a - 1] && order@[b] == before[b - 1]);
                    assert(key_order_before(keys@, before[a - 1] as int, before[b - 1] as int));
                }
            }
            assert forall|k: int| 0 <= k < order@.len() implies #[trigger] order@[k] < i + 1 by {
                if k < p {
                    assert(order@[k] == before[k]);
                } else if k > p {
                    assert(order@[k] == before[k - 1]);
                }
            }
            assert forall|q: usize| q < i + 1 implies #[trigger] order@.contains(q) by {
                if q == i {
                    assert(order@[p as int] == i);
                } else {
                    assert(before.contains(q));
                    let k = choose|k: int| 0 <= k < before.len() && before[k] == q;
                    if k < p {
                        assert(order@[k] == before[k]);
                    } else {
                        assert(order@[k + 1] == before[k]);
                    }
                }
            }
        }
    }
    order
}

/// Leap years of a heat-map calendar: Gregorian leap years other than year 0.
pub open spec fn spec_calendar_leap(year: int) -> bool {
    year != 0 && spec_is_leap_year(year)
}

/// Whether a heat-map calendar treats `year` as a leap year.
pub fn is_leap_year(year: i32) -> (r: bool)
    ensures r == spec_calendar_leap(year as int),
{
    year != 0 && crate::date::is_leap_year(year)
}

/// Days in the calendar year `year` of a heat map.
pub fn calendar_day_count(year: i32) -> (n: usize)
    ensures n == if spec_calendar_leap(year as int) { 366int } else { 365int },
{
    if is_leap_year(year) { 366 } else { 365 }
}

/// Weekday of January 1st of `year`, 0 for Sunday through 6 for Saturday;
/// year 0 gives 0.
pub open spec fn spec_january_first_weekday(year: int) -> int {
    if year == 0 {
        0
    } else {
        let p = year - 1;
        (p + p / 4 - p / 100 + p / 400 + 1) % 7
    }
}

/// Weekday of January 1st of `year`, counted from Sunday.
pub fn january_first_weekday(year: i32) -> (d: usize)
    ensures d == spec_january_first_weekday(year as int), d < 7,
{
    if year == 0 {
        return 0;
    }
    let p: i64 = year as i64 - 1;
    let q4 = match p.checked_div_euclid(4) { Some(v) => v, None => 0 };
    let q100 = match p.checked_div_euclid(100) { Some(v) => v, None => 0 };
    let q400 = match p.checked_div_euclid(400) { Some(v) => v, None => 0 };
    let total: i64 = p + q4 - q100 + q400 + 1;
    let r = match total.checked_rem_euclid(7) { Some(v) => v, None => 0 };
    r as usize
}

/// The heat-map calendar and the date calendar agree on the weekday of every
/// January 1st: Sunday-based here, Monday-based there.
pub proof fn lemma_january_first_matches_calendar(year: int)
    requires year != 0,
    ensures spec_january_first_weekday(year) == (spec_first_weekday(year, 1) + 1) % 7,
{
    let p = year - 1;
    let a = p + p / 4 - p / 100 + p / 400 + 1;
    let x = days_before_year(year);
    assert(x + 1 == 7 * (52 * p) + a);
    vstd::arithmetic::div_mod::lemma_mod_multiples_vanish(52 * p, a, 7);
    vstd::arithmetic::div_mod::lemma_add_mod_noop(x, 1, 7);
    assert(spec_first_weekday(year, 1) == x % 7);
}

} // verus!
