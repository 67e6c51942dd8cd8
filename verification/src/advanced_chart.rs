//! The chart widget of many kinds: its settings, how data and settings
//! choose the kind, whether it has data, its legend, and which item a
//! tooltip describes.

use vstd::prelude::*;

use crate::chart::{
    ChartKind, ChartType, FunnelAlign, FunnelShape, GaugeType, InteractionConfig, LabelPosition,
    LegendPosition, PointStyle, RadarShape, RoseStyle, calendar_day_count, january_first_weekday,
    slot_index, spec_calendar_leap, spec_january_first_weekday, spec_slot_index,
    lemma_january_first_matches_calendar,
};
use crate::date::{ordinal, spec_first_weekday};
use crate::color::Color;
use crate::geometry::{Point, Rect};
use crate::text::{decimal, push_decimal, push_text, texts};

verus! {

/// Largest row or column index a heat-map cell may have to count as data.
pub const MAX_HEATMAP_DIMENSION: usize = 4096;
/// Number of radar grid rings when none is chosen.
pub const DEFAULT_GRID_LEVELS: usize = 5;
/// Fill opacity of area charts, in thousandths, when none is chosen.
pub const DEFAULT_FILL_OPACITY: u32 = 250;
/// Most legend entries taken from a list of items.
pub const MAX_ITEM_LEGEND: usize = 8;

/// A series as the chart's logic reads it: its name and how many items it has.
#[derive(Debug, Clone, PartialEq, Eq)]
pub struct SeriesShape {
    /// Series name.
    pub name: String,
    /// Number of items.
    pub len: usize,
}

/// A series of a combined chart as the chart's logic reads it.
#[derive(Debug, Clone, PartialEq, Eq)]
pub struct ComboShape {
    /// Series name.
    pub name: String,
    /// Number of items.
    pub len: usize,
    /// How the series is drawn.
    pub chart_type: ChartType,
}

/// Position of a heat-map cell.
#[derive(Debug, Clone, Copy, PartialEq, Eq, Structural)]
pub struct CellIndex {
    /// Column.
    pub x: usize,
    /// Row.
    pub y: usize,
}

/// A data payload handed to a chart, as its logic reads it.
pub enum ChartData {
    /// Bars, by count.
    Bars(usize),
    /// Line points, by count.
    Lines(usize),
    /// Scatter points, by count.
    Scatter(usize),
    /// Bubbles, by count.
    Bubble(usize),
    /// Heat-map cells, by position.
    Heatmap(Vec<CellIndex>),
    /// Funnel stages, by label.
    Funnel(Vec<String>),
    /// Waterfall bars, by label.
    Waterfall(Vec<String>),
    /// Tree-map roots, by label.
    Treemap(Vec<String>),
    /// Data of a kind no chart draws.
    Unsupported,
}

/// A list of series handed to a chart.
pub enum ChartSeriesSet {
    /// Bar series.
    Bar(Vec<SeriesShape>),
    /// Line series.
    Line(Vec<SeriesShape>),
    /// Radar series.
    Radar(Vec<SeriesShape>),
    /// Scatter series.
    Scatter(Vec<SeriesShape>),
    /// Series of a combined chart.
    Combo(Vec<ComboShape>),
    /// Series of a kind no chart draws.
    Unsupported,
}

/// A grid outline, for radar or funnel charts.
#[derive(Debug, Clone, Copy, PartialEq, Eq, Structural)]
pub enum ChartShape {
    /// Outline of a radar grid.
    Radar(RadarShape),
    /// Outline of a funnel.
    Funnel(FunnelShape),
}

/// The data a chart holds.
pub enum ChartPayload {
    /// No data.
    Empty,
    /// Bars, by count.
    Bars(usize),
    /// Bar series.
    BarSeries(Vec<SeriesShape>),
    /// Line points, by count.
    Lines(usize),
    /// Line series.
    LineSeries(Vec<SeriesShape>),
    /// Scatter points, by count.
    Scatter(usize),
    /// Bubbles, by count.
    Bubble(usize),
    /// Scatter series.
    ScatterSeries(Vec<SeriesShape>),
    /// Heat-map cells.
    Heatmap(Vec<CellIndex>),
    /// Funnel stages.
    Funnel(Vec<String>),
    /// Waterfall bars.
    Waterfall(Vec<String>),
    /// Tree-map roots.
    Treemap(Vec<String>),
}

/// A series as plain values.
pub struct SeriesInfo {
    /// Series name.
    pub name: Seq<char>,
    /// Number of items.
    pub len: nat,
}

/// A series of a combined chart as plain values.
pub struct ComboInfo {
    /// Series name.
    pub name: Seq<char>,
    /// Number of items.
    pub len: nat,
    /// How the series is drawn.
    pub chart_type: ChartType,
}

/// The data a chart holds, as plain values.
pub enum PayloadModel {
    /// No data.
    Empty,
    /// Bars, by count.
    Bars(nat),
    /// Bar series.
    BarSeries(Seq<SeriesInfo>),
    /// Line points, by count.
    Lines(nat),
    /// Line series.
    LineSeries(Seq<SeriesInfo>),
    /// Scatter points, by count.
    Scatter(nat),
    /// Bubbles, by count.
    Bubble(nat),
    /// Scatter series.
    ScatterSeries(Seq<SeriesInfo>),
    /// Heat-map cells.
    Heatmap(Seq<CellIndex>),
    /// Funnel stages.
    Funnel(Seq<Seq<char>>),
    /// Waterfall bars.
    Waterfall(Seq<Seq<char>>),
    /// Tree-map roots.
    Treemap(Seq<Seq<char>>),
}

/// Plain view of a series.
pub open spec fn series_info(s: SeriesShape) -> SeriesInfo {
    SeriesInfo { name: s.name@, len: s.len as nat }
}

/// Plain view of a list of series.
pub open spec fn series_infos(v: Seq<SeriesShape>) -> Seq<SeriesInfo> {
    v.map_values(|s: SeriesShape| series_info(s))
}

/// Plain view of a list of combined-chart series.
pub open spec fn combo_infos(v: Seq<ComboShape>) -> Seq<ComboInfo> {
    v.map_values(|s: ComboShape| ComboInfo { name: s.name@, len: s.len as nat, chart_type: s.chart_type })
}

/// Plain view of a payload.
pub open spec fn payload_model(p: ChartPayload) -> PayloadModel {
    match p {
        ChartPayload::Empty => PayloadModel::Empty,
        ChartPayload::Bars(n) => PayloadModel::Bars(n as nat),
        ChartPayload::BarSeries(s) => PayloadModel::BarSeries(series_infos(s@)),
        ChartPayload::Lines(n) => PayloadModel::Lines(n as nat),
        ChartPayload::LineSeries(s) => PayloadModel::LineSeries(series_infos(s@)),
        ChartPayload::Scatter(n) => PayloadModel::Scatter(n as nat),
        ChartPayload::Bubble(n) => PayloadModel::Bubble(n as nat),
        ChartPayload::ScatterSeries(s) => PayloadModel::ScatterSeries(series_infos(s@)),
        ChartPayload::Heatmap(c) => PayloadModel::Heatmap(c@),
        ChartPayload::Funnel(l) => PayloadModel::Funnel(texts(l@)),
        ChartPayload::Waterfall(l) => PayloadModel::Waterfall(texts(l@)),
        ChartPayload::Treemap(l) => PayloadModel::Treemap(texts(l@)),
    }
}

/// The settings and data of a chart as plain values.
pub struct ChartModel {
    /// Which chart is drawn.
    pub kind: ChartKind,
    /// The data payload.
    pub payload: PayloadModel,
    /// Background colour, if chosen.
    pub background: Option<Color>,
    /// Legend position.
    pub legend: LegendPosition,
    /// Title.
    pub title: Seq<char>,
    /// Subtitle.
    pub subtitle: Seq<char>,
    /// The chart follows the space its parent offers.
    pub responsive: bool,
    /// Bars of several series stand side by side.
    pub grouped: bool,
    /// Series are stacked.
    pub stacked: bool,
    /// Bars run horizontally.
    pub horizontal: bool,
    /// Lines are smoothed.
    pub smooth: bool,
    /// Lines are drawn as steps.
    pub step: bool,
    /// Bars are drawn as a rose.
    pub rose: bool,
    /// Rose style.
    pub rose_style: RoseStyle,
    /// Data labels are shown.
    pub label_visible: bool,
    /// Where data labels go.
    pub label_position: LabelPosition,
    /// Title of the horizontal axis.
    pub x_axis: Seq<char>,
    /// Title of the left value axis.
    pub y_axis: Seq<char>,
    /// Title of the right value axis.
    pub y_axis_right: Seq<char>,
    /// Marker of scatter points.
    pub point_style: PointStyle,
    /// Number of radar grid rings.
    pub grid_levels: nat,
    /// Fill opacity of areas, in thousandths.
    pub fill_opacity: nat,
    /// Heat-map colour of the smallest value.
    pub color_min: Color,
    /// Heat-map colour of the largest value.
    pub color_max: Color,
    /// The heat map lays days out as a calendar.
    pub calendar_mode: bool,
    /// Year of the calendar heat map.
    pub year: int,
    /// Heat-map cells show their values.
    pub show_values: bool,
    /// Funnel stages show conversion rates.
    pub show_conversion_rate: bool,
    /// Funnel alignment.
    pub funnel_align: FunnelAlign,
    /// Funnel outline.
    pub funnel_shape: FunnelShape,
    /// Bar series of a combined chart.
    pub bar_series: Seq<SeriesInfo>,
    /// Line series of a combined chart.
    pub line_series: Seq<SeriesInfo>,
    /// Series of a combined chart as handed over.
    pub combo_series: Seq<ComboInfo>,
    /// Scatter series.
    pub scatter_series: Seq<SeriesInfo>,
    /// Radar axis labels.
    pub radar_axes: Seq<Seq<char>>,
    /// Radar series.
    pub radar_series: Seq<SeriesInfo>,
    /// Radar grid outline.
    pub radar_shape: RadarShape,
    /// Colours of the gauge bands.
    pub gauge_colors: Seq<Color>,
    /// Gauge shape.
    pub gauge_type: GaugeType,
    /// Gauge pointer colour, if chosen.
    pub pointer_color: Option<Color>,
    /// Interaction settings, if any.
    pub interaction: Option<InteractionConfig>,
    /// Heat-map column labels.
    pub x_labels: Seq<Seq<char>>,
    /// Heat-map row labels.
    pub y_labels: Seq<Seq<char>>,
    /// An entry animation is configured.
    pub animated: bool,
}

/// The settings of a new chart of kind `kind`.
pub open spec fn initial_chart(kind: ChartKind) -> ChartModel {
    ChartModel {
        kind,
        payload: PayloadModel::Empty,
        background: None,
        legend: LegendPosition::Hidden,
        title: Seq::empty(),
        subtitle: Seq::empty(),
        responsive: false,
        grouped: false,
        stacked: false,
        horizontal: false,
        smooth: false,
        step: false,
        rose: false,
        rose_style: RoseStyle::Radius,
        label_visible: true,
        label_position: LabelPosition::Outside,
        x_axis: Seq::empty(),
        y_axis: Seq::empty(),
        y_axis_right: Seq::empty(),
        point_style: PointStyle::Circle,
        grid_levels: DEFAULT_GRID_LEVELS as nat,
        fill_opacity: DEFAULT_FILL_OPACITY as nat,
        color_min: Color { r: 247, g: 251, b: 255, a: 255 },
        color_max: Color { r: 8, g: 48, b: 107, a: 255 },
        calendar_mode: false,
        year: 0,
        show_values: false,
        show_conversion_rate: false,
        funnel_align: FunnelAlign::Center,
        funnel_shape: FunnelShape::Normal,
        bar_series: Seq::empty(),
        line_series: Seq::empty(),
        combo_series: Seq::empty(),
        scatter_series: Seq::empty(),
        radar_axes: Seq::empty(),
        radar_series: Seq::empty(),
        radar_shape: RadarShape::Polygon,
        gauge_colors: Seq::empty(),
        gauge_type: GaugeType::Dashboard,
        pointer_color: None,
        interaction: None,
        x_labels: Seq::empty(),
        y_labels: Seq::empty(),
        animated: false,
    }
}

/// Whether some series of `s` has an item.
pub open spec fn any_nonempty(s: Seq<SeriesInfo>) -> bool {
    exists|i: int| 0 <= i < s.len() && #[trigger] s[i].len > 0
}

/// Whether a heat-map cell lies where the chart draws cells: within the days
/// of the year in calendar mode, else within the largest grid.
pub open spec fn cell_drawn(m: ChartModel, c: CellIndex) -> bool {
    if m.calendar_mode {
        c.x < (if spec_calendar_leap(m.year) { 366int } else { 365int })
    } else {
        c.x < MAX_HEATMAP_DIMENSION && c.y < MAX_HEATMAP_DIMENSION
    }
}

/// Whether some cell of `c` lies where chart `m` draws cells.
pub open spec fn any_cell_drawn(m: ChartModel, c: Seq<CellIndex>) -> bool {
    exists|i: int| 0 <= i < c.len() && #[trigger] cell_drawn(m, c[i])
}

/// Whether a chart has something to draw; a chart without data shows an
/// empty state instead.
pub open spec fn spec_has_data(m: ChartModel) -> bool {
    match m.kind {
        ChartKind::Generic => false,
        ChartKind::Bar => match m.payload {
            PayloadModel::Bars(n) => n > 0,
            PayloadModel::BarSeries(s) => any_nonempty(s),
            _ => any_nonempty(m.bar_series),
        },
        ChartKind::Line => match m.payload {
            PayloadModel::Lines(n) => n > 0,
            PayloadModel::LineSeries(s) => any_nonempty(s),
            _ => any_nonempty(m.line_series),
        },
        ChartKind::Area => match m.payload {
            PayloadModel::Lines(n) => n > 0,
            PayloadModel::LineSeries(s) => any_nonempty(s),
            _ => any_nonempty(m.line_series),
        },
        ChartKind::Scatter => match m.payload {
            PayloadModel::Scatter(n) => n > 0,
            PayloadModel::Bubble(n) => n > 0,
            PayloadModel::ScatterSeries(s) => any_nonempty(s),
            _ => any_nonempty(m.scatter_series),
        },
        ChartKind::Radar => any_nonempty(m.radar_series),
        ChartKind::Heatmap => match m.payload {
            PayloadModel::Heatmap(c) => any_cell_drawn(m, c),
            _ => false,
        },
        ChartKind::Funnel => match m.payload {
            PayloadModel::Funnel(d) => d.len() > 0,
            _ => false,
        },
        ChartKind::Waterfall => match m.payload {
            PayloadModel::Waterfall(d) => d.len() > 0,
            _ => false,
        },
        ChartKind::Combo => m.combo_series.len() > 0 || any_nonempty(m.bar_series) || any_nonempty(m.line_series),
        ChartKind::Treemap => match m.payload {
            PayloadModel::Treemap(d) => d.len() > 0,
            _ => false,
        },
        ChartKind::Gauge => true,
    }
}

/// Names of a list of series.
pub open spec fn series_names(s: Seq<SeriesInfo>) -> Seq<Seq<char>> {
    s.map_values(|x: SeriesInfo| x.name)
}

/// Names of a list of combined-chart series.
pub open spec fn combo_names(s: Seq<ComboInfo>) -> Seq<Seq<char>> {
    s.map_values(|x: ComboInfo| x.name)
}

/// The first eight labels of a list of items.
pub open spec fn item_legend(d: Seq<Seq<char>>) -> Seq<Seq<char>> {
    if d.len() <= MAX_ITEM_LEGEND { d } else { d.take(MAX_ITEM_LEGEND as int) }
}

/// Legend entries of a chart: series names, the first eight item labels,
/// the series handed over separately, the gauge's title (or "值"), or a single
/// "数据" entry for a plain list of values.
pub open spec fn spec_legend_labels(m: ChartModel) -> Seq<Seq<char>> {
    match m.payload {
        PayloadModel::BarSeries(s) => series_names(s),
        PayloadModel::LineSeries(s) => series_names(s),
        PayloadModel::ScatterSeries(s) => series_names(s),
        PayloadModel::Funnel(d) => item_legend(d),
        PayloadModel::Waterfall(d) => item_legend(d),
        PayloadModel::Treemap(d) => item_legend(d),
        PayloadModel::Empty => {
            if m.combo_series.len() > 0 {
                combo_names(m.combo_series)
            } else if m.radar_series.len() > 0 {
                series_names(m.radar_series)
            } else if m.bar_series.len() > 0 || m.line_series.len() > 0 {
                series_names(m.bar_series) + series_names(m.line_series)
            } else if m.kind == ChartKind::Gauge {
                seq![if m.title.len() == 0 { "值"@ } else { m.title }]
            } else {
                Seq::empty()
            }
        },
        _ => seq!["数据"@],
    }
}

/// The payload a chart holds after being handed `d`.
pub open spec fn data_payload(d: ChartData) -> PayloadModel {
    match d {
        ChartData::Bars(n) => PayloadModel::Bars(n as nat),
        ChartData::Lines(n) => PayloadModel::Lines(n as nat),
        ChartData::Scatter(n) => PayloadModel::Scatter(n as nat),
        ChartData::Bubble(n) => PayloadModel::Bubble(n as nat),
        ChartData::Heatmap(c) => PayloadModel::Heatmap(c@),
        ChartData::Funnel(l) => PayloadModel::Funnel(texts(l@)),
        ChartData::Waterfall(l) => PayloadModel::Waterfall(texts(l@)),
        ChartData::Treemap(l) => PayloadModel::Treemap(texts(l@)),
        ChartData::Unsupported => PayloadModel::Empty,
    }
}

/// The kind of a chart of kind `k` after being handed `d`: the data decides,
/// except that line points keep an area chart an area chart.
pub open spec fn data_kind(k: ChartKind, d: ChartData) -> ChartKind {
    match d {
        ChartData::Bars(_) => ChartKind::Bar,
        ChartData::Lines(_) => if k == ChartKind::Area { ChartKind::Area } else { ChartKind::Line },
        ChartData::Scatter(_) => ChartKind::Scatter,
        ChartData::Bubble(_) => ChartKind::Scatter,
        ChartData::Heatmap(_) => ChartKind::Heatmap,
        ChartData::Funnel(_) => ChartKind::Funnel,
        ChartData::Waterfall(_) => ChartKind::Waterfall,
        ChartData::Treemap(_) => ChartKind::Treemap,
        ChartData::Unsupported => k,
    }
}

/// Series of a combined chart drawn as bars, in order.
pub open spec fn combo_bars(s: Seq<ComboInfo>) -> Seq<SeriesInfo>
    decreases s.len(),
{
    if s.len() == 0 {
        Seq::empty()
    } else if s.last().chart_type == ChartType::Bar {
        combo_bars(s.drop_last()).push(SeriesInfo { name: s.last().name, len: s.last().len })
    } else {
        combo_bars(s.drop_last())
    }
}

/// Series of a combined chart drawn as lines or areas, in order.
pub open spec fn combo_lines(s: Seq<ComboInfo>) -> Seq<SeriesInfo>
    decreases s.len(),
{
    if s.len() == 0 {
        Seq::empty()
    } else if s.last().chart_type != ChartType::Bar {
        combo_lines(s.drop_last()).push(SeriesInfo { name: s.last().name, len: s.last().len })
    } else {
        combo_lines(s.drop_last())
    }
}

/// Splitting a combined chart loses no series and duplicates none: every
/// series becomes exactly one bar series or one line series.
pub proof fn lemma_combo_split_covers(s: Seq<ComboInfo>)
    ensures combo_bars(s).len() + combo_lines(s).len() == s.len(),
    decreases s.len(),
{
    if s.len() > 0 {
        lemma_combo_split_covers(s.drop_last());
    }
}

/// Positions, among `types`, of the series drawn as bars (`bars`) or as lines
/// and areas (`!bars`), in order.
pub open spec fn type_positions(types: Seq<ChartType>, bars: bool) -> Seq<usize>
    decreases types.len(),
{
    if types.len() == 0 {
        Seq::empty()
    } else if (types.last() == ChartType::Bar) == bars {
        type_positions(types.drop_last(), bars).push((types.len() - 1) as usize)
    } else {
        type_positions(types.drop_last(), bars)
    }
}

/// The settings of chart `m` after being handed the series `s`.
pub open spec fn after_series(m: ChartModel, s: ChartSeriesSet) -> ChartModel {
    match s {
        ChartSeriesSet::Bar(v) => ChartModel {
            bar_series: series_infos(v@),
            payload: PayloadModel::BarSeries(series_infos(v@)),
            kind: ChartKind::Bar,
            ..m
        },
        ChartSeriesSet::Line(v) => ChartModel {
            line_series: series_infos(v@),
            payload: PayloadModel::LineSeries(series_infos(v@)),
            kind: if m.kind == ChartKind::Generic { ChartKind::Line } else { m.kind },
            ..m
        },
        ChartSeriesSet::Radar(v) => ChartModel { radar_series: series_infos(v@), kind: ChartKind::Radar, ..m },
        ChartSeriesSet::Scatter(v) => ChartModel {
            scatter_series: series_infos(v@),
            payload: PayloadModel::ScatterSeries(series_infos(v@)),
            kind: ChartKind::Scatter,
            ..m
        },
        ChartSeriesSet::Combo(v) => ChartModel {
            combo_series: combo_infos(v@),
            bar_series: combo_bars(combo_infos(v@)),
            line_series: combo_lines(combo_infos(v@)),
            kind: ChartKind::Combo,
            ..m
        },
        ChartSeriesSet::Unsupported => m,
    }
}

/// Name of a chart kind as shown to assistive technology.
pub open spec fn spec_kind_label(k: ChartKind) -> Seq<char> {
    match k {
        ChartKind::Generic => "Chart"@,
        ChartKind::Bar => "Bar chart"@,
        ChartKind::Line => "Line chart"@,
        ChartKind::Area => "Area chart"@,
        ChartKind::Scatter => "Scatter chart"@,
        ChartKind::Radar => "Radar chart"@,
        ChartKind::Heatmap => "Heatmap chart"@,
        ChartKind::Funnel => "Funnel chart"@,
        ChartKind::Waterfall => "Waterfall chart"@,
        ChartKind::Combo => "Combo chart"@,
        ChartKind::Treemap => "Treemap chart"@,
        ChartKind::Gauge => "Gauge chart"@,
    }
}

/// A copy of a list of series.
fn clone_shapes(v: &Vec<SeriesShape>) -> (r: Vec<SeriesShape>)
    ensures series_infos(r@) == series_infos(v@),
{
    let mut r: Vec<SeriesShape> = Vec::new();
    let n = v.len();
    for i in 0..n
        invariant
            n == v@.len(),
            series_infos(r@) == series_infos(v@).take(i as int),
    {
        let item = SeriesShape { name: v[i].name.clone(), len: v[i].len };
        let ghost prev = r@;
        r.push(item);
        assert(series_infos(r@) =~= series_infos(prev).push(series_info(item)));
        assert(series_infos(r@) =~= series_infos(v@).take(i + 1));
    }
    assert(series_infos(v@).take(n as int) =~= series_infos(v@));
    r
}

/// Whether some series of `v` has an item.
fn has_nonempty(v: &Vec<SeriesShape>) -> (r: bool)
    ensures r == any_nonempty(series_infos(v@)),
{
    let n = v.len();
    for i in 0..n
        invariant
            n == v@.len(),
            forall|j: int| 0 <= j < i ==> #[trigger] series_infos(v@)[j].len == 0,
    {
        if v[i].len > 0 {
            assert(series_infos(v@)[i as int].len > 0);
            return true;
        }
    }
    false
}

/// Names of a list of series.
fn names_of(v: &Vec<SeriesShape>) -> (r: Vec<String>)
    ensures texts(r@) == series_names(series_infos(v@)),
{
    let mut r: Vec<String> = Vec::new();
    let n = v.len();
    for i in 0..n
        invariant
            n == v@.len(),
            texts(r@) == series_names(series_infos(v@)).take(i as int),
    {
        let name = v[i].name.clone();
        let ghost prev = r@;
        r.push(name);
        assert(texts(r@) =~= texts(prev).push(name@));
        assert(texts(r@) =~= series_names(series_infos(v@)).take(i + 1));
    }
    assert(series_names(series_infos(v@)).take(n as int) =~= series_names(series_infos(v@)));
    r
}

/// Up to the first eight labels of `v`.
fn first_labels(v: &Vec<String>) -> (r: Vec<String>)
    ensures texts(r@) == item_legend(texts(v@)),
{
    let n = if v.len() < MAX_ITEM_LEGEND { v.len() } else { MAX_ITEM_LEGEND };
    let mut r: Vec<String> = Vec::new();
    for i in 0..n
        invariant
            n <= v@.len(),
            n == if v@.len() < MAX_ITEM_LEGEND { v@.len() } else { MAX_ITEM_LEGEND as nat },
            texts(r@) == texts(v@).take(i as int),
    {
        let label = v[i].clone();
        let ghost prev = r@;
        r.push(label);
        assert(texts(r@) =~= texts(prev).push(label@));
        assert(texts(r@) =~= texts(v@).take(i + 1));
    }
    assert(texts(r@) =~= item_legend(texts(v@)));
    r
}

/// Positions of the series drawn as bars and of those drawn as lines or areas.
pub fn combo_split(types: &[ChartType]) -> (r: (Vec<usize>, Vec<usize>))
    ensures
        r.0@ == type_positions(types@, true),
        r.1@ == type_positions(types@, false),
{
    let mut bars: Vec<usize> = Vec::new();
    let mut lines: Vec<usize> = Vec::new();
    let n = types.len();
    for i in 0..n
        invariant
            n == types@.len(),
            bars@ == type_positions(types@.take(i as int), true),
            lines@ == type_positions(types@.take(i as int), false),
    {
        assert(types@.take(i + 1).drop_last() =~= types@.take(i as int));
        if types[i] == ChartType::Bar {
            bars.push(i);
        } else {
            lines.push(i);
        }
    }
    assert(types@.take(n as int) =~= types@);
    (bars, lines)
}

/// The payload and kind a chart of kind `kind` takes on when handed `d`.
fn data_parts(kind: ChartKind, d: ChartData) -> (r: (ChartPayload, ChartKind))
    ensures payload_model(r.0) == data_payload(d), r.1 == data_kind(kind, d),
{
    match d {
        ChartData::Bars(n) => (ChartPayload::Bars(n), ChartKind::Bar),
        ChartData::Lines(n) => (
            ChartPayload::Lines(n),
            if kind == ChartKind::Area { ChartKind::Area } else { ChartKind::Line },
        ),
        ChartData::Scatter(n) => (ChartPayload::Scatter(n), ChartKind::Scatter),
        ChartData::Bubble(n) => (ChartPayload::Bubble(n), ChartKind::Scatter),
        ChartData::Heatmap(cells) => (ChartPayload::Heatmap(cells), ChartKind::Heatmap),
        ChartData::Funnel(labels) => (ChartPayload::Funnel(labels), ChartKind::Funnel),
        ChartData::Waterfall(labels) => (ChartPayload::Waterfall(labels), ChartKind::Waterfall),
        ChartData::Treemap(labels) => (ChartPayload::Treemap(labels), ChartKind::Treemap),
        ChartData::Unsupported => (ChartPayload::Empty, kind),
    }
}

/// The series of a combined chart drawn as bars and those drawn as lines or areas.
fn split_combo(v: &Vec<ComboShape>) -> (r: (Vec<SeriesShape>, Vec<SeriesShape>))
    ensures
        series_infos(r.0@) == combo_bars(combo_infos(v@)),
        series_infos(r.1@) == combo_lines(combo_infos(v@)),
{
    let mut bars: Vec<SeriesShape> = Vec::new();
    let mut lines: Vec<SeriesShape> = Vec::new();
    let n = v.len();
    for i in 0..n
        invariant
            n == v@.len(),
            series_infos(bars@) == combo_bars(combo_infos(v@).take(i as int)),
            series_infos(lines@) == combo_lines(combo_infos(v@).take(i as int)),
    {
        assert(combo_infos(v@).take(i + 1).drop_last() =~= combo_infos(v@).take(i as int));
        let item = SeriesShape { name: v[i].name.clone(), len: v[i].len };
        if v[i].chart_type == ChartType::Bar {
            let ghost prev = bars@;
            bars.push(item);
            assert(series_infos(bars@) =~= series_infos(prev).push(series_info(item)));
        } else {
            let ghost prev = lines@;
            lines.push(item);
            assert(series_infos(lines@) =~= series_infos(prev).push(series_info(item)));
        }
    }
    assert(combo_infos(v@).take(n as int) =~= combo_infos(v@));
    (bars, lines)
}

/// The item of a chart's data a tooltip describes.
#[derive(Debug, Clone, Copy, PartialEq, Eq, Structural)]
pub enum TooltipTarget {
    /// Item `i` of the data list.
    Item(usize),
    /// Item `i` of the first series of the data.
    SeriesItem(usize),
    /// Heat-map cell `i` of the data.
    Cell(usize),
    /// Item `i` of the first radar series.
    Radar(usize),
    /// Item `i` of the first series of a combined chart.
    ComboItem(usize),
    /// Item `i` of the first bar series.
    BarSeriesItem(usize),
    /// Item `i` of the first line series.
    LineSeriesItem(usize),
    /// The gauge's value.
    Gauge,
}

/// Days of the calendar year of a heat map.
pub open spec fn calendar_days(year: int) -> int {
    if spec_calendar_leap(year) { 366 } else { 365 }
}

/// Largest column index among the cells, 0 when there are none.
pub open spec fn max_cell_x(c: Seq<CellIndex>) -> int
    decreases c.len(),
{
    if c.len() == 0 {
        0
    } else {
        let rest = max_cell_x(c.drop_last());
        if c.last().x > rest { c.last().x as int } else { rest }
    }
}

/// Largest row index among the cells, 0 when there are none.
pub open spec fn max_cell_y(c: Seq<CellIndex>) -> int
    decreases c.len(),
{
    if c.len() == 0 {
        0
    } else {
        let rest = max_cell_y(c.drop_last());
        if c.last().y > rest { c.last().y as int } else { rest }
    }
}

/// Columns of a heat map: the weeks of the year in calendar mode, else one
/// more than the largest column index, at most 4096.
pub open spec fn heatmap_columns(m: ChartModel, c: Seq<CellIndex>) -> int {
    if m.calendar_mode {
        (spec_january_first_weekday(m.year) + calendar_days(m.year) - 1) / 7 + 1
    } else if max_cell_x(c) + 1 < MAX_HEATMAP_DIMENSION {
        max_cell_x(c) + 1
    } else {
        MAX_HEATMAP_DIMENSION as int
    }
}

/// Rows of a heat map: the seven weekdays in calendar mode, else one more
/// than the largest row index, at most 4096.
pub open spec fn heatmap_rows(m: ChartModel, c: Seq<CellIndex>) -> int {
    if m.calendar_mode {
        7
    } else if max_cell_y(c) + 1 < MAX_HEATMAP_DIMENSION {
        max_cell_y(c) + 1
    } else {
        MAX_HEATMAP_DIMENSION as int
    }
}

/// Whether `cell` sits in grid column `x` and row `y`: in calendar mode by
/// its day of the year counted from the week of January 1st.
pub open spec fn cell_at(m: ChartModel, cell: CellIndex, x: int, y: int) -> bool {
    if m.calendar_mode {
        let day = spec_january_first_weekday(m.year) + cell.x;
        cell.x < calendar_days(m.year) && day / 7 == x && day % 7 == y
    } else {
        cell.x == x && cell.y == y
    }
}

/// Whether `i` is the first cell of `c` in column `x` and row `y`.
pub open spec fn first_cell_at(m: ChartModel, c: Seq<CellIndex>, x: int, y: int, i: int) -> bool {
    &&& 0 <= i < c.len()
    &&& cell_at(m, c[i], x, y)
    &&& forall|j: int| 0 <= j < i ==> !#[trigger] cell_at(m, c[j], x, y)
}

/// The heat-map cell under the pointer, if any.
pub open spec fn heatmap_target(m: ChartModel, c: Seq<CellIndex>, pos: Point, frame: Rect) -> Option<int> {
    let x = spec_slot_index(pos.x as int, frame.x as int, frame.w as int, heatmap_columns(m, c));
    let y = spec_slot_index(pos.y as int, frame.y as int, frame.h as int, heatmap_rows(m, c));
    if exists|i: int| first_cell_at(m, c, x, y, i) {
        Some(choose|i: int| first_cell_at(m, c, x, y, i))
    } else {
        None
    }
}

/// Label of an axis position: its label when there is one, else its number.
pub open spec fn axis_label(labels: Seq<Seq<char>>, i: int) -> Seq<char> {
    if 0 <= i < labels.len() { labels[i] } else { decimal(i as nat) }
}

/// Tooltip label of a heat-map cell: its row label, a space, its column label.
pub open spec fn spec_cell_label(m: ChartModel, cell: CellIndex) -> Seq<char> {
    axis_label(m.y_labels, cell.y as int) + seq![' '] + axis_label(m.x_labels, cell.x as int)
}

/// `o` turned into a tooltip target by `make`.
pub open spec fn target_of(o: Option<int>, make: spec_fn(usize) -> TooltipTarget) -> Option<TooltipTarget> {
    match o {
        Some(i) => Some(make(i as usize)),
        None => None,
    }
}

/// Category of `count` whose slot of the frame's width holds the pointer.
pub open spec fn category(pos: Point, frame: Rect, count: int) -> int {
    spec_slot_index(pos.x as int, frame.x as int, frame.w as int, count)
}

/// Item `category` of a list of `n` items, if there are any.
pub open spec fn item_target(pos: Point, frame: Rect, n: int) -> Option<int> {
    if n > 0 { Some(category(pos, frame, n)) } else { None }
}

/// The item of the data payload under the pointer.
pub open spec fn payload_target(m: ChartModel, pos: Point, frame: Rect) -> Option<TooltipTarget> {
    match m.payload {
        PayloadModel::Bars(n) => target_of(item_target(pos, frame, n as int), |i: usize| TooltipTarget::Item(i)),
        PayloadModel::Lines(n) => target_of(item_target(pos, frame, n as int), |i: usize| TooltipTarget::Item(i)),
        PayloadModel::Scatter(n) => target_of(item_target(pos, frame, n as int), |i: usize| TooltipTarget::Item(i)),
        PayloadModel::Bubble(n) => target_of(item_target(pos, frame, n as int), |i: usize| TooltipTarget::Item(i)),
        PayloadModel::Funnel(d) => target_of(item_target(pos, frame, d.len() as int), |i: usize| TooltipTarget::Item(i)),
        PayloadModel::Waterfall(d) => target_of(item_target(pos, frame, d.len() as int), |i: usize| TooltipTarget::Item(i)),
        PayloadModel::Treemap(d) => target_of(item_target(pos, frame, d.len() as int), |i: usize| TooltipTarget::Item(i)),
        PayloadModel::BarSeries(s) => target_of(first_series_target(s, pos, frame), |i: usize| TooltipTarget::SeriesItem(i)),
        PayloadModel::LineSeries(s) => target_of(first_series_target(s, pos, frame), |i: usize| TooltipTarget::SeriesItem(i)),
        PayloadModel::ScatterSeries(s) => target_of(first_series_target(s, pos, frame), |i: usize| TooltipTarget::SeriesItem(i)),
        PayloadModel::Heatmap(c) => target_of(heatmap_target(m, c, pos, frame), |i: usize| TooltipTarget::Cell(i)),
        PayloadModel::Empty => None,
    }
}

/// Item of the first series of `s` under the pointer.
pub open spec fn first_series_target(s: Seq<SeriesInfo>, pos: Point, frame: Rect) -> Option<int> {
    if s.len() > 0 { item_target(pos, frame, s[0].len as int) } else { None }
}

/// The item a tooltip at `pos` in `frame` describes: the data payload's item
/// under the pointer, else for radar, combined and gauge charts the item of
/// their first series (a combined chart tries its combined series, then its
/// bar series, then its line series) or the gauge's value.
pub open spec fn spec_tooltip_target(m: ChartModel, pos: Point, frame: Rect) -> Option<TooltipTarget> {
    let p = payload_target(m, pos, frame);
    if p is Some {
        p
    } else {
        match m.kind {
            ChartKind::Radar => target_of(first_series_target(m.radar_series, pos, frame), |i: usize| TooltipTarget::Radar(i)),
            ChartKind::Combo => {
                if m.combo_series.len() > 0 {
                    target_of(item_target(pos, frame, m.combo_series[0].len as int), |i: usize| TooltipTarget::ComboItem(i))
                } else if m.bar_series.len() > 0 {
                    target_of(item_target(pos, frame, m.bar_series[0].len as int), |i: usize| TooltipTarget::BarSeriesItem(i))
                } else {
                    target_of(first_series_target(m.line_series, pos, frame), |i: usize| TooltipTarget::LineSeriesItem(i))
                }
            },
            ChartKind::Gauge => Some(TooltipTarget::Gauge),
            _ => None,
        }
    }
}

/// In calendar mode the cell of day `d` of the year (counted from 0) sits in
/// exactly one place: the row of its weekday counted from Sunday, and the
/// column of its week counted from the week of January 1st, inside the grid.
pub proof fn lemma_calendar_cell_weekday(m: ChartModel, cell: CellIndex, c: Seq<CellIndex>)
    requires
        m.calendar_mode,
        m.year != 0,
        cell.x < calendar_days(m.year),
    ensures
        ({
            let jan1 = ordinal(m.year, 1, 1);
            let row = (ordinal(m.year, 1, 1 + cell.x) + 1) % 7;
            let col = (cell.x + (jan1 + 1) % 7) / 7;
            &&& cell_at(m, cell, col, row)
            &&& forall|x: int, y: int| #[trigger] cell_at(m, cell, x, y) ==> x == col && y == row
            &&& 0 <= row < heatmap_rows(m, c)
            &&& 0 <= col < heatmap_columns(m, c)
        }),
{
    let jan1 = ordinal(m.year, 1, 1);
    let d = cell.x as int;
    lemma_january_first_matches_calendar(m.year);
    assert(spec_first_weekday(m.year, 1) == jan1 % 7);
    vstd::arithmetic::div_mod::lemma_add_mod_noop(jan1, 1, 7);
    let w = spec_january_first_weekday(m.year);
    assert(w == (jan1 + 1) % 7);
    assert(ordinal(m.year, 1, 1 + d) == jan1 + d);
    vstd::arithmetic::div_mod::lemma_add_mod_noop(jan1 + 1, d, 7);
    vstd::arithmetic::div_mod::lemma_add_mod_noop(w, d, 7);
    vstd::arithmetic::div_mod::lemma_small_mod(w as nat, 7);
    assert((w + d) % 7 == (jan1 + 1 + d) % 7);
    assert(0 <= w < 7);
    assert((w + d) / 7 <= (w + calendar_days(m.year) - 1) / 7) by {
        vstd::arithmetic::div_mod::lemma_div_is_ordered(w + d, w + calendar_days(m.year) - 1, 7);
    }
}

/// Number of items of a payload whose items sit in categories along the
/// horizontal axis (bars, lines, scatter points, bubbles, funnel stages,
/// waterfall bars, tree-map roots); none for other payloads.
pub open spec fn category_item_count(p: PayloadModel) -> Option<int> {
    match p {
        PayloadModel::Bars(n) => Some(n as int),
        PayloadModel::Lines(n) => Some(n as int),
        PayloadModel::Scatter(n) => Some(n as int),
        PayloadModel::Bubble(n) => Some(n as int),
        PayloadModel::Funnel(d) => Some(d.len() as int),
        PayloadModel::Waterfall(d) => Some(d.len() as int),
        PayloadModel::Treemap(d) => Some(d.len() as int),
        _ => None,
    }
}

/// For a payload of `n` items in categories, the tooltip shows the item of the
/// slot of the frame's width holding the pointer's x: slot `k` of `n` equal
/// slots covers `k * w <= (x - frame.x) * n < (k + 1) * w`, left of the frame
/// is item 0 and right of it the last item. The pointer's y plays no part.
pub proof fn lemma_category_tooltip_follows_x(m: ChartModel, pos: Point, frame: Rect, y: i32)
    requires category_item_count(m.payload) matches Some(n) && n > 0,
    ensures
        ({
            let n = category_item_count(m.payload)->0;
            let k = spec_slot_index(pos.x as int, frame.x as int, frame.w as int, n);
            &&& spec_tooltip_target(m, pos, frame) == Some(TooltipTarget::Item(k as usize))
            &&& spec_tooltip_target(m, Point { x: pos.x, y }, frame) == spec_tooltip_target(m, pos, frame)
            &&& 0 <= k < n
            &&& pos.x < frame.x ==> k == 0
            &&& frame.w > 0 && pos.x >= frame.x + frame.w ==> k == n - 1
            &&& frame.w > 0 && frame.x <= pos.x < frame.x + frame.w ==>
                k * frame.w <= (pos.x - frame.x) * n < (k + 1) * frame.w
        }),
{
    let n = category_item_count(m.payload)->0;
    let w = frame.w as int;
    let d = pos.x - frame.x;
    let k = spec_slot_index(pos.x as int, frame.x as int, frame.w as int, n);
    if w > 0 && 0 <= d < w {
        assert(k == (d * n) / w);
        vstd::arithmetic::div_mod::lemma_fundamental_div_mod(d * n, w);
        assert(0 <= d * n < w * n) by (nonlinear_arith) requires 0 <= d < w, n > 0;
        assert(0 <= (d * n) / w < n) by (nonlinear_arith) requires 0 <= d * n < w * n, w > 0;
        assert(k * w <= d * n < (k + 1) * w) by (nonlinear_arith)
            requires d * n == w * ((d * n) / w) + (d * n) % w, 0 <= (d * n) % w < w, k == (d * n) / w;
    }
}

/// Series of a payload of named series (bar, line or scatter series); none
/// for other payloads.
pub open spec fn payload_series(p: PayloadModel) -> Option<Seq<SeriesInfo>> {
    match p {
        PayloadModel::BarSeries(v) => Some(v),
        PayloadModel::LineSeries(v) => Some(v),
        PayloadModel::ScatterSeries(v) => Some(v),
        _ => None,
    }
}

/// For a payload of series whose first series has `n > 0` items, the tooltip
/// shows item `k` of the first series, `k` being the slot of the frame's width
/// holding the pointer's x among `n` equal slots; the pointer's y plays no part.
pub proof fn lemma_series_tooltip_follows_x(m: ChartModel, pos: Point, frame: Rect, y: i32)
    requires payload_series(m.payload) matches Some(v) && v.len() > 0 && v[0].len > 0,
    ensures
        ({
            let n = payload_series(m.payload)->0[0].len as int;
            let k = spec_slot_index(pos.x as int, frame.x as int, frame.w as int, n);
            &&& spec_tooltip_target(m, pos, frame) == Some(TooltipTarget::SeriesItem(k as usize))
            &&& spec_tooltip_target(m, Point { x: pos.x, y }, frame) == spec_tooltip_target(m, pos, frame)
            &&& 0 <= k < n
        }),
{
    let n = payload_series(m.payload)->0[0].len as int;
    let w = frame.w as int;
    let d = pos.x - frame.x;
    if w > 0 && 0 <= d < w {
        assert(0 <= d * n < w * n) by (nonlinear_arith) requires 0 <= d < w, n > 0;
        assert(0 <= (d * n) / w < n) by (nonlinear_arith) requires 0 <= d * n < w * n, w > 0;
    }
}

/// Category of `count` whose slot of `frame`'s width holds `pos`; 0 without
/// categories or width.
pub fn category_index(pos: Point, frame: Rect, count: usize) -> (r: usize)
    ensures
        r == category(pos, frame, count as int),
        count > 0 ==> r < count,
{
    slot_index(pos.x, frame.x, frame.w, count)
}

fn max_x_of(c: &Vec<CellIndex>) -> (r: usize)
    ensures r == max_cell_x(c@),
{
    let mut best: usize = 0;
    let n = c.len();
    for i in 0..n
        invariant
            n == c@.len(),
            best == max_cell_x(c@.take(i as int)),
    {
        assert(c@.take(i + 1).drop_last() =~= c@.take(i as int));
        if c[i].x > best {
            best = c[i].x;
        }
    }
    assert(c@.take(n as int) =~= c@);
    best
}

fn max_y_of(c: &Vec<CellIndex>) -> (r: usize)
    ensures r == max_cell_y(c@),
{
    let mut best: usize = 0;
    let n = c.len();
    for i in 0..n
        invariant
            n == c@.len(),
            best == max_cell_y(c@.take(i as int)),
    {
        assert(c@.take(i + 1).drop_last() =~= c@.take(i as int));
        if c[i].y > best {
            best = c[i].y;
        }
    }
    assert(c@.take(n as int) =~= c@);
    best
}

proof fn lemma_first_cell_unique(m: ChartModel, c: Seq<CellIndex>, x: int, y: int, i: int, j: int)
    requires first_cell_at(m, c, x, y, i), first_cell_at(m, c, x, y, j),
    ensures i == j,
{
    if i < j {
        assert(!cell_at(m, c[i], x, y));
    } else if j < i {
        assert(!cell_at(m, c[j], x, y));
    }
}

/// Appends the label of axis position `i`: its label, else its number.
fn push_axis_label(s: &mut String, labels: &Vec<String>, i: usize)
    ensures final(s)@ == old(s)@ + axis_label(texts(labels@), i as int),
{
    if i < labels.len() {
        push_text(s, labels[i].as_str());
    } else {
        push_decimal(s, i as u128);
    }
}

/// Tooltip label of radar axis `index`: the axis name, or its number where
/// the chart names fewer axes.
pub fn radar_axis_label(axes: &Vec<String>, index: usize) -> (r: String)
    ensures r@ == axis_label(texts(axes@), index as int),
{
    let mut s = String::new();
    push_axis_label(&mut s, axes, index);
    s
}

fn series_hit(v: &Vec<SeriesShape>, pos: Point, frame: Rect) -> (r: Option<TooltipTarget>)
    ensures r == target_of(first_series_target(series_infos(v@), pos, frame), |i: usize| TooltipTarget::SeriesItem(i)),
{
    if v.len() > 0 && v[0].len > 0 {
        Some(TooltipTarget::SeriesItem(category_index(pos, frame, v[0].len)))
    } else {
        None
    }
}

/// A chart of one of several kinds, chosen by its data and settings.
pub struct ChartPlaceholder {
    kind: ChartKind,
    payload: ChartPayload,
    background: Option<Color>,
    legend: LegendPosition,
    title: String,
    subtitle: String,
    responsive: bool,
    grouped: bool,
    stacked: bool,
    horizontal: bool,
    smooth: bool,
    step: bool,
    rose: bool,
    rose_style: RoseStyle,
    label_visible: bool,
    label_position: LabelPosition,
    x_axis: String,
    y_axis: String,
    y_axis_right: String,
    point_style: PointStyle,
    grid_levels: usize,
    fill_opacity: u32,
    color_min: Color,
    color_max: Color,
    calendar_mode: bool,
    year: i32,
    show_values: bool,
    show_conversion_rate: bool,
    funnel_align: FunnelAlign,
    funnel_shape: FunnelShape,
    bar_series: Vec<SeriesShape>,
    line_series: Vec<SeriesShape>,
    combo_series: Vec<ComboShape>,
    scatter_series: Vec<SeriesShape>,
    radar_axes: Vec<String>,
    radar_series: Vec<SeriesShape>,
    radar_shape: RadarShape,
    gauge_colors: Vec<Color>,
    gauge_type: GaugeType,
    pointer_color: Option<Color>,
    interaction: Option<InteractionConfig>,
    x_labels: Vec<String>,
    y_labels: Vec<String>,
    animated: bool,
}

impl View for ChartPlaceholder {
    type V = ChartModel;

    closed spec fn view(&self) -> ChartModel {
        ChartModel {
            kind: self.kind,
            payload: payload_model(self.payload),
            background: self.background,
            legend: self.legend,
            title: self.title@,
            subtitle: self.subtitle@,
            responsive: self.responsive,
            grouped: self.grouped,
            stacked: self.stacked,
            horizontal: self.horizontal,
            smooth: self.smooth,
            step: self.step,
            rose: self.rose,
            rose_style: self.rose_style,
            label_visible: self.label_visible,
            label_position: self.label_position,
            x_axis: self.x_axis@,
            y_axis: self.y_axis@,
            y_axis_right: self.y_axis_right@,
            point_style: self.point_style,
            grid_levels: self.grid_levels as nat,
            fill_opacity: self.fill_opacity as nat,
            color_min: self.color_min,
            color_max: self.color_max,
            calendar_mode: self.calendar_mode,
            year: self.year as int,
            show_values: self.show_values,
            show_conversion_rate: self.show_conversion_rate,
            funnel_align: self.funnel_align,
            funnel_shape: self.funnel_shape,
            bar_series: series_infos(self.bar_series@),
            line_series: series_infos(self.line_series@),
            combo_series: combo_infos(self.combo_series@),
            scatter_series: series_infos(self.scatter_series@),
            radar_axes: texts(self.radar_axes@),
            radar_series: series_infos(self.radar_series@),
            radar_shape: self.radar_shape,
            gauge_colors: self.gauge_colors@,
            gauge_type: self.gauge_type,
            pointer_color: self.pointer_color,
            interaction: self.interaction,
            x_labels: texts(self.x_labels@),
            y_labels: texts(self.y_labels@),
            animated: self.animated,
        }
    }
}

impl ChartPlaceholder {
    /// Creates a chart of no particular kind with the default settings.
    pub fn new() -> (c: ChartPlaceholder)
        ensures c@ == initial_chart(ChartKind::Generic),
    {
        Self::new_with_kind(ChartKind::Generic)
    }

    /// Creates a chart of kind `kind` with the default settings.
    pub fn new_with_kind(kind: ChartKind) -> (c: ChartPlaceholder)
        ensures c@ == initial_chart(kind),
    {
        let c = ChartPlaceholder {
            kind,
            payload: ChartPayload::Empty,
            background: None,
            legend: LegendPosition::Hidden,
            title: String::new(),
            subtitle: String::new(),
            responsive: false,
            grouped: false,
            stacked: false,
            horizontal: false,
            smooth: false,
            step: false,
            rose: false,
            rose_style: RoseStyle::Radius,
            label_visible: true,
            label_position: LabelPosition::Outside,
            x_axis: String::new(),
            y_axis: String::new(),
            y_axis_right: String::new(),
            point_style: PointStyle::Circle,
            grid_levels: DEFAULT_GRID_LEVELS,
            fill_opacity: DEFAULT_FILL_OPACITY,
            color_min: Color::from_rgba(247, 251, 255, 255),
            color_max: Color::from_rgba(8, 48, 107, 255),
            calendar_mode: false,
            year: 0,
            show_values: false,
            show_conversion_rate: false,
            funnel_align: FunnelAlign::Center,
            funnel_shape: FunnelShape::Normal,
            bar_series: Vec::new(),
            line_series: Vec::new(),
            combo_series: Vec::new(),
            scatter_series: Vec::new(),
            radar_axes: Vec::new(),
            radar_series: Vec::new(),
            radar_shape: RadarShape::Polygon,
            gauge_colors: Vec::new(),
            gauge_type: GaugeType::Dashboard,
            pointer_color: None,
            interaction: None,
            x_labels: Vec::new(),
            y_labels: Vec::new(),
            animated: false,
        };
        assert(series_infos(c.bar_series@) =~= Seq::empty());
        assert(series_infos(c.line_series@) =~= Seq::empty());
        assert(combo_infos(c.combo_series@) =~= Seq::empty());
        assert(series_infos(c.scatter_series@) =~= Seq::empty());
        assert(series_infos(c.radar_series@) =~= Seq::empty());
        assert(texts(c.radar_axes@) =~= Seq::empty());
        assert(texts(c.x_labels@) =~= Seq::empty());
        assert(texts(c.y_labels@) =~= Seq::empty());
        c
    }

    /// Draws bars of several series side by side.
    pub fn grouped(self, value: bool) -> (c: ChartPlaceholder)
        ensures c@ == (ChartModel { grouped: value, ..self@ }),
    {
        let mut c = self;
        c.grouped = value;
        c
    }

    /// Stacks the series.
    pub fn stacked(self, value: bool) -> (c: ChartPlaceholder)
        ensures c@ == (ChartModel { stacked: value, ..self@ }),
    {
        let mut c = self;
        c.stacked = value;
        c
    }

    /// Lays bars out horizontally.
    pub fn horizontal(self, value: bool) -> (c: ChartPlaceholder)
        ensures c@ == (ChartModel { horizontal: value, ..self@ }),
    {
        let mut c = self;
        c.horizontal = value;
        c
    }

    /// Sets where the legend goes.
    pub fn legend(self, value: LegendPosition) -> (c: ChartPlaceholder)
        ensures c@ == (ChartModel { legend: value, ..self@ }),
    {
        let mut c = self;
        c.legend = value;
        c
    }

    /// Smooths lines.
    pub fn smooth(self, value: bool) -> (c: ChartPlaceholder)
        ensures c@ == (ChartModel { smooth: value, ..self@ }),
    {
        let mut c = self;
        c.smooth = value;
        c
    }

    /// Draws lines as steps.
    pub fn step(self, value: bool) -> (c: ChartPlaceholder)
        ensures c@ == (ChartModel { step: value, ..self@ }),
    {
        let mut c = self;
        c.step = value;
        c
    }

    /// Sets the rose style.
    pub fn rose_style(self, value: RoseStyle) -> (c: ChartPlaceholder)
        ensures c@ == (ChartModel { rose_style: value, ..self@ }),
    {
        let mut c = self;
        c.rose_style = value;
        c
    }

    /// Shows or hides data labels.
    pub fn label_visible(self, value: bool) -> (c: ChartPlaceholder)
        ensures c@ == (ChartModel { label_visible: value, ..self@ }),
    {
        let mut c = self;
        c.label_visible = value;
        c
    }

    /// Sets where data labels go.
    pub fn label_position(self, value: LabelPosition) -> (c: ChartPlaceholder)
        ensures c@ == (ChartModel { label_position: value, ..self@ }),
    {
        let mut c = self;
        c.label_position = value;
        c
    }

    /// Sets the title of the horizontal axis.
    pub fn x_axis(self, value: &str) -> (c: ChartPlaceholder)
        ensures c@ == (ChartModel { x_axis: value@, ..self@ }),
    {
        let mut c = self;
        c.x_axis = value.to_owned();
        c
    }

    /// Sets the title of the value axis.
    pub fn y_axis(self, value: &str) -> (c: ChartPlaceholder)
        ensures c@ == (ChartModel { y_axis: value@, ..self@ }),
    {
        let mut c = self;
        c.y_axis = value.to_owned();
        c
    }

    /// Sets the marker of scatter points.
    pub fn point_style(self, value: PointStyle) -> (c: ChartPlaceholder)
        ensures c@ == (ChartModel { point_style: value, ..self@ }),
    {
        let mut c = self;
        c.point_style = value;
        c
    }

    /// Sets the year of the calendar heat map.
    pub fn year(self, value: i32) -> (c: ChartPlaceholder)
        ensures c@ == (ChartModel { year: value as int, ..self@ }),
    {
        let mut c = self;
        c.year = value;
        c
    }

    /// Shows or hides values in heat-map cells.
    pub fn show_values(self, value: bool) -> (c: ChartPlaceholder)
        ensures c@ == (ChartModel { show_values: value, ..self@ }),
    {
        let mut c = self;
        c.show_values = value;
        c
    }

    /// Shows or hides funnel conversion rates.
    pub fn show_conversion_rate(self, value: bool) -> (c: ChartPlaceholder)
        ensures c@ == (ChartModel { show_conversion_rate: value, ..self@ }),
    {
        let mut c = self;
        c.show_conversion_rate = value;
        c
    }

    /// Sets the alignment of funnel stages.
    pub fn align(self, value: FunnelAlign) -> (c: ChartPlaceholder)
        ensures c@ == (ChartModel { funnel_align: value, ..self@ }),
    {
        let mut c = self;
        c.funnel_align = value;
        c
    }

    /// Sets the title of the left value axis, as `y_axis` does.
    pub fn y_axis_left(self, value: &str) -> (c: ChartPlaceholder)
        ensures c@ == (ChartModel { y_axis: value@, ..self@ }),
    {
        let mut c = self;
        c.y_axis = value.to_owned();
        c
    }

    /// Sets the title of the right value axis.
    pub fn y_axis_right(self, value: &str) -> (c: ChartPlaceholder)
        ensures c@ == (ChartModel { y_axis_right: value@, ..self@ }),
    {
        let mut c = self;
        c.y_axis_right = value.to_owned();
        c
    }

    /// Sets the title.
    pub fn title(self, value: &str) -> (c: ChartPlaceholder)
        ensures c@ == (ChartModel { title: value@, ..self@ }),
    {
        let mut c = self;
        c.title = value.to_owned();
        c
    }

    /// Sets the subtitle.
    pub fn subtitle(self, value: &str) -> (c: ChartPlaceholder)
        ensures c@ == (ChartModel { subtitle: value@, ..self@ }),
    {
        let mut c = self;
        c.subtitle = value.to_owned();
        c
    }

    /// Sets the colour of the gauge pointer.
    pub fn pointer_color(self, value: Color) -> (c: ChartPlaceholder)
        ensures c@ == (ChartModel { pointer_color: Some(value), ..self@ }),
    {
        let mut c = self;
        c.pointer_color = Some(value);
        c
    }

    /// Sets the background colour.
    pub fn bg(self, value: Color) -> (c: ChartPlaceholder)
        ensures c@ == (ChartModel { background: Some(value), ..self@ }),
    {
        let mut c = self;
        c.background = Some(value);
        c
    }

    /// Makes the chart follow the space its parent offers.
    pub fn responsive(self, value: bool) -> (c: ChartPlaceholder)
        ensures c@ == (ChartModel { responsive: value, ..self@ }),
    {
        let mut c = self;
        c.responsive = value;
        c
    }

    /// Sets the interaction settings.
    pub fn interactive(self, value: InteractionConfig) -> (c: ChartPlaceholder)
        ensures c@ == (ChartModel { interaction: Some(value), ..self@ }),
    {
        let mut c = self;
        c.interaction = Some(value);
        c
    }

    /// Sets the colours at the two ends of the heat-map scale.
    pub fn color_range(self, min: Color, max: Color) -> (c: ChartPlaceholder)
        ensures c@ == (ChartModel { color_min: min, color_max: max, ..self@ }),
    {
        let mut c = self;
        c.color_min = min;
        c.color_max = max;
        c
    }

    /// Configures an entry animation.
    pub fn animation(self) -> (c: ChartPlaceholder)
        ensures c@ == (ChartModel { animated: true, ..self@ }),
    {
        let mut c = self;
        c.animated = true;
        c
    }

    /// Draws bars as a rose; turning it on makes the chart a bar chart.
    pub fn rose(self, value: bool) -> (c: ChartPlaceholder)
        ensures
            c@ == (ChartModel { rose: value, kind: if value { ChartKind::Bar } else { self@.kind }, ..self@ }),
    {
        let mut c = self;
        c.rose = value;
        if value {
            c.kind = ChartKind::Bar;
        }
        c
    }

    /// Sets the radar axes and makes the chart a radar chart.
    pub fn axes(self, labels: Vec<String>) -> (c: ChartPlaceholder)
        ensures c@ == (ChartModel { radar_axes: texts(labels@), kind: ChartKind::Radar, ..self@ }),
    {
        let mut c = self;
        c.radar_axes = labels;
        c.kind = ChartKind::Radar;
        c
    }

    /// Sets a radar or funnel outline and makes the chart of that kind.
    pub fn shape(self, shape: ChartShape) -> (c: ChartPlaceholder)
        ensures
            c@ == match shape {
                ChartShape::Radar(s) => ChartModel { radar_shape: s, kind: ChartKind::Radar, ..self@ },
                ChartShape::Funnel(s) => ChartModel { funnel_shape: s, kind: ChartKind::Funnel, ..self@ },
            },
    {
        let mut c = self;
        match shape {
            ChartShape::Radar(s) => {
                c.kind = ChartKind::Radar;
                c.radar_shape = s;
            },
            ChartShape::Funnel(s) => {
                c.funnel_shape = s;
                c.kind = ChartKind::Funnel;
            },
        }
        c
    }

    /// Sets the number of radar grid rings, kept between 1 and 64.
    pub fn grid_levels(self, value: usize) -> (c: ChartPlaceholder)
        ensures
            c@ == (ChartModel {
                grid_levels: (if value < 1 { 1 } else if value > 64 { 64 } else { value }) as nat,
                ..self@
            }),
    {
        let mut c = self;
        c.grid_levels = if value < 1 { 1 } else if value > 64 { 64 } else { value };
        c
    }

    /// Sets the fill opacity in thousandths, at most 1000; a chart of no
    /// particular kind or a line chart becomes an area chart.
    pub fn fill_opacity(self, permille: u32) -> (c: ChartPlaceholder)
        ensures
            c@ == (ChartModel {
                fill_opacity: (if permille > 1000 { 1000 } else { permille }) as nat,
                kind: if self@.kind == ChartKind::Generic || self@.kind == ChartKind::Line {
                    ChartKind::Area
                } else {
                    self@.kind
                },
                ..self@
            }),
    {
        let mut c = self;
        c.fill_opacity = if permille > 1000 { 1000 } else { permille };
        match c.kind {
            ChartKind::Generic | ChartKind::Line => {
                c.kind = ChartKind::Area;
            },
            _ => {},
        }
        c
    }

    /// Sets the heat-map column labels and makes the chart a heat map.
    pub fn x_labels(self, labels: Vec<String>) -> (c: ChartPlaceholder)
        ensures c@ == (ChartModel { x_labels: texts(labels@), kind: ChartKind::Heatmap, ..self@ }),
    {
        let mut c = self;
        c.x_labels = labels;
        c.kind = ChartKind::Heatmap;
        c
    }

    /// Sets the heat-map row labels and makes the chart a heat map.
    pub fn y_labels(self, labels: Vec<String>) -> (c: ChartPlaceholder)
        ensures c@ == (ChartModel { y_labels: texts(labels@), kind: ChartKind::Heatmap, ..self@ }),
    {
        let mut c = self;
        c.y_labels = labels;
        c.kind = ChartKind::Heatmap;
        c
    }

    /// Lays the heat map out as a calendar, or not, and makes the chart a heat map.
    pub fn calendar_mode(self, value: bool) -> (c: ChartPlaceholder)
        ensures c@ == (ChartModel { calendar_mode: value, kind: ChartKind::Heatmap, ..self@ }),
    {
        let mut c = self;
        c.calendar_mode = value;
        c.kind = ChartKind::Heatmap;
        c
    }

    /// Sets the bar series and makes the chart a combined chart.
    pub fn bar_series(self, series: Vec<SeriesShape>) -> (c: ChartPlaceholder)
        ensures c@ == (ChartModel { bar_series: series_infos(series@), kind: ChartKind::Combo, ..self@ }),
    {
        let mut c = self;
        c.bar_series = series;
        c.kind = ChartKind::Combo;
        c
    }

    /// Sets the line series and makes the chart a combined chart.
    pub fn line_series(self, series: Vec<SeriesShape>) -> (c: ChartPlaceholder)
        ensures c@ == (ChartModel { line_series: series_infos(series@), kind: ChartKind::Combo, ..self@ }),
    {
        let mut c = self;
        c.line_series = series;
        c.kind = ChartKind::Combo;
        c
    }

    /// Sets the colours of the gauge bands and makes the chart a gauge.
    pub fn range_colors(self, colors: Vec<Color>) -> (c: ChartPlaceholder)
        ensures c@ == (ChartModel { gauge_colors: colors@, kind: ChartKind::Gauge, ..self@ }),
    {
        let mut c = self;
        c.gauge_colors = colors;
        c.kind = ChartKind::Gauge;
        c
    }

    /// Sets the gauge shape and makes the chart a gauge.
    pub fn gauge_type(self, value: GaugeType) -> (c: ChartPlaceholder)
        ensures c@ == (ChartModel { gauge_type: value, kind: ChartKind::Gauge, ..self@ }),
    {
        let mut c = self;
        c.gauge_type = value;
        c.kind = ChartKind::Gauge;
        c
    }

    /// Hands the chart a data payload; its type decides the kind of chart,
    /// except that line points keep an area chart an area chart. Data of a
    /// kind no chart draws leaves the chart without data.
    pub fn data(self, d: ChartData) -> (c: ChartPlaceholder)
        ensures c@ == (ChartModel { payload: data_payload(d), kind: data_kind(self@.kind, d), ..self@ }),
    {
        let (payload, kind) = data_parts(self.kind, d);
        let mut c = self;
        c.payload = payload;
        c.kind = kind;
        c
    }

    /// Hands the chart a list of series; its type decides the kind of chart.
    /// Line series keep a chart of a chosen kind of that kind; series of a
    /// combined chart are split into bar series and line series, in order.
    pub fn series(self, s: ChartSeriesSet) -> (c: ChartPlaceholder)
        ensures c@ == after_series(self@, s),
    {
        match s {
            ChartSeriesSet::Bar(v) => self.with_bar_series(v),
            ChartSeriesSet::Line(v) => self.with_line_series(v),
            ChartSeriesSet::Radar(v) => {
                let mut c = self;
                c.radar_series = v;
                c.kind = ChartKind::Radar;
                c
            },
            ChartSeriesSet::Scatter(v) => self.with_scatter_series(v),
            ChartSeriesSet::Combo(v) => self.with_combo_series(v),
            ChartSeriesSet::Unsupported => self,
        }
    }

    fn with_bar_series(self, v: Vec<SeriesShape>) -> (c: ChartPlaceholder)
        ensures
            c@ == (ChartModel {
                bar_series: series_infos(v@),
                payload: PayloadModel::BarSeries(series_infos(v@)),
                kind: ChartKind::Bar,
                ..self@
            }),
    {
        let copy = clone_shapes(&v);
        let mut c = self;
        c.bar_series = v;
        c.payload = ChartPayload::BarSeries(copy);
        c.kind = ChartKind::Bar;
        c
    }

    fn with_line_series(self, v: Vec<SeriesShape>) -> (c: ChartPlaceholder)
        ensures
            c@ == (ChartModel {
                line_series: series_infos(v@),
                payload: PayloadModel::LineSeries(series_infos(v@)),
                kind: if self@.kind == ChartKind::Generic { ChartKind::Line } else { self@.kind },
                ..self@
            }),
    {
        let copy = clone_shapes(&v);
        let mut c = self;
        c.line_series = v;
        c.payload = ChartPayload::LineSeries(copy);
        if c.kind == ChartKind::Generic {
            c.kind = ChartKind::Line;
        }
        c
    }

    fn with_scatter_series(self, v: Vec<SeriesShape>) -> (c: ChartPlaceholder)
        ensures
            c@ == (ChartModel {
                scatter_series: series_infos(v@),
                payload: PayloadModel::ScatterSeries(series_infos(v@)),
                kind: ChartKind::Scatter,
                ..self@
            }),
    {
        let copy = clone_shapes(&v);
        let mut c = self;
        c.scatter_series = v;
        c.payload = ChartPayload::ScatterSeries(copy);
        c.kind = ChartKind::Scatter;
        c
    }

    fn with_combo_series(self, v: Vec<ComboShape>) -> (c: ChartPlaceholder)
        ensures
            c@ == (ChartModel {
                combo_series: combo_infos(v@),
                bar_series: combo_bars(combo_infos(v@)),
                line_series: combo_lines(combo_infos(v@)),
                kind: ChartKind::Combo,
                ..self@
            }),
    {
        let (bars, lines) = split_combo(&v);
        let mut c = self;
        c.combo_series = v;
        c.bar_series = bars;
        c.line_series = lines;
        c.kind = ChartKind::Combo;
        c
    }

    /// Whether the chart has something to draw.
    pub fn has_data(&self) -> (r: bool)
        ensures r == spec_has_data(self@),
    {
        match self.kind {
            ChartKind::Generic => false,
            ChartKind::Bar => match &self.payload {
                ChartPayload::Bars(n) => *n > 0,
                ChartPayload::BarSeries(s) => has_nonempty(s),
                _ => has_nonempty(&self.bar_series),
            },
            ChartKind::Line | ChartKind::Area => match &self.payload {
                ChartPayload::Lines(n) => *n > 0,
                ChartPayload::LineSeries(s) => has_nonempty(s),
                _ => has_nonempty(&self.line_series),
            },
            ChartKind::Scatter => match &self.payload {
                ChartPayload::Scatter(n) => *n > 0,
                ChartPayload::Bubble(n) => *n > 0,
                ChartPayload::ScatterSeries(s) => has_nonempty(s),
                _ => has_nonempty(&self.scatter_series),
            },
            ChartKind::Radar => has_nonempty(&self.radar_series),
            ChartKind::Heatmap => match &self.payload {
                ChartPayload::Heatmap(cells) => {
                    let b = self.has_cell_drawn(cells);
                    b
                },
                _ => false,
            },
            ChartKind::Funnel => match &self.payload {
                ChartPayload::Funnel(d) => d.len() > 0,
                _ => false,
            },
            ChartKind::Waterfall => match &self.payload {
                ChartPayload::Waterfall(d) => d.len() > 0,
                _ => false,
            },
            ChartKind::Combo => {
                let a = self.combo_series.len() > 0;
                let b = has_nonempty(&self.bar_series);
                let c = has_nonempty(&self.line_series);
                a || b || c
            },
            ChartKind::Treemap => match &self.payload {
                ChartPayload::Treemap(d) => d.len() > 0,
                _ => false,
            },
            ChartKind::Gauge => true,
        }
    }

    fn has_cell_drawn(&self, cells: &Vec<CellIndex>) -> (r: bool)
        ensures r == any_cell_drawn(self@, cells@),
    {
        let days = calendar_day_count(self.year);
        let n = cells.len();
        for i in 0..n
            invariant
                n == cells@.len(),
                days == if spec_calendar_leap(self@.year) { 366int } else { 365int },
                forall|j: int| 0 <= j < i ==> !#[trigger] cell_drawn(self@, cells@[j]),
        {
            let cell = cells[i];
            let drawn = if self.calendar_mode {
                cell.x < days
            } else {
                cell.x < MAX_HEATMAP_DIMENSION && cell.y < MAX_HEATMAP_DIMENSION
            };
            if drawn {
                assert(cell_drawn(self@, cells@[i as int]));
                return true;
            }
        }
        false
    }

    /// The legend entries.
    pub fn legend_labels(&self) -> (r: Vec<String>)
        ensures texts(r@) == spec_legend_labels(self@),
    {
        match &self.payload {
            ChartPayload::BarSeries(s) => names_of(s),
            ChartPayload::LineSeries(s) => names_of(s),
            ChartPayload::ScatterSeries(s) => names_of(s),
            ChartPayload::Funnel(d) => first_labels(d),
            ChartPayload::Waterfall(d) => first_labels(d),
            ChartPayload::Treemap(d) => first_labels(d),
            ChartPayload::Empty => {
                if self.combo_series.len() > 0 {
                    let mut r: Vec<String> = Vec::new();
                    let n = self.combo_series.len();
                    for i in 0..n
                        invariant
                            n == self.combo_series@.len(),
                            texts(r@) == combo_names(combo_infos(self.combo_series@)).take(i as int),
                    {
                        let name = self.combo_series[i].name.clone();
                        let ghost prev = r@;
                        r.push(name);
                        assert(texts(r@) =~= texts(prev).push(name@));
                        assert(texts(r@) =~= combo_names(combo_infos(self.combo_series@)).take(i + 1));
                    }
                    assert(combo_names(combo_infos(self.combo_series@)).take(n as int)
                        =~= combo_names(combo_infos(self.combo_series@)));
                    r
                } else if self.radar_series.len() > 0 {
                    names_of(&self.radar_series)
                } else if self.bar_series.len() > 0 || self.line_series.len() > 0 {
                    let mut r = names_of(&self.bar_series);
                    let mut rest = names_of(&self.line_series);
                    let ghost a = r@;
                    let ghost b = rest@;
                    r.append(&mut rest);
                    assert(texts(r@) =~= texts(a) + texts(b));
                    r
                } else if self.kind == ChartKind::Gauge {
                    let label = if self.title.as_str().is_empty() {
                        "值".to_owned()
                    } else {
                        self.title.clone()
                    };
                    let mut r: Vec<String> = Vec::new();
                    r.push(label);
                    assert(texts(r@) =~= seq![label@]);
                    r
                } else {
                    let r: Vec<String> = Vec::new();
                    assert(texts(r@) =~= Seq::empty());
                    r
                }
            },
            _ => {
                let mut r: Vec<String> = Vec::new();
                let label = "数据".to_owned();
                r.push(label);
                assert(texts(r@) =~= seq![label@]);
                r
            },
        }
    }

    /// Name of the chart's kind as shown to assistive technology.
    pub fn kind_label(&self) -> (r: &'static str)
        ensures r@ == spec_kind_label(self@.kind),
    {
        match self.kind {
            ChartKind::Generic => "Chart",
            ChartKind::Bar => "Bar chart",
            ChartKind::Line => "Line chart",
            ChartKind::Area => "Area chart",
            ChartKind::Scatter => "Scatter chart",
            ChartKind::Radar => "Radar chart",
            ChartKind::Heatmap => "Heatmap chart",
            ChartKind::Funnel => "Funnel chart",
            ChartKind::Waterfall => "Waterfall chart",
            ChartKind::Combo => "Combo chart",
            ChartKind::Treemap => "Treemap chart",
            ChartKind::Gauge => "Gauge chart",
        }
    }

    /// Columns and rows of the heat-map grid for the cells `cells`.
    pub fn heatmap_grid(&self, cells: &Vec<CellIndex>) -> (r: (usize, usize))
        ensures r.0 == heatmap_columns(self@, cells@), r.1 == heatmap_rows(self@, cells@),
    {
        if self.calendar_mode {
            let offset = january_first_weekday(self.year);
            let days = calendar_day_count(self.year);
            ((offset + days - 1) / 7 + 1, 7)
        } else {
            let mx = max_x_of(cells);
            let my = max_y_of(cells);
            let columns = if mx < MAX_HEATMAP_DIMENSION - 1 { mx + 1 } else { MAX_HEATMAP_DIMENSION };
            let rows = if my < MAX_HEATMAP_DIMENSION - 1 { my + 1 } else { MAX_HEATMAP_DIMENSION };
            (columns, rows)
        }
    }

    /// The first of `cells` in grid column `x` and row `y`.
    pub fn heatmap_cell_at(&self, cells: &Vec<CellIndex>, x: usize, y: usize) -> (r: Option<usize>)
        ensures
            match r {
                Some(i) => first_cell_at(self@, cells@, x as int, y as int, i as int),
                None => forall|i: int| 0 <= i < cells@.len() ==> !#[trigger] cell_at(self@, cells@[i], x as int, y as int),
            },
    {
        let offset = january_first_weekday(self.year);
        let days = calendar_day_count(self.year);
        let n = cells.len();
        for i in 0..n
            invariant
                n == cells@.len(),
                offset == spec_january_first_weekday(self@.year),
                days == calendar_days(self@.year),
                forall|j: int| 0 <= j < i ==> !#[trigger] cell_at(self@, cells@[j], x as int, y as int),
        {
            let cell = cells[i];
            let hit = if self.calendar_mode {
                if cell.x < days {
                    let day = offset + cell.x;
                    day / 7 == x && day % 7 == y
                } else {
                    false
                }
            } else {
                cell.x == x && cell.y == y
            };
            if hit {
                return Some(i);
            }
        }
        None
    }

    /// Tooltip label of a heat-map cell: its row label and its column label,
    /// each falling back to its number.
    pub fn heatmap_cell_label(&self, cell: CellIndex) -> (r: String)
        ensures r@ == spec_cell_label(self@, cell),
    {
        let mut s = String::new();
        push_axis_label(&mut s, &self.y_labels, cell.y);
        let ghost a = s@;
        push_text(&mut s, " ");
        proof {
            reveal_strlit(" ");
        }
        push_axis_label(&mut s, &self.x_labels, cell.x);
        assert(s@ =~= spec_cell_label(self@, cell));
        s
    }

    fn heatmap_hit(&self, cells: &Vec<CellIndex>, pos: Point, frame: Rect) -> (r: Option<usize>)
        ensures
            match heatmap_target(self@, cells@, pos, frame) {
                Some(i) => r == Some(i as usize),
                None => r is None,
            },
    {
        let (columns, rows) = self.heatmap_grid(cells);
        let x = slot_index(pos.x, frame.x, frame.w, columns);
        let y = slot_index(pos.y, frame.y, frame.h, rows);
        let r = self.heatmap_cell_at(cells, x, y);
        proof {
            match r {
                Some(i) => {
                    let k = choose|k: int| first_cell_at(self@, cells@, x as int, y as int, k);
                    lemma_first_cell_unique(self@, cells@, x as int, y as int, i as int, k);
                },
                None => {
                    assert forall|k: int| !first_cell_at(self@, cells@, x as int, y as int, k) by {
                        if 0 <= k < cells@.len() {
                            assert(!cell_at(self@, cells@[k], x as int, y as int));
                        }
                    }
                },
            }
        }
        r
    }

    fn payload_hit(&self, pos: Point, frame: Rect) -> (r: Option<TooltipTarget>)
        ensures r == payload_target(self@, pos, frame),
    {
        match &self.payload {
            ChartPayload::Bars(n) => self.item_hit(pos, frame, *n),
            ChartPayload::Lines(n) => self.item_hit(pos, frame, *n),
            ChartPayload::Scatter(n) => self.item_hit(pos, frame, *n),
            ChartPayload::Bubble(n) => self.item_hit(pos, frame, *n),
            ChartPayload::Funnel(d) => self.item_hit(pos, frame, d.len()),
            ChartPayload::Waterfall(d) => self.item_hit(pos, frame, d.len()),
            ChartPayload::Treemap(d) => self.item_hit(pos, frame, d.len()),
            ChartPayload::BarSeries(v) => series_hit(v, pos, frame),
            ChartPayload::LineSeries(v) => series_hit(v, pos, frame),
            ChartPayload::ScatterSeries(v) => series_hit(v, pos, frame),
            ChartPayload::Heatmap(cells) => match self.heatmap_hit(cells, pos, frame) {
                Some(i) => Some(TooltipTarget::Cell(i)),
                None => None,
            },
            ChartPayload::Empty => None,
        }
    }

    fn item_hit(&self, pos: Point, frame: Rect, n: usize) -> (r: Option<TooltipTarget>)
        ensures r == target_of(item_target(pos, frame, n as int), |i: usize| TooltipTarget::Item(i)),
    {
        if n > 0 { Some(TooltipTarget::Item(category_index(pos, frame, n))) } else { None }
    }

    /// The item a tooltip at `pos` in `frame` describes.
    pub fn tooltip_target(&self, pos: Point, frame: Rect) -> (r: Option<TooltipTarget>)
        ensures r == spec_tooltip_target(self@, pos, frame),
    {
        let p = self.payload_hit(pos, frame);
        if p.is_some() {
            return p;
        }
        match self.kind {
            ChartKind::Radar => {
                if self.radar_series.len() > 0 && self.radar_series[0].len > 0 {
                    Some(TooltipTarget::Radar(category_index(pos, frame, self.radar_series[0].len)))
                } else {
                    None
                }
            },
            ChartKind::Combo => {
                if self.combo_series.len() > 0 {
                    let n = self.combo_series[0].len;
                    if n > 0 { Some(TooltipTarget::ComboItem(category_index(pos, frame, n))) } else { None }
                } else if self.bar_series.len() > 0 {
                    let n = self.bar_series[0].len;
                    if n > 0 { Some(TooltipTarget::BarSeriesItem(category_index(pos, frame, n))) } else { None }
                } else if self.line_series.len() > 0 && self.line_series[0].len > 0 {
                    Some(TooltipTarget::LineSeriesItem(category_index(pos, frame, self.line_series[0].len)))
                } else {
                    None
                }
            },
            ChartKind::Gauge => Some(TooltipTarget::Gauge),
            _ => None,
        }
    }

    /// Which chart is drawn.
    pub fn kind(&self) -> (k: ChartKind)
        ensures k == self@.kind,
    {
        self.kind
    }
}

/// Entry point for an area chart.
#[derive(Debug, Clone, Copy)]
pub struct AreaChart;

impl AreaChart {
    /// Creates an area chart with the default settings.
    pub fn new() -> (c: ChartPlaceholder)
        ensures c@ == initial_chart(ChartKind::Area),
    {
        ChartPlaceholder::new_with_kind(ChartKind::Area)
    }
}

/// Entry point for a scatter chart.
#[derive(Debug, Clone, Copy)]
pub struct ScatterChart;

impl ScatterChart {
    /// Creates a scatter chart with the default settings.
    pub fn new() -> (c: ChartPlaceholder)
        ensures c@ == initial_chart(ChartKind::Scatter),
    {
        ChartPlaceholder::new_with_kind(ChartKind::Scatter)
    }
}

/// Entry point for a radar chart.
#[derive(Debug, Clone, Copy)]
pub struct RadarChart;

impl RadarChart {
    /// Creates a radar chart with the default settings.
    pub fn new() -> (c: ChartPlaceholder)
        ensures c@ == initial_chart(ChartKind::Radar),
    {
        ChartPlaceholder::new_with_kind(ChartKind::Radar)
    }
}

/// Entry point for a heat map.
#[derive(Debug, Clone, Copy)]
pub struct Heatmap;

impl Heatmap {
    /// Creates a heat map with the default settings.
    pub fn new() -> (c: ChartPlaceholder)
        ensures c@ == initial_chart(ChartKind::Heatmap),
    {
        ChartPlaceholder::new_with_kind(ChartKind::Heatmap)
    }
}

/// Entry point for a funnel chart.
#[derive(Debug, Clone, Copy)]
pub struct FunnelChart;

impl FunnelChart {
    /// Creates a funnel chart with the default settings.
    pub fn new() -> (c: ChartPlaceholder)
        ensures c@ == initial_chart(ChartKind::Funnel),
    {
        ChartPlaceholder::new_with_kind(ChartKind::Funnel)
    }
}

/// Entry point for a waterfall chart.
#[derive(Debug, Clone, Copy)]
pub struct WaterfallChart;

impl WaterfallChart {
    /// Creates a waterfall chart with the default settings.
    pub fn new() -> (c: ChartPlaceholder)
        ensures c@ == initial_chart(ChartKind::Waterfall),
    {
        ChartPlaceholder::new_with_kind(ChartKind::Waterfall)
    }
}

/// Entry point for a combined chart.
#[derive(Debug, Clone, Copy)]
pub struct ComboChart;

impl ComboChart {
    /// Creates a combined chart with the default settings.
    pub fn new() -> (c: ChartPlaceholder)
        ensures c@ == initial_chart(ChartKind::Combo),
    {
        ChartPlaceholder::new_with_kind(ChartKind::Combo)
    }
}

/// Entry point for a tree map.
#[derive(Debug, Clone, Copy)]
pub struct Treemap;

impl Treemap {
    /// Creates a tree map with the default settings.
    pub fn new() -> (c: ChartPlaceholder)
        ensures c@ == initial_chart(ChartKind::Treemap),
    {
        ChartPlaceholder::new_with_kind(ChartKind::Treemap)
    }
}

/// Entry point for a gauge.
#[derive(Debug, Clone, Copy)]
pub struct Gauge;

impl Gauge {
    /// Creates a gauge with the default settings.
    pub fn new() -> (c: ChartPlaceholder)
        ensures c@ == initial_chart(ChartKind::Gauge),
    {
        ChartPlaceholder::new_with_kind(ChartKind::Gauge)
    }
}

} // verus!
