use lib::advanced_chart::{
    category_index, combo_split, AreaChart, CellIndex, ChartData, ChartPlaceholder, ChartSeriesSet,
    ChartShape, ComboShape, Gauge, Heatmap, SeriesShape, TooltipTarget,
};
use lib::chart::{
    calendar_day_count, is_leap_year, january_first_weekday, palette_color, slot_index,
    sync_retention, ChartKind, ChartSeries, ChartType, ComboSeries, AxisSide, FunnelShape,
    InteractionConfig, LegendPosition, LineStyle, RadarShape, TooltipTrigger,
};
use lib::color::Color;
use lib::geometry::{Point, Rect};
use lib::line_chart::{LineChart, LineChartAuthored, AUTHORED_PADDING, AUTHORED_SHOW_DOTS, AUTHORED_SHOW_GRID};
use lib::pie_chart::PieChart;

fn shape(name: &str, len: usize) -> SeriesShape {
    SeriesShape { name: name.to_string(), len }
}

fn combo(name: &str, len: usize, chart_type: ChartType) -> ComboShape {
    ComboShape { name: name.to_string(), len, chart_type }
}

fn labels(items: &[&str]) -> Vec<String> {
    items.iter().map(|s| s.to_string()).collect()
}

#[test]
fn palette_repeats_after_six_colors() {
    assert_eq!(palette_color(0), Color::from_rgba(22, 119, 255, 255));
    assert_eq!(palette_color(3), Color::from_rgba(245, 34, 45, 255));
    assert_eq!(palette_color(6), palette_color(0));
    assert_eq!(palette_color(11), Color::from_rgba(19, 194, 194, 255));
}

#[test]
fn heatmap_calendar_years() {
    assert_eq!(january_first_weekday(2024), 1);
    assert_eq!(january_first_weekday(2023), 0);
    assert_eq!(january_first_weekday(1), 1);
    assert_eq!(january_first_weekday(0), 0);
    assert_eq!(january_first_weekday(-1), 5);
    assert!(is_leap_year(2024));
    assert!(!is_leap_year(0));
    assert!(!is_leap_year(2100));
    assert_eq!(calendar_day_count(2000), 366);
    assert_eq!(calendar_day_count(2023), 365);
}

#[test]
fn slots_divide_the_span_evenly() {
    assert_eq!(slot_index(0, 0, 100, 4), 0);
    assert_eq!(slot_index(26, 0, 100, 4), 1);
    assert_eq!(slot_index(99, 0, 100, 4), 3);
    assert_eq!(slot_index(150, 0, 100, 4), 3);
    assert_eq!(slot_index(-5, 0, 100, 4), 0);
    assert_eq!(slot_index(50, 0, 0, 4), 0);
    assert_eq!(slot_index(50, 0, 100, 0), 0);
    assert_eq!(category_index(Point::new(60, 0), Rect::new(10, 0, 100, 50), 2), 1);
}

#[test]
fn retention_follows_the_new_settings() {
    let zoom_only = InteractionConfig { zoom: true, pan: false, crosshair: false };
    let r = sync_retention(Some(zoom_only), false, None);
    assert!(r.hovered && r.zoom && !r.pan && !r.tooltip);
    let t = sync_retention(None, false, Some(TooltipTrigger::Click));
    assert!(t.hovered && t.tooltip && !t.zoom);
    let none = sync_retention(None, false, None);
    assert!(!none.hovered);
    assert_eq!(TooltipTrigger::default(), TooltipTrigger::Hover);
}

#[test]
fn series_builders_keep_their_values() {
    let s = ChartSeries::new("sales", vec![1u8, 2, 3]);
    assert_eq!(s.name, "sales");
    assert_eq!(s.data, vec![1, 2, 3]);
    let c = ComboSeries::new("rate", 5u8).chart_type(ChartType::Bar).y_axis(AxisSide::Right).line_style(LineStyle::Dashed);
    assert_eq!(c.chart_type, ChartType::Bar);
    assert_eq!(c.axis, AxisSide::Right);
    assert_eq!(c.line_style, LineStyle::Dashed);
    assert_eq!(c.data, 5);
    let d = ComboSeries::new("x", ());
    assert_eq!((d.chart_type, d.axis, d.line_style), (ChartType::Line, AxisSide::Left, LineStyle::Solid));
}

#[test]
fn data_decides_the_chart_kind() {
    assert_eq!(ChartPlaceholder::new().kind(), ChartKind::Generic);
    assert_eq!(ChartPlaceholder::new().data(ChartData::Bars(3)).kind(), ChartKind::Bar);
    assert_eq!(ChartPlaceholder::new().data(ChartData::Lines(3)).kind(), ChartKind::Line);
    assert_eq!(AreaChart::new().data(ChartData::Lines(3)).kind(), ChartKind::Area);
    assert_eq!(ChartPlaceholder::new().data(ChartData::Bubble(2)).kind(), ChartKind::Scatter);
    let unknown = ChartPlaceholder::new().data(ChartData::Bars(2)).data(ChartData::Unsupported);
    assert_eq!(unknown.kind(), ChartKind::Bar);
    assert!(!unknown.has_data());
}

#[test]
fn settings_switch_the_chart_kind() {
    assert_eq!(ChartPlaceholder::new().rose(true).kind(), ChartKind::Bar);
    assert_eq!(ChartPlaceholder::new().rose(false).kind(), ChartKind::Generic);
    assert_eq!(ChartPlaceholder::new().fill_opacity(400).kind(), ChartKind::Area);
    assert_eq!(ChartPlaceholder::new().data(ChartData::Bars(1)).fill_opacity(400).kind(), ChartKind::Bar);
    assert_eq!(ChartPlaceholder::new().x_labels(labels(&["a"])).kind(), ChartKind::Heatmap);
    assert_eq!(ChartPlaceholder::new().calendar_mode(false).kind(), ChartKind::Heatmap);
    assert_eq!(ChartPlaceholder::new().shape(ChartShape::Radar(RadarShape::Circle)).kind(), ChartKind::Radar);
    assert_eq!(ChartPlaceholder::new().shape(ChartShape::Funnel(FunnelShape::Symmetric)).kind(), ChartKind::Funnel);
    assert_eq!(ChartPlaceholder::new().axes(labels(&["x", "y"])).kind(), ChartKind::Radar);
    assert_eq!(ChartPlaceholder::new().gauge_type(lib::chart::GaugeType::Ring).kind(), ChartKind::Gauge);
    assert_eq!(ChartPlaceholder::new().range_colors(vec![Color::from_rgb(1, 1, 1)]).kind(), ChartKind::Gauge);
    assert_eq!(ChartPlaceholder::new().bar_series(vec![shape("a", 1)]).kind(), ChartKind::Combo);
    assert_eq!(ChartPlaceholder::new().line_series(vec![shape("a", 1)]).kind(), ChartKind::Combo);
}

#[test]
fn has_data_depends_on_the_kind() {
    assert!(!ChartPlaceholder::new().has_data());
    assert!(Gauge::new().has_data());
    assert!(!ChartPlaceholder::new().data(ChartData::Bars(0)).has_data());
    assert!(ChartPlaceholder::new().series(ChartSeriesSet::Bar(vec![shape("a", 0), shape("b", 2)])).has_data());
    assert!(!ChartPlaceholder::new().series(ChartSeriesSet::Radar(vec![shape("a", 0)])).has_data());
    let far = ChartPlaceholder::new().data(ChartData::Heatmap(vec![CellIndex { x: 5000, y: 0 }]));
    assert!(!far.has_data());
    let cal = ChartPlaceholder::new()
        .data(ChartData::Heatmap(vec![CellIndex { x: 365, y: 0 }]))
        .calendar_mode(true)
        .year(2024);
    assert!(cal.has_data());
    assert!(!cal.year(2023).has_data());
    assert!(ChartPlaceholder::new().series(ChartSeriesSet::Combo(vec![combo("c", 0, ChartType::Line)])).has_data());
}

#[test]
fn legend_labels_name_the_series() {
    let bars = ChartPlaceholder::new().series(ChartSeriesSet::Bar(vec![shape("a", 1), shape("b", 1)]));
    assert_eq!(bars.legend_labels(), labels(&["a", "b"]));
    let funnel = ChartPlaceholder::new()
        .data(ChartData::Funnel(labels(&["1", "2", "3", "4", "5", "6", "7", "8", "9"])));
    assert_eq!(funnel.legend_labels().len(), 8);
    assert_eq!(ChartPlaceholder::new().data(ChartData::Bars(2)).legend_labels(), labels(&["数据"]));
    assert_eq!(Gauge::new().legend_labels(), labels(&["值"]));
    assert_eq!(Gauge::new().title("Speed").legend_labels(), labels(&["Speed"]));
    assert!(ChartPlaceholder::new().legend_labels().is_empty());
    let combined = ChartPlaceholder::new()
        .bar_series(vec![shape("b", 1)])
        .line_series(vec![shape("l", 1)]);
    assert_eq!(combined.legend_labels(), labels(&["b", "l"]));
}

#[test]
fn combo_series_split_into_bars_and_lines() {
    let types = [ChartType::Line, ChartType::Bar, ChartType::Area, ChartType::Bar];
    let (bars, lines) = combo_split(&types);
    assert_eq!(bars, vec![1, 3]);
    assert_eq!(lines, vec![0, 2]);
    let c = ChartPlaceholder::new().series(ChartSeriesSet::Combo(vec![
        combo("l", 2, ChartType::Line),
        combo("b", 2, ChartType::Bar),
    ]));
    assert_eq!(c.kind(), ChartKind::Combo);
    assert_eq!(c.legend_labels(), labels(&["l", "b"]));
}

#[test]
fn kind_labels_name_the_chart() {
    assert_eq!(ChartPlaceholder::new().kind_label(), "Chart");
    assert_eq!(Heatmap::new().kind_label(), "Heatmap chart");
    assert_eq!(ChartPlaceholder::new().data(ChartData::Waterfall(labels(&["a"]))).kind_label(), "Waterfall chart");
}

#[test]
fn tooltip_targets_follow_the_pointer() {
    let frame = Rect::new(0, 0, 100, 100);
    let bars = ChartPlaceholder::new().data(ChartData::Bars(4));
    assert_eq!(bars.tooltip_target(Point::new(60, 10), frame), Some(TooltipTarget::Item(2)));
    let empty = ChartPlaceholder::new().data(ChartData::Bars(0));
    assert_eq!(empty.tooltip_target(Point::new(60, 10), frame), None);
    let series = ChartPlaceholder::new().series(ChartSeriesSet::Line(vec![shape("a", 2)]));
    assert_eq!(series.tooltip_target(Point::new(60, 10), frame), Some(TooltipTarget::SeriesItem(1)));
    assert_eq!(Gauge::new().tooltip_target(Point::new(1, 1), frame), Some(TooltipTarget::Gauge));
    let radar = ChartPlaceholder::new().series(ChartSeriesSet::Radar(vec![shape("r", 5)]));
    assert_eq!(radar.tooltip_target(Point::new(99, 1), frame), Some(TooltipTarget::Radar(4)));
    let combo_bars = ChartPlaceholder::new().bar_series(vec![shape("b", 2)]);
    assert_eq!(combo_bars.tooltip_target(Point::new(10, 1), frame), Some(TooltipTarget::BarSeriesItem(0)));
}

#[test]
fn heatmap_cells_are_found_under_the_pointer() {
    let cells = vec![CellIndex { x: 0, y: 0 }, CellIndex { x: 1, y: 1 }, CellIndex { x: 1, y: 1 }];
    let chart = ChartPlaceholder::new().data(ChartData::Heatmap(cells.clone()));
    assert_eq!(chart.heatmap_grid(&cells), (2, 2));
    assert_eq!(chart.heatmap_cell_at(&cells, 1, 1), Some(1));
    assert_eq!(chart.heatmap_cell_at(&cells, 0, 1), None);
    let frame = Rect::new(0, 0, 100, 100);
    assert_eq!(chart.tooltip_target(Point::new(75, 75), frame), Some(TooltipTarget::Cell(1)));
    assert_eq!(chart.tooltip_target(Point::new(75, 25), frame), None);
    let labelled = chart.x_labels(labels(&["Mon"])).y_labels(labels(&["AM", "PM"]));
    assert_eq!(labelled.heatmap_cell_label(CellIndex { x: 0, y: 1 }), "PM Mon");
    assert_eq!(labelled.heatmap_cell_label(CellIndex { x: 3, y: 0 }), "AM 3");
    let calendar = ChartPlaceholder::new().calendar_mode(true).year(2023);
    assert_eq!(calendar.heatmap_grid(&Vec::new()), (53, 7));
    let days = vec![CellIndex { x: 0, y: 0 }, CellIndex { x: 8, y: 0 }];
    assert_eq!(calendar.heatmap_cell_at(&days, 0, 0), Some(0));
    assert_eq!(calendar.heatmap_cell_at(&days, 1, 1), Some(1));
}

#[test]
fn line_chart_settings_and_authored_flags() {
    let chart = LineChart::new().show_grid(false).legend(LegendPosition::Top);
    assert!(chart.is_authored(AUTHORED_SHOW_GRID));
    assert!(!chart.is_authored(AUTHORED_SHOW_DOTS));
    let mut chart = chart;
    chart.apply_visual_defaults(true, false);
    assert_eq!(chart.series_count(), 1);
    let multi = LineChart::new().data(4).series(vec![shape("a", 7), shape("b", 2)]);
    assert_eq!(multi.series_count(), 2);
    assert_eq!(multi.point_count(), 7);
    assert_eq!(LineChart::new().data(4).point_count(), 4);
    let mut flags = LineChartAuthored::new();
    flags.set(AUTHORED_PADDING, true);
    assert!(flags.contains(AUTHORED_PADDING));
    flags.set(AUTHORED_PADDING, false);
    assert!(!flags.contains(AUTHORED_PADDING));
    let mut c = LineChart::new();
    c.set_authored(AUTHORED_PADDING, true);
    assert!(c.is_authored(AUTHORED_PADDING));
}

#[test]
fn pie_chart_builders_compile_and_chain() {
    let _pie = PieChart::new()
        .rose(true)
        .legend(LegendPosition::Bottom)
        .title("Share")
        .subtitle("2026")
        .responsive(true)
        .animation();
    let _line = LineChart::new().title("t").subtitle("s").smooth(true).step(false).bg(Color::from_rgb(0, 0, 0));
}

#[test]
fn heatmap_and_calendar_agree_on_january_first() {
    for year in [1, 2, 1999, 2000, 2023, 2024, 2100, 9999] {
        let monday_based = lib::date::first_weekday(year, 1);
        assert_eq!(january_first_weekday(year), (monday_based + 1) % 7);
    }
}

#[test]
fn stable_order_sorts_by_key_and_keeps_ties() {
    assert_eq!(lib::chart::stable_key_order(&[5, 1, 5, 0, 1]), vec![3, 1, 4, 0, 2]);
    assert_eq!(lib::chart::stable_key_order(&[]), Vec::<usize>::new());
    assert_eq!(lib::chart::stable_key_order(&[2, 2, 2]), vec![0, 1, 2]);
}

#[test]
fn radar_axis_label_falls_back_to_the_axis_number() {
    let axes = vec!["Speed".to_string(), "Power".to_string()];
    assert_eq!(lib::advanced_chart::radar_axis_label(&axes, 1), "Power");
    assert_eq!(lib::advanced_chart::radar_axis_label(&axes, 12), "12");
}
