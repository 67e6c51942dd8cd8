//! Line chart settings.

use vstd::prelude::*;

use crate::advanced_chart::{SeriesInfo, SeriesShape, series_infos};
use crate::chart::{InteractionConfig, LegendPosition};
use crate::color::Color;

verus! {

/// Flag: the height was chosen explicitly.
pub const AUTHORED_HEIGHT: u8 = 1;
/// Flag: grid visibility was chosen explicitly.
pub const AUTHORED_SHOW_GRID: u8 = 2;
/// Flag: marker visibility was chosen explicitly.
pub const AUTHORED_SHOW_DOTS: u8 = 4;
/// Flag: the line width was chosen explicitly.
pub const AUTHORED_LINE_WIDTH: u8 = 8;
/// Flag: the marker radius was chosen explicitly.
pub const AUTHORED_DOT_RADIUS: u8 = 16;
/// Flag: the padding was chosen explicitly.
pub const AUTHORED_PADDING: u8 = 32;

/// Whether `flag` is one bit.
pub open spec fn single_bit(flag: u8) -> bool {
    flag == 1 || flag == 2 || flag == 4 || flag == 8 || flag == 16 || flag == 32 || flag == 64 || flag == 128
}

/// The settings of a line chart chosen explicitly, one bit each.
#[derive(Debug, Clone, Copy, PartialEq, Eq, Structural)]
pub struct LineChartAuthored {
    /// The flags.
    pub bits: u8,
}

impl LineChartAuthored {
    /// No setting chosen.
    pub fn new() -> (a: LineChartAuthored)
        ensures a.bits == 0,
    {
        LineChartAuthored { bits: 0 }
    }

    /// Whether any bit of `flag` is set.
    pub fn contains(self, flag: u8) -> (r: bool)
        ensures r == (self.bits & flag != 0),
    {
        self.bits & flag != 0
    }

    /// Sets or clears the bits of `flag`.
    pub fn set(&mut self, flag: u8, authored: bool)
        ensures final(self).bits == if authored { old(self).bits | flag } else { old(self).bits & !flag },
    {
        if authored {
            self.bits = self.bits | flag;
        } else {
            self.bits = self.bits & !flag;
        }
    }
}

/// Marking a setting as chosen, or not, is what a later query reports, and
/// leaves every other setting as it was.
pub proof fn lemma_authored_set_then_contains(bits: u8, flag: u8, other: u8, authored: bool)
    requires single_bit(flag), single_bit(other), other != flag,
    ensures
        ({
            let next = if authored { bits | flag } else { bits & !flag };
            &&& (next & flag != 0) == authored
            &&& (next & other != 0) == (bits & other != 0)
        }),
{
    if authored {
        assert((bits | flag) & flag != 0) by (bit_vector)
            requires single_bit(flag);
        assert(((bits | flag) & other != 0) == (bits & other != 0)) by (bit_vector)
            requires single_bit(flag), single_bit(other), other != flag;
    } else {
        assert((bits & !flag) & flag == 0) by (bit_vector);
        assert(((bits & !flag) & other != 0) == (bits & other != 0)) by (bit_vector)
            requires single_bit(flag), single_bit(other), other != flag;
    }
}

/// A grid or marker choice made explicitly survives the theme's defaults:
/// after `show_grid(v)` or `show_dots(v)`, applying any defaults keeps `v`.
pub proof fn lemma_explicit_choice_survives_defaults(authored: u8)
    ensures
        (authored | AUTHORED_SHOW_GRID) & AUTHORED_SHOW_GRID != 0,
        (authored | AUTHORED_SHOW_DOTS) & AUTHORED_SHOW_DOTS != 0,
{
    assert((authored | 2u8) & 2u8 != 0) by (bit_vector);
    assert((authored | 4u8) & 4u8 != 0) by (bit_vector);
}

/// The settings of a line chart as plain values.
pub struct LineChartModel {
    /// Number of points of the single series.
    pub data_len: nat,
    /// Colour of the single series, if chosen.
    pub line_color: Option<Color>,
    /// The value axis starts at the smallest value instead of zero.
    pub auto_min: bool,
    /// The grid is drawn.
    pub show_grid: bool,
    /// Point markers are drawn.
    pub show_dots: bool,
    /// Named series, when there are several.
    pub series: Seq<SeriesInfo>,
    /// Legend position.
    pub legend: LegendPosition,
    /// Lines are smoothed.
    pub smooth: bool,
    /// Lines are drawn as steps.
    pub step: bool,
    /// Background colour, if chosen.
    pub background: Option<Color>,
    /// Title.
    pub title: Seq<char>,
    /// Subtitle.
    pub subtitle: Seq<char>,
    /// The chart follows the space its parent offers.
    pub responsive: bool,
    /// Interaction settings, if any.
    pub interaction: Option<InteractionConfig>,
    /// An animation is configured.
    pub animation_enabled: bool,
    /// Flags of the settings chosen explicitly.
    pub authored: u8,
}

/// A chart of values joined by lines.
pub struct LineChart {
    data_len: usize,
    line_color: Option<Color>,
    auto_min: bool,
    show_grid: bool,
    show_dots: bool,
    series: Vec<SeriesShape>,
    legend: LegendPosition,
    smooth: bool,
    step: bool,
    background: Option<Color>,
    title: String,
    subtitle: String,
    responsive: bool,
    interaction: Option<InteractionConfig>,
    animation_enabled: bool,
    authored: LineChartAuthored,
}

impl View for LineChart {
    type V = LineChartModel;

    closed spec fn view(&self) -> LineChartModel {
        LineChartModel {
            data_len: self.data_len as nat,
            line_color: self.line_color,
            auto_min: self.auto_min,
            show_grid: self.show_grid,
            show_dots: self.show_dots,
            series: series_infos(self.series@),
            legend: self.legend,
            smooth: self.smooth,
            step: self.step,
            background: self.background,
            title: self.title@,
            subtitle: self.subtitle@,
            responsive: self.responsive,
            interaction: self.interaction,
            animation_enabled: self.animation_enabled,
            authored: self.authored.bits,
        }
    }
}

impl LineChart {
    /// Creates an empty line chart with grid and markers and no legend.
    pub fn new() -> (c: LineChart)
        ensures
            c@ == (LineChartModel {
                data_len: 0,
                line_color: None,
                auto_min: false,
                show_grid: true,
                show_dots: true,
                series: Seq::empty(),
                legend: LegendPosition::Hidden,
                smooth: false,
                step: false,
                background: None,
                title: Seq::empty(),
                subtitle: Seq::empty(),
                responsive: false,
                interaction: None,
                animation_enabled: false,
                authored: 0,
            }),
    {
        let c = LineChart {
            data_len: 0,
            line_color: None,
            auto_min: false,
            show_grid: true,
            show_dots: true,
            series: Vec::new(),
            legend: LegendPosition::Hidden,
            smooth: false,
            step: false,
            background: None,
            title: String::new(),
            subtitle: String::new(),
            responsive: false,
            interaction: None,
            animation_enabled: false,
            authored: LineChartAuthored::new(),
        };
        assert(series_infos(c.series@) =~= Seq::empty());
        c
    }

    /// Replaces the points of the single series, by count.
    pub fn data(self, len: usize) -> (c: LineChart)
        ensures c@ == (LineChartModel { data_len: len as nat, ..self@ }),
    {
        let mut c = self;
        c.data_len = len;
        c
    }

    /// Sets the colour of the single series.
    pub fn line_color(self, color: Color) -> (c: LineChart)
        ensures c@ == (LineChartModel { line_color: Some(color), ..self@ }),
    {
        let mut c = self;
        c.line_color = Some(color);
        c
    }

    /// Starts the value axis at the smallest value, or at zero.
    pub fn auto_min(self, value: bool) -> (c: LineChart)
        ensures c@ == (LineChartModel { auto_min: value, ..self@ }),
    {
        let mut c = self;
        c.auto_min = value;
        c
    }

    /// Shows or hides the grid, as an explicit choice.
    pub fn show_grid(self, value: bool) -> (c: LineChart)
        ensures c@ == (LineChartModel { show_grid: value, authored: self@.authored | AUTHORED_SHOW_GRID, ..self@ }),
    {
        let mut c = self;
        c.show_grid = value;
        c.authored.set(AUTHORED_SHOW_GRID, true);
        c
    }

    /// Shows or hides point markers, as an explicit choice.
    pub fn show_dots(self, value: bool) -> (c: LineChart)
        ensures c@ == (LineChartModel { show_dots: value, authored: self@.authored | AUTHORED_SHOW_DOTS, ..self@ }),
    {
        let mut c = self;
        c.show_dots = value;
        c.authored.set(AUTHORED_SHOW_DOTS, true);
        c
    }

    /// Sets several named series; the first one's points become the single series.
    pub fn series(self, series: Vec<SeriesShape>) -> (c: LineChart)
        ensures
            c@ == (LineChartModel {
                series: series_infos(series@),
                data_len: if series@.len() > 0 { series@[0].len as nat } else { self@.data_len },
                ..self@
            }),
    {
        let mut c = self;
        if series.len() > 0 {
            c.data_len = series[0].len;
        }
        c.series = series;
        c
    }

    /// Sets where the legend goes.
    pub fn legend(self, position: LegendPosition) -> (c: LineChart)
        ensures c@ == (LineChartModel { legend: position, ..self@ }),
    {
        let mut c = self;
        c.legend = position;
        c
    }

    /// Smooths lines.
    pub fn smooth(self, value: bool) -> (c: LineChart)
        ensures c@ == (LineChartModel { smooth: value, ..self@ }),
    {
        let mut c = self;
        c.smooth = value;
        c
    }

    /// Draws lines as steps.
    pub fn step(self, value: bool) -> (c: LineChart)
        ensures c@ == (LineChartModel { step: value, ..self@ }),
    {
        let mut c = self;
        c.step = value;
        c
    }

    /// Sets the background colour.
    pub fn bg(self, color: Color) -> (c: LineChart)
        ensures c@ == (LineChartModel { background: Some(color), ..self@ }),
    {
        let mut c = self;
        c.background = Some(color);
        c
    }

    /// Sets the title.
    pub fn title(self, title: &str) -> (c: LineChart)
        ensures c@ == (LineChartModel { title: title@, ..self@ }),
    {
        let mut c = self;
        c.title = title.to_owned();
        c
    }

    /// Sets the subtitle.
    pub fn subtitle(self, subtitle: &str) -> (c: LineChart)
        ensures c@ == (LineChartModel { subtitle: subtitle@, ..self@ }),
    {
        let mut c = self;
        c.subtitle = subtitle.to_owned();
        c
    }

    /// Makes the chart follow the space its parent offers.
    pub fn responsive(self, value: bool) -> (c: LineChart)
        ensures c@ == (LineChartModel { responsive: value, ..self@ }),
    {
        let mut c = self;
        c.responsive = value;
        c
    }

    /// Sets the interaction settings.
    pub fn interactive(self, config: InteractionConfig) -> (c: LineChart)
        ensures c@ == (LineChartModel { interaction: Some(config), ..self@ }),
    {
        let mut c = self;
        c.interaction = Some(config);
        c
    }

    /// Turns animation on.
    pub fn animation(self) -> (c: LineChart)
        ensures c@ == (LineChartModel { animation_enabled: true, ..self@ }),
    {
        let mut c = self;
        c.animation_enabled = true;
        c
    }

    /// Records whether the setting of `flag` was chosen explicitly.
    pub fn set_authored(&mut self, flag: u8, authored: bool)
        ensures
            final(self)@ == (LineChartModel {
                authored: if authored { old(self)@.authored | flag } else { old(self)@.authored & !flag },
                ..old(self)@
            }),
    {
        self.authored.set(flag, authored);
    }

    /// Whether the setting of `flag` was chosen explicitly.
    pub fn is_authored(&self, flag: u8) -> (r: bool)
        ensures r == (self@.authored & flag != 0),
    {
        self.authored.contains(flag)
    }

    /// Takes the theme's grid and marker visibility for what was not chosen explicitly.
    pub fn apply_visual_defaults(&mut self, show_grid: bool, show_dots: bool)
        ensures
            final(self)@ == (LineChartModel {
                show_grid: if old(self)@.authored & AUTHORED_SHOW_GRID != 0 { old(self)@.show_grid } else { show_grid },
                show_dots: if old(self)@.authored & AUTHORED_SHOW_DOTS != 0 { old(self)@.show_dots } else { show_dots },
                ..old(self)@
            }),
    {
        if !self.authored.contains(AUTHORED_SHOW_GRID) {
            self.show_grid = show_grid;
        }
        if !self.authored.contains(AUTHORED_SHOW_DOTS) {
            self.show_dots = show_dots;
        }
    }

    /// Number of series drawn: the named series, or the single one.
    pub fn series_count(&self) -> (n: usize)
        ensures n == if self@.series.len() == 0 { 1 } else { self@.series.len() },
    {
        if self.series.len() == 0 { 1 } else { self.series.len() }
    }

    /// Number of points a pointer position is mapped onto: those of the single
    /// series, or of the first named series.
    pub fn point_count(&self) -> (n: usize)
        ensures n == if self@.series.len() == 0 { self@.data_len } else { self@.series[0].len },
    {
        if self.series.len() == 0 { self.data_len } else { self.series[0].len }
    }
}

} // verus!
