//! Pie chart settings.

use vstd::prelude::*;

use crate::chart::{InteractionConfig, LabelPosition, LegendPosition, RoseStyle};
use crate::color::Color;

verus! {

/// The non-numeric settings of a pie chart as plain values.
pub struct PieChartModel {
    /// Sectors share the angle equally and vary in radius.
    pub rose: bool,
    /// How the rose maps values.
    pub rose_style: RoseStyle,
    /// Data labels are drawn.
    pub label_visible: bool,
    /// Where data labels go.
    pub label_position: LabelPosition,
    /// Legend position.
    pub legend: LegendPosition,
    /// Background colour, if chosen.
    pub background: Option<Color>,
    /// Title.
    pub title: Seq<char>,
    /// Subtitle.
    pub subtitle: Seq<char>,
    /// The chart follows the space its parent offers.
    pub responsive: bool,
    /// Interaction settings, if any.
    pub interaction: Option<InteractionConfig>,
    /// An animation is configured.
    pub animation_enabled: bool,
}

/// A pie, donut or rose chart.
pub struct PieChart {
    rose: bool,
    rose_style: RoseStyle,
    label_visible: bool,
    label_position: LabelPosition,
    legend: LegendPosition,
    background: Option<Color>,
    title: String,
    subtitle: String,
    responsive: bool,
    interaction: Option<InteractionConfig>,
    animation_enabled: bool,
}

impl View for PieChart {
    type V = PieChartModel;

    closed spec fn view(&self) -> PieChartModel {
        PieChartModel {
            rose: self.rose,
            rose_style: self.rose_style,
            label_visible: self.label_visible,
            label_position: self.label_position,
            legend: self.legend,
            background: self.background,
            title: self.title@,
            subtitle: self.subtitle@,
            responsive: self.responsive,
            interaction: self.interaction,
            animation_enabled: self.animation_enabled,
        }
    }
}

impl PieChart {
    /// Creates a full pie with inside labels and the legend on the right.
    pub fn new() -> (c: PieChart)
        ensures
            c@ == (PieChartModel {
                rose: false,
                rose_style: RoseStyle::Radius,
                label_visible: true,
                label_position: LabelPosition::Inside,
                legend: LegendPosition::Right,
                background: None,
                title: Seq::empty(),
                subtitle: Seq::empty(),
                responsive: false,
                interaction: None,
                animation_enabled: false,
            }),
    {
        PieChart {
            rose: false,
            rose_style: RoseStyle::Radius,
            label_visible: true,
            label_position: LabelPosition::Inside,
            legend: LegendPosition::Right,
            background: None,
            title: String::new(),
            subtitle: String::new(),
            responsive: false,
            interaction: None,
            animation_enabled: false,
        }
    }

    /// Draws a rose: equal angles, radius from the value.
    pub fn rose(self, value: bool) -> (c: PieChart)
        ensures c@ == (PieChartModel { rose: value, ..self@ }),
    {
        let mut c = self;
        c.rose = value;
        c
    }

    /// Sets how the rose maps values.
    pub fn rose_style(self, style: RoseStyle) -> (c: PieChart)
        ensures c@ == (PieChartModel { rose_style: style, ..self@ }),
    {
        let mut c = self;
        c.rose_style = style;
        c
    }

    /// Shows or hides data labels.
    pub fn label_visible(self, visible: bool) -> (c: PieChart)
        ensures c@ == (PieChartModel { label_visible: visible, ..self@ }),
    {
        let mut c = self;
        c.label_visible = visible;
        c
    }

    /// Sets where data labels go.
    pub fn label_position(self, position: LabelPosition) -> (c: PieChart)
        ensures c@ == (PieChartModel { label_position: position, ..self@ }),
    {
        let mut c = self;
        c.label_position = position;
        c
    }

    /// Sets where the legend goes.
    pub fn legend(self, position: LegendPosition) -> (c: PieChart)
        ensures c@ == (PieChartModel { legend: position, ..self@ }),
    {
        let mut c = self;
        c.legend = position;
        c
    }

    /// Sets the background colour.
    pub fn bg(self, color: Color) -> (c: PieChart)
        ensures c@ == (PieChartModel { background: Some(color), ..self@ }),
    {
        let mut c = self;
        c.background = Some(color);
        c
    }

    /// Sets the title.
    pub fn title(self, title: &str) -> (c: PieChart)
        ensures c@ == (PieChartModel { title: title@, ..self@ }),
    {
        let mut c = self;
        c.title = title.to_owned();
        c
    }

    /// Sets the subtitle.
    pub fn subtitle(self, subtitle: &str) -> (c: PieChart)
        ensures c@ == (PieChartModel { subtitle: subtitle@, ..self@ }),
    {
        let mut c = self;
        c.subtitle = subtitle.to_owned();
        c
    }

    /// Makes the chart follow the space its parent offers.
    pub fn responsive(self, responsive: bool) -> (c: PieChart)
        ensures c@ == (PieChartModel { responsive, ..self@ }),
    {
        let mut c = self;
        c.responsive = responsive;
        c
    }

    /// Sets the interaction settings.
    pub fn interactive(self, config: InteractionConfig) -> (c: PieChart)
        ensures c@ == (PieChartModel { interaction: Some(config), ..self@ }),
    {
        let mut c = self;
        c.interaction = Some(config);
        c
    }

    /// Turns animation on.
    pub fn animation(self) -> (c: PieChart)
        ensures c@ == (PieChartModel { animation_enabled: true, ..self@ }),
    {
        let mut c = self;
        c.animation_enabled = true;
        c
    }
}

} // verus!
