//! Display widgets: calendar, collapse, carousel, badge, card, descriptions,
//! empty states, avatars and chart configuration, with verified behaviour.

pub mod color;
pub mod date;
pub mod event;
pub mod geometry;
pub mod calendar;
pub mod calendar_title;
pub mod text;
pub mod collapse;
pub mod descriptions;
pub mod carousel;
pub mod badge;
pub mod card;
pub mod empty;
pub mod avatar;
pub mod chart;
pub mod advanced_chart;
pub mod line_chart;
pub mod pie_chart;
