use lib::calendar::{calendar_event_marker_limit, Calendar, CalendarEvent};
use lib::calendar_title::{localized_month_title, replace_two_placeholders, MonthTitleLocale};
use lib::color::Color;
use lib::date::{days_in_month, first_weekday, is_leap_year, Date};
use lib::event::{EventResult, KeyCode};
use lib::geometry::{Point, Rect, Size};

#[test]
fn leap_years_follow_the_gregorian_rule() {
    assert!(is_leap_year(2024));
    assert!(is_leap_year(2000));
    assert!(!is_leap_year(1900));
    assert!(!is_leap_year(2023));
    assert_eq!(days_in_month(2024, 2), 29);
    assert_eq!(days_in_month(2023, 2), 28);
    assert_eq!(days_in_month(2023, 4), 30);
    assert_eq!(days_in_month(2023, 12), 31);
}

#[test]
fn first_weekday_counts_from_monday() {
    assert_eq!(first_weekday(2026, 6), 0);
    assert_eq!(first_weekday(2024, 1), 0);
    assert_eq!(first_weekday(2023, 1), 6);
    assert_eq!(first_weekday(2000, 2), 1);
}

#[test]
fn new_calendar_shows_june_2026() {
    let c = Calendar::new();
    assert_eq!(c.displayed_month(), (2026, 6));
    assert_eq!(c.focused_day(), 1);
    assert_eq!(c.selected_date(), None);
    assert_eq!(c.intrinsic_size(), Size::new(280, 280));
}

#[test]
fn cell_size_is_raised_to_the_minimum() {
    let c = Calendar::new().cell_size(10);
    assert_eq!(c.intrinsic_size(), Size::new(140, 160));
}

#[test]
fn page_keys_move_by_month_or_year() {
    let mut c = Calendar::new();
    assert_eq!(c.on_key(KeyCode::PageDown, false), EventResult::Handled);
    assert_eq!(c.displayed_month(), (2026, 7));
    c.on_key(KeyCode::PageUp, false);
    c.on_key(KeyCode::PageUp, false);
    assert_eq!(c.displayed_month(), (2026, 5));
    let mut y = Calendar::new().year_jump(true);
    y.on_key(KeyCode::PageDown, false);
    assert_eq!(y.displayed_month(), (2027, 6));
}

#[test]
fn month_shift_keeps_focus_within_the_month() {
    let mut c = Calendar::new().default_date(Date::new(2024, 1, 31));
    c.on_key(KeyCode::PageDown, false);
    assert_eq!(c.displayed_month(), (2024, 2));
    assert_eq!(c.focused_day(), 29);
}

#[test]
fn arrow_keys_cross_month_boundaries() {
    let mut c = Calendar::new();
    c.on_key(KeyCode::End, false);
    assert_eq!(c.focused_day(), 30);
    c.on_key(KeyCode::Right, false);
    assert_eq!(c.displayed_month(), (2026, 7));
    assert_eq!(c.focused_day(), 1);
    c.on_key(KeyCode::Up, false);
    assert_eq!(c.displayed_month(), (2026, 6));
    assert_eq!(c.focused_day(), 24);
    assert_eq!(c.on_key(KeyCode::Other, false), EventResult::NotHandled);
}

#[test]
fn enter_selects_the_focused_date_unless_disabled() {
    let mut c = Calendar::new();
    c.on_key(KeyCode::Enter, true);
    assert_eq!(c.selected_date(), None);
    assert_eq!(c.take_pending_change(), None);
    c.on_key(KeyCode::Enter, false);
    assert_eq!(c.selected_date(), Some(Date::new(2026, 6, 1)));
    assert_eq!(c.take_pending_change(), Some(Date::new(2026, 6, 1)));
    assert_eq!(c.take_pending_change(), None);
}

#[test]
fn pointer_selects_cells_and_moves_months() {
    let mut c = Calendar::new();
    assert_eq!(c.day_at(Point::new(45, 45)), Some(2));
    assert_eq!(c.day_at(Point::new(45, 10)), None);
    assert_eq!(c.pointer_down(Point::new(5, 45), false), EventResult::Handled);
    assert_eq!(c.selected_date(), Some(Date::new(2026, 6, 1)));
    assert_eq!(c.pointer_down(Point::new(5, 5), false), EventResult::Handled);
    assert_eq!(c.displayed_month(), (2026, 5));
    assert_eq!(c.pointer_down(Point::new(275, 5), false), EventResult::Handled);
    assert_eq!(c.displayed_month(), (2026, 6));
}

#[test]
fn controlled_value_follows_the_binding() {
    let mut c = Calendar::new().value(Date::new(2025, 3, 9));
    assert_eq!(c.bound_value(), Some(Date::new(2025, 3, 9)));
    assert_eq!(c.displayed_month(), (2025, 3));
    c.on_key(KeyCode::Right, false);
    c.on_key(KeyCode::Enter, false);
    assert_eq!(c.bound_value(), Some(Date::new(2025, 3, 10)));
    c.sync_value_binding(Some(Date::new(2025, 8, 2)));
    assert_eq!(c.selected_date(), Some(Date::new(2025, 8, 2)));
    assert_eq!(c.displayed_month(), (2025, 8));
}

#[test]
fn cell_entries_mark_today_and_selection() {
    let plain = Calendar::new().default_date(Date::new(2026, 6, 15));
    assert!(plain.desired_cell_entries(Date::new(2026, 6, 3)).is_empty());
    let c = plain.date_cell();
    let entries = c.desired_cell_entries(Date::new(2026, 6, 3));
    assert_eq!(entries.len(), 30);
    assert_eq!(entries[0].date, Date::new(2026, 6, 1));
    assert!(entries[2].info.is_today);
    assert!(!entries[3].info.is_today);
    assert!(entries[14].info.is_selected);
    assert!(entries.iter().all(|e| e.info.is_current_month && e.factory_generation == 0));
}

#[test]
fn custom_cells_ask_for_layout_when_the_month_or_selection_changes() {
    let mut plain = Calendar::new();
    plain.on_key(KeyCode::PageDown, false);
    assert!(!plain.take_layout_request());
    let mut c = Calendar::new().date_cell();
    c.on_key(KeyCode::Right, false);
    assert!(!c.take_layout_request());
    c.on_key(KeyCode::PageDown, false);
    assert!(c.take_layout_request());
    assert!(!c.take_layout_request());
    c.on_key(KeyCode::Enter, false);
    assert!(c.take_layout_request());
    c.on_key(KeyCode::End, false);
    c.on_key(KeyCode::Right, false);
    assert_eq!(c.displayed_month(), (2026, 8));
    assert!(c.take_layout_request());
    let next = Calendar::new().date_cell();
    c.sync_from(next);
    assert_eq!(c.desired_cell_entries(Date::new(2026, 1, 1))[0].factory_generation, 1);
}

#[test]
fn event_buckets_count_and_cap_markers() {
    let red = Color::from_rgb(255, 0, 0);
    let day = Date::new(2026, 6, 3);
    let events = vec![
        CalendarEvent::new(day, "a", red),
        CalendarEvent::new(Date::new(2026, 7, 3), "other month", red),
        CalendarEvent::new(day, "b", red),
        CalendarEvent::new(day, "c", red),
        CalendarEvent::new(day, "d", red),
    ];
    let c = Calendar::new().events(events);
    let buckets = c.event_buckets(2026, 6);
    assert_eq!(buckets.len(), 31);
    assert_eq!(buckets[2].count, 4);
    assert_eq!(buckets[2].visible_count, 3);
    assert_eq!(buckets[2].visible_indices, [0, 2, 3]);
    assert_eq!(buckets[0].count, 0);
    assert_eq!(calendar_event_marker_limit(7), 3);
    assert_eq!(calendar_event_marker_limit(2), 2);
}

#[test]
fn placeholders_are_filled_in_order() {
    assert_eq!(replace_two_placeholders("{}年 {} 月", "2026", "6"), Some("2026年 6 月".to_string()));
    assert_eq!(replace_two_placeholders("{}", "a", "b"), None);
    assert_eq!(replace_two_placeholders("no slots", "a", "b"), None);
    assert_eq!(replace_two_placeholders("{}-{}", "{}", "x"), None);
}

fn english() -> MonthTitleLocale {
    let names = [
        "January", "February", "March", "April", "May", "June", "July", "August", "September",
        "October", "November", "December",
    ];
    MonthTitleLocale {
        year_format: "{0}".to_string(),
        month_format: "{0}".to_string(),
        month_year_format: "{} {}".to_string(),
        months_long: names.iter().map(|s| s.to_string()).collect(),
    }
}

#[test]
fn month_title_uses_the_locale_pattern() {
    let en = english();
    assert_eq!(localized_month_title(&en, 2026, 6), "June 2026");
    assert_eq!(localized_month_title(&en, 2026, 0), "January 2026");
    assert_eq!(localized_month_title(&en, -44, 13), "December -44");
    let mut zh = english();
    zh.year_format = "{0}年".to_string();
    zh.month_year_format = "{}年{}月".to_string();
    assert_eq!(localized_month_title(&zh, 2026, 6), "2026年6月");
    zh.month_year_format = "broken".to_string();
    assert_eq!(localized_month_title(&zh, 2026, 6), "2026-06");
    let mut plain = english();
    plain.month_year_format = "{}".to_string();
    assert_eq!(localized_month_title(&plain, 2026, 11), "November 2026");
}

#[test]
fn cell_rects_agree_with_hit_testing() {
    let c = Calendar::new();
    assert_eq!(c.cell_rect(1), Some(Rect::new(0, 40, 40, 40)));
    assert_eq!(c.cell_rect(10), Some(Rect::new(80, 80, 40, 40)));
    assert_eq!(c.cell_rect(0), None);
    assert_eq!(c.cell_rect(31), None);
    let r = c.cell_rect(17).unwrap();
    assert_eq!(c.day_at(Point::new(r.x, r.y)), Some(17));
}

#[test]
fn any_day_is_kept_and_arrows_count_on_from_it() {
    let c = Calendar::new().default_date(Date::new(20000, 1, 40));
    assert_eq!(c.selected_date(), Some(Date::new(9999, 1, 40)));
    assert_eq!(c.displayed_month(), (9999, 1));
    assert_eq!(c.focused_day(), 40);
    let mut c = Calendar::new().default_date(Date::new(2026, 1, 40));
    c.on_key(KeyCode::Right, false);
    assert_eq!(c.displayed_month(), (2026, 2));
    assert_eq!(c.focused_day(), 10);
    let mut z = Calendar::new().default_date(Date::new(2026, 3, 0));
    assert_eq!(z.focused_day(), 0);
    z.on_key(KeyCode::Up, false);
    assert_eq!(z.displayed_month(), (2026, 2));
    assert_eq!(z.focused_day(), 21);
}

#[test]
fn normalizing_a_date_twice_changes_nothing_more() {
    let once = Calendar::new().default_date(Date::new(-5, 7, 3));
    assert_eq!(once.selected_date(), Some(Date::new(1, 7, 3)));
    let again = Calendar::new().default_date(once.selected_date().unwrap());
    assert_eq!(again.selected_date(), once.selected_date());
}

#[test]
fn normalize_date_clamps_only_the_year() {
    let d = Calendar::normalize_date(Date::new(0, 13, 40));
    assert_eq!(d, Date::new(1, 13, 40));
    assert_eq!(Calendar::normalize_date(d), d);
    assert_eq!(Calendar::normalize_date(Date::new(12000, 2, 3)), Date::new(9999, 2, 3));
}
