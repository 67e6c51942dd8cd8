use lib::badge::{Badge, BadgeColor, BadgeContent, BadgeStatus};
use lib::geometry::{Constraints, Size};
use lib::color::Color;

#[test]
fn count_label_is_capped_with_a_plus() {
    assert_eq!(Badge::new().count(5).count_label(), "5");
    assert_eq!(Badge::new().count(120).count_label(), "99+");
    assert_eq!(Badge::new().count(99).count_label(), "99");
    assert_eq!(Badge::new().count(12).max(10).count_label(), "10+");
    assert_eq!(Badge::new().count(-3).count_label(), "0");
    assert_eq!(Badge::new().count(4).max(0).count_label(), "1+");
}

#[test]
fn zero_count_hides_the_badge_unless_asked() {
    assert_eq!(Badge::new().visible_content(), BadgeContent::Hidden);
    assert_eq!(Badge::new().show_zero(true).visible_content(), BadgeContent::CountPill);
    assert_eq!(Badge::new().count(3).visible_content(), BadgeContent::CountPill);
    assert_eq!(Badge::new().text("new").visible_content(), BadgeContent::TextPill);
}

#[test]
fn status_ribbon_and_dot_take_precedence() {
    assert_eq!(
        Badge::new().count(3).status(BadgeStatus::Error).visible_content(),
        BadgeContent::StatusMarker(BadgeStatus::Error)
    );
    assert_eq!(Badge::ribbon("Hot", BadgeColor::Red).visible_content(), BadgeContent::Ribbon);
    assert_eq!(Badge::new().dot().visible_content(), BadgeContent::DotMarker);
    assert_eq!(Badge::new().dot().dot_when(false).visible_content(), BadgeContent::CountPill);
}

#[test]
fn preset_colors_round_trip() {
    let red = BadgeColor::Red.to_color();
    assert_eq!(red, Color::from_rgb(0xf5, 0x22, 0x2d));
    assert_eq!(BadgeColor::from_compat_color(red), Some(BadgeColor::Red));
    assert_eq!(BadgeColor::from_compat_color(Color::from_rgb(1, 2, 3)), None);
    let b = Badge::new().preset_color(BadgeColor::Blue);
    assert_eq!(b.background(), Some(Color::from_rgb(0x16, 0x77, 0xff)));
    assert!(b.adaptive_foreground());
    let custom = Badge::new().color(Color::from_rgb(1, 2, 3));
    assert!(!custom.adaptive_foreground());
    let preset = Badge::new().color(BadgeColor::Green);
    assert!(preset.adaptive_foreground());
}

#[test]
fn badge_sync_normalizes_the_numbers() {
    let mut b = Badge::new().count(7);
    b.sync_from(Badge::new().count(200).max(50));
    assert_eq!(b.count_label(), "50+");
}

#[test]
fn intrinsic_size_follows_shape_and_label_width() {
    assert_eq!(Badge::new().dot().intrinsic_size(0), Size::new(10, 10));
    let marked = Badge::new().status(BadgeStatus::Success).text("Done");
    assert_eq!(marked.sizing_label(), Some(("Done".to_string(), 13)));
    assert_eq!(marked.intrinsic_size(30), Size::new(48, 20));
    let ribbon = Badge::ribbon("Hot", BadgeColor::Red);
    assert_eq!(ribbon.intrinsic_size(0), Size::new(24, 24));
    assert_eq!(ribbon.intrinsic_size(20), Size::new(44, 24));
    let pill = Badge::new().count(120);
    assert_eq!(pill.sizing_label(), Some(("99+".to_string(), 11)));
    assert_eq!(pill.intrinsic_size(4), Size::new(20, 20));
    assert_eq!(pill.intrinsic_size(17), Size::new(29, 20));
    assert_eq!(Badge::new().sizing_label(), None);
    assert_eq!(Badge::new().intrinsic_size(5), Size::new(0, 0));
    assert_eq!(Badge::new().show_zero(true).intrinsic_size(7), Size::new(20, 20));
}

#[test]
fn a_badge_with_a_child_takes_the_child_size() {
    let room = Constraints::loose(Size::new(100, 100));
    let child = Size::new(64, 40);
    let plain = Badge::new().count(3);
    assert_eq!(plain.measure(room, 7, child), Size::new(20, 20));
    let decorating = Badge::new().count(3).child();
    assert_eq!(decorating.measure(room, 7, child), Size::new(64, 40));
    assert_eq!(decorating.measure(Constraints::loose(Size::new(50, 30)), 7, child), Size::new(50, 30));
}
