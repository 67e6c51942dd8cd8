use lib::avatar::Avatar;
use lib::color::Color;
use lib::empty::Empty;
use lib::geometry::{Constraints, Size};

#[test]
fn image_presets_map_to_icons() {
    assert_eq!(Empty::new().visual_icon_name(), None);
    assert_eq!(Empty::new().icon("inbox").visual_icon_name(), Some("inbox"));
    assert_eq!(Empty::new().icon("inbox").image("search").visual_icon_name(), Some("search"));
    assert_eq!(Empty::new().image("network").visual_icon_name(), Some("globe"));
    assert_eq!(Empty::new().image("default").visual_icon_name(), Some("package"));
    assert_eq!(Empty::new().image("unknown").visual_icon_name(), Some("package"));
    assert_eq!(Empty::new().image("folder").visual_icon_name(), Some("folder"));
}

#[test]
fn empty_state_measures_its_fixed_size() {
    let e = Empty::new().description("Nothing here");
    assert_eq!(e.intrinsic_size(), Size::new(160, 100));
    assert_eq!(e.measure(Constraints::loose(Size::new(120, 300))), Size::new(120, 100));
}

#[test]
fn empty_sync_takes_every_setting() {
    let mut e = Empty::new().icon("a");
    e.sync_from(Empty::new().image("file"));
    assert_eq!(e.visual_icon_name(), Some("file"));
}

#[test]
fn avatar_size_defaults_to_thirty_two() {
    assert_eq!(Avatar::new("AB").intrinsic_size(), Size::new(32, 32));
    assert_eq!(Avatar::new("AB").size(48).intrinsic_size(), Size::new(48, 48));
    assert_eq!(Avatar::new("AB").size(0).intrinsic_size(), Size::new(32, 32));
    assert_eq!(
        Avatar::new("AB").size(48).measure(Constraints::tight(Size::new(20, 20))),
        Size::new(20, 20)
    );
}

#[test]
fn avatar_keeps_its_picture_only_for_the_same_source() {
    let mut a = Avatar::new("AB").src("a.png").bg(Color::from_rgb(1, 2, 3)).square(true);
    a.set_cached(Some(7));
    a.sync_from(Avatar::new("CD").src("a.png"));
    assert_eq!(a.cached(), Some(7));
    a.sync_from(Avatar::new("CD").src("b.png"));
    assert_eq!(a.cached(), None);
    let b = Avatar::new("x").src("c.png");
    assert_eq!(b.cached(), None);
    let _ = Avatar::new("x").text_color(Color::from_rgb(0, 0, 0));
}
