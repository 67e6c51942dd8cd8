use lib::carousel::{Carousel, CarouselEffect, SelectionSource};
use lib::event::{EventResult, KeyCode};
use lib::geometry::{Constraints, Point, Rect, Size};

fn with_slides(n: usize) -> Carousel {
    let mut c = Carousel::new();
    c.set_child_count(n);
    c
}

#[test]
fn default_carousel_size_and_flex() {
    let c = Carousel::new();
    assert_eq!(c.intrinsic_size(), Size::new(300, 200));
    assert!(c.flex_grow_enabled());
    let fixed = Carousel::new().size(400, 100);
    assert_eq!(fixed.intrinsic_size(), Size::new(300, 200));
    assert!(!fixed.flex_grow_enabled());
}

#[test]
fn measure_uses_fixed_size_or_default_within_constraints() {
    let room = Constraints::loose(Size::new(1000, 1000));
    assert_eq!(Carousel::new().measure(room), Size::new(300, 200));
    assert_eq!(Carousel::new().size(120, 0).measure(room), Size::new(120, 0));
    assert_eq!(Carousel::new().size(400, 100).measure(Constraints::loose(Size::new(350, 80))), Size::new(350, 80));
    assert_eq!(Carousel::new().measure(Constraints::tight(Size::new(50, 70))), Size::new(50, 70));
}

#[test]
fn next_and_previous_wrap_around() {
    let mut c = with_slides(3);
    assert_eq!(c.previous_index(), 2);
    assert_eq!(c.next_index(), 1);
    c.select(2, SelectionSource::User);
    assert_eq!(c.next_index(), 0);
    assert_eq!(Carousel::new().next_index(), 0);
}

#[test]
fn select_clamps_and_reports_changes() {
    let mut c = with_slides(3);
    c.select(9, SelectionSource::User);
    assert_eq!(c.current_index(), 2);
    assert_eq!(c.take_pending_change(), Some(2));
    assert!(c.take_layout_request());
    c.select(2, SelectionSource::User);
    assert_eq!(c.take_pending_change(), None);
}

#[test]
fn keys_need_focus_and_several_slides() {
    let mut c = with_slides(3);
    assert_eq!(c.on_key(KeyCode::Right), EventResult::NotHandled);
    c.set_focused(true);
    assert_eq!(c.on_key(KeyCode::Right), EventResult::Handled);
    assert_eq!(c.current_index(), 1);
    c.on_key(KeyCode::End);
    assert_eq!(c.current_index(), 2);
    c.on_key(KeyCode::Down);
    assert_eq!(c.current_index(), 0);
    c.on_key(KeyCode::Left);
    assert_eq!(c.current_index(), 2);
    c.on_key(KeyCode::Home);
    assert_eq!(c.current_index(), 0);
    assert_eq!(c.on_key(KeyCode::Enter), EventResult::NotHandled);
    let mut one = with_slides(1);
    one.set_focused(true);
    assert_eq!(one.on_key(KeyCode::Right), EventResult::NotHandled);
}

#[test]
fn autoplay_runs_until_the_user_takes_over() {
    let mut c = Carousel::new().autoplay(3000);
    c.set_child_count(3);
    assert_eq!(c.active_timer().map(|t| t.1), Some(3000));
    assert_eq!(c.on_autoplay_timer(), EventResult::Handled);
    assert_eq!(c.current_index(), 1);
    c.select(0, SelectionSource::User);
    assert_eq!(c.active_timer(), None);
    c.on_autoplay_timer();
    assert_eq!(c.current_index(), 0);
}

#[test]
fn hovering_pauses_autoplay_when_asked() {
    let mut c = Carousel::new().autoplay(1000).pause_on_hover(true);
    c.set_child_count(2);
    c.set_hovered(true);
    assert_eq!(c.active_timer(), None);
    c.on_autoplay_timer();
    assert_eq!(c.current_index(), 0);
    c.set_hovered(false);
    assert!(c.active_timer().is_some());
}

#[test]
fn fade_shows_the_old_slide_until_half_way() {
    let mut c = Carousel::new().effect(CarouselEffect::Fade);
    c.set_child_count(3);
    c.select(1, SelectionSource::User);
    assert_eq!(c.displayed_index(), 0);
    assert!(c.child_visible(0));
    assert!(!c.child_visible(1));
    assert!(c.advance_fade(400));
    assert_eq!(c.displayed_index(), 0);
    assert!(c.advance_fade(200));
    assert_eq!(c.displayed_index(), 1);
    assert!(!c.advance_fade(900));
    assert_eq!(c.displayed_index(), 1);
    assert!(!c.advance_fade(10));
}

#[test]
fn shrinking_keeps_the_index_in_range() {
    let mut c = with_slides(5);
    c.select(4, SelectionSource::Autoplay);
    c.set_child_count(2);
    assert_eq!(c.current_index(), 1);
    c.set_child_count(0);
    assert_eq!(c.current_index(), 0);
    assert_eq!(c.slide_count(), 0);
}

#[test]
fn sync_keeps_position_and_takes_settings() {
    let mut c = with_slides(4);
    c.select(3, SelectionSource::User);
    c.sync_from(Carousel::new().autoplay(500).show_dots(false));
    assert_eq!(c.current_index(), 3);
    assert_eq!(c.slide_count(), 4);
    assert_eq!(c.active_timer(), None);
}

#[test]
fn dots_and_arrows_take_clicks() {
    let frame = Rect::new(0, 0, 300, 200);
    let mut c = with_slides(3);
    assert_eq!(c.dot_index_at(frame, Point::new(150, 190)), Some(1));
    assert_eq!(c.dot_index_at(frame, Point::new(124, 185)), Some(0));
    assert_eq!(c.dot_index_at(frame, Point::new(150, 100)), None);
    assert_eq!(c.pointer_down(frame, Point::new(150, 100)), EventResult::NotHandled);
    assert_eq!(c.pointer_down(frame, Point::new(10, 100)), EventResult::Handled);
    assert_eq!(c.current_index(), 2);
    assert_eq!(c.pointer_down(frame, Point::new(290, 100)), EventResult::Handled);
    assert_eq!(c.current_index(), 0);
    assert_eq!(c.pointer_down(frame, Point::new(170, 190)), EventResult::Handled);
    assert_eq!(c.current_index(), 2);
    let mut custom = with_slides(3).arrows();
    assert_eq!(custom.pointer_down(frame, Point::new(10, 100)), EventResult::NotHandled);
    c.pointer_move(frame, Point::new(10, 10));
    c.pointer_move(frame, Point::new(400, 10));
}

#[test]
fn next_slide_cycles_back_after_one_round() {
    let mut c = with_slides(4);
    c.select(1, SelectionSource::User);
    let mut seen = Vec::new();
    for _ in 0..4 {
        let n = c.next_index();
        c.select(n, SelectionSource::Autoplay);
        seen.push(c.current_index());
    }
    assert_eq!(seen, vec![2, 3, 0, 1]);
    assert_eq!(c.current_index(), 1);
}
