use lib::card::Card;
use lib::event::{EventResult, KeyCode};
use lib::geometry::{Constraints, Point, Rect, Size};

fn labels(items: &[&str]) -> Vec<String> {
    items.iter().map(|s| s.to_string()).collect()
}

#[test]
fn measure_clamps_card_size() {
    let measured = Card::new()
        .size(240, 120)
        .measure(Constraints::loose(Size::new(100, 60)));

    assert_eq!(measured, Size::new(100, 60));
}

#[test]
fn card_without_size_asks_for_default_width() {
    let card = Card::new();
    assert_eq!(card.intrinsic_size(), Size::new(200, 0));
    let measured = card.measure(Constraints::tight(Size::new(50, 70)));
    assert_eq!(measured, Size::new(50, 70));
}

#[test]
fn blank_actions_are_dropped() {
    let card = Card::new().actions(labels(&["Edit", "  ", "", "Share"]));
    let kept: Vec<&str> = card.action_labels().iter().map(|s| s.as_str()).collect();
    assert_eq!(kept, vec!["Edit", "Share"]);
    assert_eq!(card.focused_action(), Some(0));
    assert_eq!(Card::new().focused_action(), None);
}

#[test]
fn elevation_is_capped_and_sets_shadow_reach() {
    assert_eq!(Card::new().dirty_expand(), 50);
    assert_eq!(Card::new().elevation(2).dirty_expand(), 70);
    assert_eq!(Card::new().elevation(9).dirty_expand(), 95);
    assert_eq!(Card::new().elevation(0).dirty_expand(), 0);
}

#[test]
fn action_bar_sits_at_the_bottom() {
    let card = Card::new().actions(labels(&["A", "B"]));
    let frame = Rect::new(10, 20, 200, 100);
    assert_eq!(card.action_rect(frame), Some(Rect::new(10, 80, 200, 40)));
    let short = Rect::new(0, 0, 100, 30);
    assert_eq!(card.action_rect(short), Some(Rect::new(0, 0, 100, 30)));
    assert_eq!(Card::new().action_rect(frame), None);
}

#[test]
fn action_index_splits_the_bar_evenly() {
    let card = Card::new().actions(labels(&["A", "B", "C"]));
    let frame = Rect::new(0, 0, 300, 100);
    assert_eq!(card.action_index_at(frame, Point::new(10, 70)), Some(0));
    assert_eq!(card.action_index_at(frame, Point::new(150, 70)), Some(1));
    assert_eq!(card.action_index_at(frame, Point::new(299, 99)), Some(2));
    assert_eq!(card.action_index_at(frame, Point::new(150, 30)), None);
    assert_eq!(card.action_index_at(frame, Point::new(300, 70)), None);
}

#[test]
fn body_rect_leaves_room_for_title_and_actions() {
    let frame = Rect::new(0, 0, 300, 200);
    let plain = Card::new();
    assert_eq!(plain.body_rect(frame), Rect::new(16, 16, 268, 168));
    let full = Card::new().title("Title").actions(labels(&["OK"]));
    assert_eq!(full.body_rect(frame), Rect::new(16, 56, 268, 88));
    let tiny = Card::new().padding(30);
    assert_eq!(tiny.body_rect(Rect::new(0, 0, 40, 20)), Rect::new(30, 20, 0, 0));
}

#[test]
fn keyboard_moves_focus_and_submits() {
    let mut card = Card::new().actions(labels(&["A", "B", "C"]));
    assert_eq!(card.on_key(KeyCode::Right), EventResult::Handled);
    assert_eq!(card.focused_action(), Some(1));
    assert_eq!(card.on_key(KeyCode::End), EventResult::Handled);
    assert_eq!(card.focused_action(), Some(2));
    assert_eq!(card.on_key(KeyCode::Right), EventResult::Handled);
    assert_eq!(card.focused_action(), Some(2));
    assert_eq!(card.on_key(KeyCode::Home), EventResult::Handled);
    assert_eq!(card.on_key(KeyCode::Left), EventResult::Handled);
    assert_eq!(card.focused_action(), Some(0));
    assert_eq!(card.on_key(KeyCode::Enter), EventResult::Handled);
    assert_eq!(card.take_pending_submit(), Some("A".to_string()));
    assert_eq!(card.take_pending_submit(), None);
    assert_eq!(card.on_key(KeyCode::PageUp), EventResult::NotHandled);
}

#[test]
fn card_without_actions_ignores_keys_and_focus() {
    let mut card = Card::new();
    assert_eq!(card.on_key(KeyCode::Enter), EventResult::NotHandled);
    assert_eq!(card.set_focused(true), EventResult::NotHandled);
    assert_eq!(card.set_focused(false), EventResult::Handled);
}

#[test]
fn pointer_down_on_an_action_submits_it() {
    let mut card = Card::new().actions(labels(&["Left", "Right"]));
    let frame = Rect::new(0, 0, 200, 100);
    assert_eq!(card.pointer_down(frame, Point::new(150, 90)), EventResult::Handled);
    assert_eq!(card.focused_action(), Some(1));
    assert_eq!(card.take_pending_submit(), Some("Right".to_string()));
    assert_eq!(card.pointer_down(frame, Point::new(150, 10)), EventResult::NotHandled);
}

#[test]
fn pointer_move_reports_hover_changes() {
    let mut card = Card::new().actions(labels(&["Left", "Right"]));
    let frame = Rect::new(0, 0, 200, 100);
    assert_eq!(card.pointer_move(frame, Point::new(10, 90)), EventResult::Handled);
    assert_eq!(card.pointer_move(frame, Point::new(20, 90)), EventResult::NotHandled);
    assert_eq!(card.pointer_leave(), EventResult::Handled);
    assert_eq!(card.pointer_leave(), EventResult::NotHandled);
}

#[test]
fn hover_needs_hoverable_card() {
    let mut plain = Card::new();
    assert_eq!(plain.pointer_enter(), EventResult::NotHandled);
    let mut hoverable = Card::new().hoverable();
    assert_eq!(hoverable.pointer_enter(), EventResult::Handled);
    assert_eq!(hoverable.pointer_leave(), EventResult::Handled);
}

#[test]
fn sync_keeps_focus_in_range_and_drops_stale_submit() {
    let mut card = Card::new().actions(labels(&["A", "B", "C"]));
    card.on_key(KeyCode::End);
    card.on_key(KeyCode::Enter);
    card.sync_from(Card::new().actions(labels(&["A", "B"])));
    assert_eq!(card.focused_action(), Some(1));
    assert_eq!(card.take_pending_submit(), None);

    let mut kept = Card::new().actions(labels(&["A", "B"]));
    kept.on_key(KeyCode::Enter);
    kept.sync_from(Card::new().actions(labels(&["B", "A"])));
    assert_eq!(kept.take_pending_submit(), Some("A".to_string()));

    let mut emptied = Card::new().actions(labels(&["A"]));
    emptied.sync_from(Card::new());
    assert_eq!(emptied.focused_action(), None);
}

#[test]
fn zero_size_falls_back_to_the_default_width() {
    assert_eq!(Card::new().size(0, 50).intrinsic_size(), Size::new(200, 50));
    assert_eq!(Card::new().size(120, 0).intrinsic_size(), Size::new(120, 0));
}

#[test]
fn measured_content_sets_the_natural_height() {
    let mut card = Card::new();
    assert_eq!(card.intrinsic_size(), Size::new(200, 0));
    card.set_content_height(100);
    assert_eq!(card.intrinsic_size(), Size::new(200, 132));
    let mut titled = Card::new().title("Report").actions(labels(&["OK"]));
    titled.set_content_height(100);
    assert_eq!(titled.intrinsic_size(), Size::new(200, 56 + 100 + 16 + 40));
    titled.children_changed();
    assert_eq!(titled.intrinsic_size(), Size::new(200, 0));
    let mut fixed = Card::new().size(0, 80);
    fixed.set_content_height(100);
    assert_eq!(fixed.intrinsic_size(), Size::new(200, 80));
}
