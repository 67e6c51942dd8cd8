use lib::collapse::{Collapse, CollapsePanel};
use lib::event::{EventResult, KeyCode};

fn three_panels() -> Vec<CollapsePanel> {
    vec![
        CollapsePanel::new("One", "first"),
        CollapsePanel::new("Two", "second"),
        CollapsePanel::new("Three", "third"),
    ]
}

fn keys(c: &Collapse) -> Vec<String> {
    c.expanded_keys()
}

#[test]
fn blank_key_keeps_header_identity() {
    let p = CollapsePanel::new("Header", "body").key("   ");
    assert_eq!(p.stable_key(), "Header");
    let q = CollapsePanel::new("Header", "body").key("k1");
    assert_eq!(q.stable_key(), "k1");
    assert_eq!(q.header_text(), "Header");
}

#[test]
fn toggling_opens_and_closes_panels() {
    let mut c = Collapse::new().panels(three_panels());
    c.toggle_panel(0);
    c.toggle_panel(2);
    assert_eq!(c.expanded_indices(), vec![0, 2]);
    assert_eq!(keys(&c), vec!["One".to_string(), "Three".to_string()]);
    assert_eq!(c.take_pending_change(), Some("Three".to_string()));
    assert!(c.take_layout_request());
    c.toggle_panel(0);
    assert_eq!(c.expanded_indices(), vec![2]);
}

#[test]
fn toggle_twice_restores_the_panels() {
    let mut c = Collapse::new().panels(three_panels());
    c.toggle_panel(1);
    c.toggle_panel(1);
    assert_eq!(c.expanded_indices(), Vec::<usize>::new());
}

#[test]
fn accordion_keeps_one_panel_open() {
    let mut c = Collapse::new().accordion().panels(three_panels());
    c.toggle_panel(0);
    c.toggle_panel(1);
    assert_eq!(c.expanded_indices(), vec![1]);
    let pre = vec![
        CollapsePanel::new("A", "").expanded(),
        CollapsePanel::new("B", "").expanded(),
    ];
    let d = Collapse::new().accordion().panels(pre);
    assert_eq!(d.expanded_indices(), vec![0]);
}

#[test]
fn bound_keys_decide_expansion() {
    let c = Collapse::new()
        .active_keys(vec!["Three".to_string(), "One".to_string()])
        .panels(three_panels());
    assert_eq!(c.expanded_indices(), vec![0, 2]);
    let a = Collapse::new()
        .accordion()
        .active_keys(vec!["Three".to_string(), "One".to_string()])
        .panels(three_panels());
    assert_eq!(a.expanded_indices(), vec![0]);
}

#[test]
fn user_toggle_writes_the_bound_keys() {
    let mut c = Collapse::new()
        .active_keys(vec!["One".to_string()])
        .panels(three_panels());
    c.toggle_panel(1);
    assert_eq!(c.bound_active_keys(), Some(vec!["One".to_string(), "Two".to_string()]));
}

#[test]
fn keyboard_moves_focus_and_toggles() {
    let mut c = Collapse::new().panels(three_panels());
    assert_eq!(c.on_key(KeyCode::Down), EventResult::Handled);
    assert_eq!(c.focused_header(), 1);
    c.on_key(KeyCode::End);
    assert_eq!(c.focused_header(), 2);
    c.on_key(KeyCode::Down);
    assert_eq!(c.focused_header(), 2);
    c.on_key(KeyCode::Enter);
    assert_eq!(c.expanded_indices(), vec![2]);
    c.on_key(KeyCode::Home);
    assert_eq!(c.focused_header(), 0);
}

#[test]
fn click_toggles_only_when_released_on_the_same_header() {
    let mut c = Collapse::new().panels(three_panels());
    assert_eq!(c.pointer_down(Some(1)), EventResult::Handled);
    assert_eq!(c.pointer_up(Some(2)), EventResult::Handled);
    assert_eq!(c.expanded_indices(), Vec::<usize>::new());
    c.pointer_down(Some(1));
    c.pointer_up(Some(1));
    assert_eq!(c.expanded_indices(), vec![1]);
    assert_eq!(c.pointer_up(Some(1)), EventResult::NotHandled);
    assert_eq!(c.pointer_move(Some(0)), EventResult::Handled);
    assert_eq!(c.pointer_move(Some(0)), EventResult::NotHandled);
}

#[test]
fn rebuild_keeps_state_by_key_when_reordered() {
    let mut c = Collapse::new().panels(three_panels());
    c.toggle_panel(0);
    c.move_focus(true);
    assert_eq!(c.focused_header(), 1);
    let reordered = vec![
        CollapsePanel::new("Three", "third"),
        CollapsePanel::new("Two", "second"),
        CollapsePanel::new("One", "first"),
    ];
    c.sync_from(Collapse::new().panels(reordered));
    assert_eq!(c.expanded_indices(), vec![2]);
    assert_eq!(c.focused_header(), 1);
}

#[test]
fn rebuild_with_new_panels_matches_by_position() {
    let mut c = Collapse::new().panels(three_panels());
    c.toggle_panel(1);
    let renamed = vec![
        CollapsePanel::new("X", ""),
        CollapsePanel::new("Y", ""),
        CollapsePanel::new("Z", ""),
    ];
    c.sync_from(Collapse::new().panels(renamed));
    assert_eq!(c.expanded_indices(), vec![1]);
}

#[test]
fn rebuild_under_a_binding_takes_the_bound_keys() {
    let mut c = Collapse::new().panels(three_panels());
    c.toggle_panel(0);
    c.sync_from(Collapse::new().active_keys(vec!["Two".to_string()]).panels(three_panels()));
    assert_eq!(c.expanded_indices(), vec![1]);
    assert!(!c.panel_present(0));
}

#[test]
fn focus_is_kept_in_range_after_a_shrinking_rebuild() {
    let mut c = Collapse::new().panels(three_panels());
    c.on_key(KeyCode::End);
    c.sync_from(Collapse::new().panels(vec![CollapsePanel::new("Other", "")]));
    assert_eq!(c.focused_header(), 0);
}

#[test]
fn transitions_keep_content_present_until_finished() {
    let mut c = Collapse::new().destroy_on_hide(true).panels(three_panels());
    assert!(c.desired_content_entries().is_empty());
    c.toggle_panel(1);
    c.toggle_panel(1);
    assert!(c.panel_present(1));
    assert_eq!(c.desired_content_entries().len(), 1);
    c.finish_transition(1);
    assert!(!c.panel_present(1));
    assert!(c.desired_content_entries().is_empty());
}

#[test]
fn content_keys_count_repeated_keys() {
    let c = Collapse::new().panels(vec![
        CollapsePanel::new("Same", "a"),
        CollapsePanel::new("Same", "b"),
        CollapsePanel::new("é", "c"),
    ]);
    assert_eq!(c.panel_content_key(0), "uix:collapse-content:4:0:Same");
    assert_eq!(c.panel_content_key(1), "uix:collapse-content:4:1:Same");
    assert_eq!(c.panel_content_key(2), "uix:collapse-content:2:0:é");
    assert_eq!(c.panel_content_key(7), "uix:collapse-content:0:0:");
    let entries = c.desired_content_entries();
    assert_eq!(entries.len(), 3);
    assert_eq!(entries[1].panel_index, 1);
    assert_eq!(entries[1].content, "b");
}
