use lib::descriptions::{ControlSize, Descriptions, DescriptionsItem, ItemPlacement};

fn placement(item_index: usize, row: usize, column: usize, span: usize) -> ItemPlacement {
    ItemPlacement { item_index, row, column, span }
}

#[test]
fn columns_shrink_to_fit_the_width() {
    let d = Descriptions::new();
    assert_eq!(d.effective_columns(600), 3);
    assert_eq!(d.effective_columns(300), 2);
    assert_eq!(d.effective_columns(100), 1);
    assert_eq!(Descriptions::new().column(0).effective_columns(600), 1);
    assert_eq!(Descriptions::new().column(5).effective_columns(1000), 5);
}

#[test]
fn row_heights_follow_the_size() {
    assert_eq!(Descriptions::new().base_item_height(), 36);
    assert_eq!(Descriptions::new().size(ControlSize::Small).base_item_height(), 28);
    assert_eq!(Descriptions::new().size(ControlSize::Large).base_item_height(), 44);
    assert_eq!(Descriptions::new().title_height(), 0);
    assert_eq!(Descriptions::new().title("User").title_height(), 32);
}

#[test]
fn items_wrap_when_a_row_is_full() {
    let d = Descriptions::new()
        .add(DescriptionsItem::new("Name", "Ada"))
        .add(DescriptionsItem::new("Mail", "ada@example.com").span(2))
        .add(DescriptionsItem::new("Note", "long").span(3))
        .add(DescriptionsItem::new("Tel", "1").span(0));
    assert_eq!(
        d.item_placements(3),
        vec![placement(0, 0, 0, 1), placement(1, 0, 1, 2), placement(2, 1, 0, 3), placement(3, 2, 0, 1)]
    );
    assert_eq!(
        d.item_placements(2),
        vec![placement(0, 0, 0, 1), placement(1, 1, 0, 2), placement(2, 2, 0, 2), placement(3, 3, 0, 1)]
    );
    assert_eq!(d.item_placements(0).len(), 4);
}

#[test]
fn descriptions_sync_takes_the_new_items() {
    let mut d = Descriptions::new().add(DescriptionsItem::new("A", "1"));
    d.sync_from(Descriptions::new().title("T"));
    assert_eq!(d.item_list().len(), 0);
    assert_eq!(d.title_height(), 32);
}
