//! Description list: labelled values placed in a grid of columns.

use vstd::prelude::*;

verus! {

/// Narrowest column a descriptions list keeps before dropping columns.
pub const MIN_COLUMN_WIDTH: u32 = 140;
/// Width a descriptions list asks for.
pub const DEFAULT_WIDTH: u32 = 600;
/// Height of the title row when a title is set.
pub const TITLE_HEIGHT: u32 = 32;
/// Label column width when none is chosen.
pub const DEFAULT_LABEL_WIDTH: u32 = 100;
/// Columns when none are chosen.
pub const DEFAULT_COLUMNS: usize = 3;

/// Control size of a descriptions list.
#[derive(Debug, Clone, Copy, PartialEq, Eq, Structural)]
pub enum ControlSize {
    /// Compact rows.
    Small,
    /// Regular rows.
    Medium,
    /// Tall rows.
    Large,
}

/// One label and value pair.
#[derive(Debug, Clone)]
pub struct DescriptionsItem {
    /// Label text.
    pub label: String,
    /// Value text.
    pub value: String,
    /// Columns the item covers.
    pub span: usize,
}

impl DescriptionsItem {
    /// Creates an item covering one column.
    pub fn new(label: &str, value: &str) -> (i: DescriptionsItem)
        ensures i.label@ == label@, i.value@ == value@, i.span == 1,
    {
        DescriptionsItem { label: label.to_owned(), value: value.to_owned(), span: 1 }
    }

    /// Sets the number of columns the item covers, at least one.
    pub fn span(self, s: usize) -> (i: DescriptionsItem)
        ensures
            i.label == self.label,
            i.value == self.value,
            i.span == if s < 1 { 1 } else { s },
    {
        let mut i = self;
        i.span = if s < 1 { 1 } else { s };
        i
    }
}

/// Where an item lands in the grid.
#[derive(Debug, Clone, Copy, PartialEq, Eq, Structural)]
pub struct ItemPlacement {
    /// Index of the item.
    pub item_index: usize,
    /// Row, from 0.
    pub row: usize,
    /// First column, from 0.
    pub column: usize,
    /// Columns covered.
    pub span: usize,
}

/// Placements of the first items with the cursor after them.
pub struct PlacementState {
    /// Placements so far.
    pub placements: Seq<ItemPlacement>,
    /// Current row.
    pub row: int,
    /// Columns of the current row already used.
    pub used: int,
}

/// A span brought into `[1, columns]`.
pub open spec fn clamped_span(span: int, columns: int) -> int {
    if span < 1 { 1 } else if span > columns { columns } else { span }
}

/// The cursor after placing one more item of `span` columns: an item that does
/// not fit in the rest of the current row starts the next row.
pub open spec fn place_step(s: PlacementState, span_raw: int, columns: int, index: int) -> PlacementState {
    let span = clamped_span(span_raw, columns);
    let wrap = s.used == columns || s.used + span > columns;
    let row = if wrap { s.row + 1 } else { s.row };
    let used = if wrap { 0 } else { s.used };
    PlacementState {
        placements: s.placements.push(ItemPlacement {
            item_index: index as usize,
            row: row as usize,
            column: used as usize,
            span: span as usize,
        }),
        row,
        used: used + span,
    }
}

/// Rows are filled left to right, item after item.
pub open spec fn place_items(spans: Seq<usize>, columns: int, n: int) -> PlacementState
    decreases n,
{
    if n <= 0 {
        PlacementState { placements: Seq::empty(), row: 0, used: 0 }
    } else {
        place_step(place_items(spans, columns, n - 1), spans[n - 1] as int, columns, n - 1)
    }
}

/// Spans of an item list.
pub open spec fn item_spans(items: Seq<DescriptionsItem>) -> Seq<usize> {
    items.map_values(|i: DescriptionsItem| i.span)
}

/// The state of a descriptions list as plain values.
pub struct DescriptionsModel {
    /// Title text.
    pub title: Seq<char>,
    /// Items in order.
    pub items: Seq<DescriptionsItem>,
    /// Cells have borders.
    pub bordered: bool,
    /// The border setting was chosen explicitly.
    pub bordered_authored: bool,
    /// Preferred number of columns.
    pub column: int,
    /// The column count was chosen explicitly.
    pub column_authored: bool,
    /// Preferred label column width.
    pub label_width: int,
    /// The label width was chosen explicitly.
    pub label_width_authored: bool,
    /// Row size.
    pub size: ControlSize,
}

/// A list of label and value pairs laid out in columns.
pub struct Descriptions {
    title: String,
    items: Vec<DescriptionsItem>,
    bordered: bool,
    bordered_authored: bool,
    column: usize,
    column_authored: bool,
    label_width: u32,
    label_width_authored: bool,
    size: ControlSize,
}

impl View for Descriptions {
    type V = DescriptionsModel;

    closed spec fn view(&self) -> DescriptionsModel {
        DescriptionsModel {
            title: self.title@,
            items: self.items@,
            bordered: self.bordered,
            bordered_authored: self.bordered_authored,
            column: self.column as int,
            column_authored: self.column_authored,
            label_width: self.label_width as int,
            label_width_authored: self.label_width_authored,
            size: self.size,
        }
    }
}

impl Descriptions {
    /// Well-formed list: at least one column.
    pub open spec fn wf(&self) -> bool {
        self@.column >= 1
    }

    /// Creates an empty, borderless list of three columns.
    pub fn new() -> (d: Descriptions)
        ensures
            d.wf(),
            d@.title.len() == 0,
            d@.items.len() == 0,
            !d@.bordered,
            !d@.bordered_authored,
            d@.column == DEFAULT_COLUMNS,
            !d@.column_authored,
            d@.label_width == DEFAULT_LABEL_WIDTH,
            !d@.label_width_authored,
            d@.size == ControlSize::Medium,
    {
        Descriptions {
            title: String::new(),
            items: Vec::new(),
            bordered: false,
            bordered_authored: false,
            column: DEFAULT_COLUMNS,
            column_authored: false,
            label_width: DEFAULT_LABEL_WIDTH,
            label_width_authored: false,
            size: ControlSize::Medium,
        }
    }

    /// Sets the title.
    pub fn title(self, t: &str) -> (d: Descriptions)
        requires self.wf(),
        ensures d.wf(), d@ == (DescriptionsModel { title: t@, ..self@ }),
    {
        let mut d = self;
        d.title = t.to_owned();
        d
    }

    /// Replaces the items.
    pub fn items(self, items: Vec<DescriptionsItem>) -> (d: Descriptions)
        requires self.wf(),
        ensures d.wf(), d@ == (DescriptionsModel { items: items@, ..self@ }),
    {
        let mut d = self;
        d.items = items;
        d
    }

    /// Appends an item.
    pub fn add(self, item: DescriptionsItem) -> (d: Descriptions)
        requires self.wf(),
        ensures d.wf(), d@ == (DescriptionsModel { items: self@.items.push(item), ..self@ }),
    {
        let mut d = self;
        d.items.push(item);
        d
    }

    /// Shows or hides cell borders.
    pub fn bordered(self, v: bool) -> (d: Descriptions)
        requires self.wf(),
        ensures d.wf(), d@ == (DescriptionsModel { bordered: v, bordered_authored: true, ..self@ }),
    {
        let mut d = self;
        d.bordered = v;
        d.bordered_authored = true;
        d
    }

    /// Sets the preferred number of columns, at least one.
    pub fn column(self, v: usize) -> (d: Descriptions)
        requires self.wf(),
        ensures
            d.wf(),
            d@ == (DescriptionsModel {
                column: if v < 1 { 1 } else { v as int },
                column_authored: true,
                ..self@
            }),
    {
        let mut d = self;
        d.column = if v < 1 { 1 } else { v };
        d.column_authored = true;
        d
    }

    /// Sets the preferred label column width.
    pub fn label_width(self, w: u32) -> (d: Descriptions)
        requires self.wf(),
        ensures
            d.wf(),
            d@ == (DescriptionsModel { label_width: w as int, label_width_authored: true, ..self@ }),
    {
        let mut d = self;
        d.label_width = w;
        d.label_width_authored = true;
        d
    }

    /// Sets the row size.
    pub fn size(self, s: ControlSize) -> (d: Descriptions)
        requires self.wf(),
        ensures d.wf(), d@ == (DescriptionsModel { size: s, ..self@ }),
    {
        let mut d = self;
        d.size = s;
        d
    }

    /// The items.
    pub fn item_list(&self) -> (r: &Vec<DescriptionsItem>)
        ensures r@ == self@.items,
    {
        &self.items
    }

    /// Adopts the declared settings of the next build.
    pub fn sync_from(&mut self, next: Descriptions)
        requires old(self).wf(), next.wf(),
        ensures final(self).wf(), final(self)@ == next@,
    {
        *self = next;
    }

    /// Height of the title row: none without a title.
    pub fn title_height(&self) -> (r: u32)
        ensures r == if self@.title.len() == 0 { 0 } else { TITLE_HEIGHT },
    {
        if self.title.as_str().is_empty() { 0 } else { TITLE_HEIGHT }
    }

    /// Smallest row height for the control size.
    pub fn base_item_height(&self) -> (r: u32)
        ensures r == match self@.size {
            ControlSize::Small => 28u32,
            ControlSize::Medium => 36u32,
            ControlSize::Large => 44u32,
        },
    {
        match self.size {
            ControlSize::Small => 28,
            ControlSize::Medium => 36,
            ControlSize::Large => 44,
        }
    }

    /// Columns used at `width`: the preferred count, reduced so each column
    /// keeps its minimum width, and never fewer than one.
    pub fn effective_columns(&self, width: u32) -> (r: usize)
        requires self.wf(),
        ensures
            r >= 1,
            r == if self@.column < (if width / MIN_COLUMN_WIDTH < 1 { 1 } else { width / MIN_COLUMN_WIDTH }) {
                self@.column
            } else {
                (if width / MIN_COLUMN_WIDTH < 1 { 1 } else { width / MIN_COLUMN_WIDTH }) as int
            },
            r <= self@.column,
            r == 1 || r * MIN_COLUMN_WIDTH <= width,
            r == self@.column || (r + 1) * MIN_COLUMN_WIDTH > width,
    {
        let q = width / MIN_COLUMN_WIDTH;
        proof {
            vstd::arithmetic::div_mod::lemma_fundamental_div_mod(width as int, MIN_COLUMN_WIDTH as int);
            assert(q * MIN_COLUMN_WIDTH <= width < (q + 1) * MIN_COLUMN_WIDTH) by (nonlinear_arith)
                requires
                    width == MIN_COLUMN_WIDTH * q + width % MIN_COLUMN_WIDTH,
                    0 <= width % MIN_COLUMN_WIDTH < MIN_COLUMN_WIDTH;
        }
        let fitting = q as usize;
        let fitting = if fitting < 1 { 1 } else { fitting };
        let r = if self.column < fitting { self.column } else { fitting };
        proof {
            if r < fitting {
                assert(r * MIN_COLUMN_WIDTH <= q * MIN_COLUMN_WIDTH) by (nonlinear_arith)
                    requires r <= q, r >= 0;
            }
        }
        r
    }

    /// Places each item in the grid of `columns` columns (at least one).
    pub fn item_placements(&self, columns: usize) -> (r: Vec<ItemPlacement>)
        ensures
            r@ == place_items(item_spans(self@.items), if columns < 1 { 1 } else { columns as int },
                self@.items.len() as int).placements,
            r@.len() == self@.items.len(),
            forall|k: int| 0 <= k < r@.len() ==> (#[trigger] r@[k]).item_index == k && r@[k].span
                == ({
                    let c = if columns < 1 { 1 } else { columns as int };
                    let raw = self@.items[k].span as int;
                    if raw < 1 { 1 } else if raw > c { c } else { raw }
                }),
            r@.len() > 0 ==> r@[0].row == 0 && r@[0].column == 0,
            forall|k: int| 0 < k < r@.len() ==> {
                let c = if columns < 1 { 1 } else { columns as int };
                let prev = r@[k - 1];
                let cur = #[trigger] r@[k];
                if prev.column + prev.span + cur.span <= c {
                    cur.row == prev.row && cur.column == prev.column + prev.span
                } else {
                    cur.row == prev.row + 1 && cur.column == 0
                }
            },
    {
        let columns = if columns < 1 { 1 } else { columns };
        let ghost spans = item_spans(self@.items);
        let mut row: usize = 0;
        let mut used: usize = 0;
        let mut placements: Vec<ItemPlacement> = Vec::new();
        let n = self.items.len();
        for i in 0..n
            invariant
                n == self@.items.len(),
                spans == item_spans(self@.items),
                columns >= 1,
                used <= columns,
                row <= i,
                place_items(spans, columns as int, i as int)
                    == (PlacementState { placements: placements@, row: row as int, used: used as int }),
        {
            let raw = self.items[i].span;
            let span = if raw < 1 { 1 } else if raw > columns { columns } else { raw };
            if used == columns || span > columns - used {
                row = row + 1;
                used = 0;
            }
            placements.push(ItemPlacement { item_index: i, row, column: used, span });
            used = used + span;
        }
        proof {
            lemma_placements_greedy(spans, columns as int, n as int);
            lemma_placements_well_laid(spans, columns as int, n as int);
            assert forall|k: int| 0 <= k < n implies spans[k] == self@.items[k].span by {}
        }
        placements
    }
}

/// Every placement lies inside the grid: spans from 1 to `columns`, columns
/// that fit, and rows that stay or advance by one; within a row items follow
/// each other without gaps, and a new row starts at column 0.
pub open spec fn placements_well_laid(ps: Seq<ItemPlacement>, columns: int) -> bool {
    &&& forall|k: int| 0 <= k < ps.len() ==> 1 <= (#[trigger] ps[k]).span <= columns
        && ps[k].column + ps[k].span <= columns && ps[k].item_index == k
    &&& ps.len() > 0 ==> ps[0].row == 0 && ps[0].column == 0
    &&& forall|k: int| 0 < k < ps.len() ==> #[trigger] follows(ps[k - 1], ps[k])
}

/// `cur` comes right after `prev` in the same row, or starts the next row.
pub open spec fn follows(prev: ItemPlacement, cur: ItemPlacement) -> bool {
    ||| (cur.row == prev.row && cur.column == prev.column + prev.span)
    ||| (cur.row == prev.row + 1 && cur.column == 0)
}

/// A cursor consistent with its placements.
pub open spec fn placement_state_ok(s: PlacementState, columns: int, n: int) -> bool {
    &&& placements_well_laid(s.placements, columns)
    &&& s.placements.len() == n
    &&& 0 <= s.used <= columns
    &&& 0 <= s.row <= n
    &&& n > 0 ==> s.row == s.placements[n - 1].row
        && s.used == s.placements[n - 1].column + s.placements[n - 1].span
    &&& n == 0 ==> s.row == 0 && s.used == 0
}

/// Placing one more item keeps the layout consistent.
pub proof fn lemma_place_step_ok(s: PlacementState, span_raw: int, columns: int, n: int)
    requires
        1 <= columns <= usize::MAX,
        0 <= n < usize::MAX,
        placement_state_ok(s, columns, n),
    ensures
        placement_state_ok(place_step(s, span_raw, columns, n), columns, n + 1),
{
    let t = place_step(s, span_raw, columns, n);
    let ps = t.placements;
    let last = ps[n];
    assert(ps == s.placements.push(last));
    assert forall|k: int| 0 <= k < ps.len() implies 1 <= (#[trigger] ps[k]).span <= columns
        && ps[k].column + ps[k].span <= columns && ps[k].item_index == k by {
        if k < n {
            assert(ps[k] == s.placements[k]);
        }
    }
    assert forall|k: int| 0 < k < ps.len() implies #[trigger] follows(ps[k - 1], ps[k]) by {
        assert(ps[k - 1] == s.placements[k - 1]);
        if k < n {
            assert(ps[k] == s.placements[k]);
            assert(follows(s.placements[k - 1], s.placements[k]));
        }
    }
    if n > 0 {
        assert(ps[0] == s.placements[0]);
    }
}

/// Laying out items in a grid never overflows a row and keeps items in
/// reading order: every item covers 1 to `columns` columns inside the grid,
/// items of a row follow each other without gaps, and a new row starts at
/// column 0, one row below.
pub proof fn lemma_placements_well_laid(spans: Seq<usize>, columns: int, n: int)
    requires
        1 <= columns <= usize::MAX,
        0 <= n <= spans.len() <= usize::MAX,
    ensures
        placements_well_laid(place_items(spans, columns, n).placements, columns),
        place_items(spans, columns, n).placements.len() == n,
    decreases n,
{
    lemma_place_items_ok(spans, columns, n);
}

/// Items fill a row greedily: every item takes its span brought into 1 to
/// `columns`, the first item opens row 0 at column 0, and each later item stays
/// in the row of the item before it, right after it, exactly when it fits in
/// the rest of that row; otherwise it opens the next row at column 0.
pub proof fn lemma_placements_greedy(spans: Seq<usize>, columns: int, n: int)
    requires
        1 <= columns <= usize::MAX,
        0 <= n <= spans.len() <= usize::MAX,
    ensures
        ({
            let ps = place_items(spans, columns, n).placements;
            &&& ps.len() == n
            &&& forall|k: int| 0 <= k < n ==> (#[trigger] ps[k]).span
                == (if spans[k] < 1 { 1 } else if spans[k] > columns { columns } else { spans[k] as int })
            &&& n > 0 ==> ps[0].row == 0 && ps[0].column == 0
            &&& forall|k: int| 0 < k < n ==> {
                let prev = ps[k - 1];
                let cur = #[trigger] ps[k];
                if prev.column + prev.span + cur.span <= columns {
                    cur.row == prev.row && cur.column == prev.column + prev.span
                } else {
                    cur.row == prev.row + 1 && cur.column == 0
                }
            }
        }),
    decreases n,
{
    lemma_place_items_ok(spans, columns, n);
    if n > 0 {
        lemma_placements_greedy(spans, columns, n - 1);
        lemma_place_items_ok(spans, columns, n - 1);
        let s = place_items(spans, columns, n - 1);
        let ps = place_items(spans, columns, n).placements;
        assert(ps == s.placements.push(ps[n - 1]));
        assert forall|k: int| 0 <= k < n - 1 implies ps[k] == s.placements[k] by {}
    }
}

proof fn lemma_place_items_ok(spans: Seq<usize>, columns: int, n: int)
    requires
        1 <= columns <= usize::MAX,
        0 <= n <= spans.len() <= usize::MAX,
    ensures
        placement_state_ok(place_items(spans, columns, n), columns, n),
    decreases n,
{
    if n > 0 {
        lemma_place_items_ok(spans, columns, n - 1);
        lemma_place_step_ok(place_items(spans, columns, n - 1), spans[n - 1] as int, columns, n - 1);
    }
}

} // verus!
