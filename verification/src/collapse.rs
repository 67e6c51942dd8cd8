//! Collapse: panels that expand and collapse, alone or as an accordion,
//! optionally bound to a set of keys, and rebuilt by key.

use vstd::prelude::*;

use crate::event::{EventResult, KeyCode};
use vstd::string::StrSliceExecFns;

use crate::text::{digit_char, is_blank, push_decimal, push_text, spec_is_blank, text_eq, decimal, texts};

verus! {

/// A panel as plain values.
pub struct PanelModel {
    /// Explicit stable key, if one was set.
    pub key: Option<Seq<char>>,
    /// Header text.
    pub header: Seq<char>,
    /// Content text.
    pub content: Seq<char>,
    /// The panel is expanded.
    pub expanded: bool,
}

/// Stable identity of a panel: its explicit key, or its header.
pub open spec fn key_of(p: PanelModel) -> Seq<char> {
    match p.key {
        Some(k) => k,
        None => p.header,
    }
}

/// One collapsible panel.
#[derive(Debug, Clone)]
pub struct CollapsePanel {
    key: Option<String>,
    /// Header text, also the identity of a panel without an explicit key.
    pub header: String,
    /// Text shown while the panel is expanded.
    pub content: String,
    /// Whether the panel is expanded.
    pub expanded: bool,
}

impl View for CollapsePanel {
    type V = PanelModel;

    closed spec fn view(&self) -> PanelModel {
        PanelModel {
            key: match self.key {
                Some(k) => Some(k@),
                None => None,
            },
            header: self.header@,
            content: self.content@,
            expanded: self.expanded,
        }
    }
}

impl CollapsePanel {
    /// Creates a collapsed panel identified by its header.
    pub fn new(header: &str, content: &str) -> (p: CollapsePanel)
        ensures
            p@ == (PanelModel { key: None, header: header@, content: content@, expanded: false }),
    {
        CollapsePanel {
            key: None,
            header: header.to_owned(),
            content: content.to_owned(),
            expanded: false,
        }
    }

    /// Makes the panel start expanded.
    pub fn expanded(self) -> (p: CollapsePanel)
        ensures p@ == (PanelModel { expanded: true, ..self@ }),
    {
        let mut p = self;
        p.expanded = true;
        p
    }

    /// Sets an explicit stable key; a blank key keeps the header as identity.
    pub fn key(self, key: &str) -> (p: CollapsePanel)
        ensures
            p@ == if spec_is_blank(key@) { self@ } else { PanelModel { key: Some(key@), ..self@ } },
    {
        let mut p = self;
        if !is_blank(key) {
            p.key = Some(key.to_owned());
        }
        p
    }

    /// The explicit key, or the header when none was set.
    pub fn stable_key(&self) -> (r: &str)
        ensures r@ == key_of(self@),
    {
        match &self.key {
            Some(k) => k.as_str(),
            None => self.header.as_str(),
        }
    }

    /// The header text.
    pub fn header_text(&self) -> (r: &str)
        ensures r@ == self@.header,
    {
        self.header.as_str()
    }

    /// The panel with another expansion state.
    fn set_expanded(&mut self, expanded: bool)
        ensures final(self)@ == (PanelModel { expanded, ..old(self)@ }),
    {
        self.expanded = expanded;
    }

    fn is_expanded(&self) -> (r: bool)
        ensures r == self@.expanded,
    {
        self.expanded
    }
}

/// Panel models of a panel list.
pub open spec fn panel_models(v: Seq<CollapsePanel>) -> Seq<PanelModel> {
    v.map_values(|p: CollapsePanel| p@)
}

/// No earlier panel has the same stable key.
pub open spec fn is_first_with_key(ps: Seq<PanelModel>, i: int) -> bool {
    forall|j: int| 0 <= j < i ==> key_of(#[trigger] ps[j]) != key_of(ps[i])
}

/// The bound key set asks for panel `i`: its key is listed and no earlier panel owns it.
pub open spec fn requested(ps: Seq<PanelModel>, keys: Seq<Seq<char>>, i: int) -> bool {
    is_first_with_key(ps, i) && keys.contains(key_of(ps[i]))
}

/// Panels after adopting a bound key set: each requested panel expands, and in
/// accordion mode only the first requested one.
pub open spec fn bound_expansion(ps: Seq<PanelModel>, keys: Seq<Seq<char>>, accordion: bool) -> Seq<PanelModel> {
    Seq::new(ps.len(), |i: int| PanelModel {
        expanded: requested(ps, keys, i)
            && (!accordion || forall|j: int| 0 <= j < i ==> !#[trigger] requested(ps, keys, j)),
        ..ps[i]
    })
}

/// Panels with only the first expanded panel left expanded.
pub open spec fn accordion_normalized(ps: Seq<PanelModel>) -> Seq<PanelModel> {
    Seq::new(ps.len(), |i: int| PanelModel {
        expanded: ps[i].expanded && forall|j: int| 0 <= j < i ==> !(#[trigger] ps[j]).expanded,
        ..ps[i]
    })
}

/// Panels after the user sets panel `index` to `expanded`; expanding in
/// accordion mode closes every other panel.
pub open spec fn with_expanded(ps: Seq<PanelModel>, index: int, expanded: bool, accordion: bool) -> Seq<PanelModel> {
    Seq::new(ps.len(), |i: int| PanelModel {
        expanded: if i == index { expanded } else if accordion && expanded { false } else { ps[i].expanded },
        ..ps[i]
    })
}

/// Stable keys of the expanded panels among the first `n`, in order.
pub open spec fn expanded_keys_prefix(ps: Seq<PanelModel>, n: int) -> Seq<Seq<char>>
    decreases n,
{
    if n <= 0 {
        Seq::empty()
    } else if ps[n - 1].expanded {
        expanded_keys_prefix(ps, n - 1).push(key_of(ps[n - 1]))
    } else {
        expanded_keys_prefix(ps, n - 1)
    }
}

/// Stable keys of the expanded panels, in order.
pub open spec fn expanded_keys_of(ps: Seq<PanelModel>) -> Seq<Seq<char>> {
    expanded_keys_prefix(ps, ps.len() as int)
}

/// Indices of the expanded panels among the first `n`, in order.
pub open spec fn expanded_indices_prefix(ps: Seq<PanelModel>, n: int) -> Seq<usize>
    decreases n,
{
    if n <= 0 {
        Seq::empty()
    } else if ps[n - 1].expanded {
        expanded_indices_prefix(ps, n - 1).push((n - 1) as usize)
    } else {
        expanded_indices_prefix(ps, n - 1)
    }
}

/// At most one panel is expanded.
pub open spec fn at_most_one_expanded(ps: Seq<PanelModel>) -> bool {
    forall|i: int, j: int| 0 <= i < ps.len() && 0 <= j < ps.len() && ps[i].expanded && ps[j].expanded ==> i == j
}

/// The state of a collapse group as plain values.
pub struct CollapseModel {
    /// Panels in declaration order.
    pub panels: Seq<PanelModel>,
    /// At most one panel opens at a time through user interaction.
    pub accordion: bool,
    /// Value of the bound key set in controlled mode.
    pub binding: Option<Seq<Seq<char>>>,
    /// Borders are hidden.
    pub borderless: bool,
    /// The borderless setting was chosen explicitly.
    pub borderless_authored: bool,
    /// Content of collapsed panels is dropped once hidden.
    pub destroy_on_hide: bool,
    /// The group has keyboard focus.
    pub focused: bool,
    /// Header under keyboard focus.
    pub focused_header: int,
    /// Header under the pointer.
    pub hovered: Option<usize>,
    /// Header pressed and not yet released.
    pub pressed: Option<usize>,
    /// Panel whose toggle is not yet reported.
    pub pending: Option<usize>,
    /// Panels whose open or close transition still runs.
    pub animating: Seq<bool>,
    /// A new layout is wanted.
    pub layout_requested: bool,
}

/// Collapsible panel group.
pub struct Collapse {
    panels: Vec<CollapsePanel>,
    accordion: bool,
    active_keys_binding: Option<Vec<String>>,
    borderless: bool,
    borderless_authored: bool,
    destroy_on_hide: bool,
    focused: bool,
    focused_header: usize,
    hovered_header: Option<usize>,
    pressed_header: Option<usize>,
    pending_change: Option<usize>,
    animating: Vec<bool>,
    layout_requested: bool,
}


impl View for Collapse {
    type V = CollapseModel;

    closed spec fn view(&self) -> CollapseModel {
        CollapseModel {
            panels: panel_models(self.panels@),
            accordion: self.accordion,
            binding: match self.active_keys_binding {
                Some(v) => Some(texts(v@)),
                None => None,
            },
            borderless: self.borderless,
            borderless_authored: self.borderless_authored,
            destroy_on_hide: self.destroy_on_hide,
            focused: self.focused,
            focused_header: self.focused_header as int,
            hovered: self.hovered_header,
            pressed: self.pressed_header,
            pending: self.pending_change,
            animating: self.animating@,
            layout_requested: self.layout_requested,
        }
    }
}

/// Well-formed group: one transition flag per panel.
pub open spec fn collapse_wf(m: CollapseModel) -> bool {
    m.animating.len() == m.panels.len()
}

/// Panels after adopting the bound key set, if there is one, and otherwise
/// after applying the accordion rule to their own expansion states.
pub open spec fn settled_panels(ps: Seq<PanelModel>, binding: Option<Seq<Seq<char>>>, accordion: bool) -> Seq<PanelModel> {
    match binding {
        Some(keys) => bound_expansion(ps, keys, accordion),
        None => if accordion { accordion_normalized(ps) } else { ps },
    }
}

/// No transition runs.
pub open spec fn all_settled(a: Seq<bool>, n: int) -> bool {
    a.len() == n && forall|i: int| 0 <= i < n ==> !#[trigger] a[i]
}

/// Whether a panel's content takes space: expanded, or still animating.
pub open spec fn spec_panel_present(m: CollapseModel, i: int) -> bool {
    m.panels[i].expanded || m.animating[i]
}

/// The state after the user sets panel `index` to `expanded`.
pub open spec fn user_set_expanded(m: CollapseModel, index: int, expanded: bool) -> CollapseModel {
    if index < 0 || index >= m.panels.len() || m.panels[index].expanded == expanded {
        m
    } else {
        let ps = with_expanded(m.panels, index, expanded, m.accordion);
        CollapseModel {
            panels: ps,
            binding: match m.binding {
                Some(keys) => Some(expanded_keys_of(ps)),
                None => None,
            },
            animating: Seq::new(m.animating.len(), |i: int|
                m.animating[i] || ps[i].expanded != m.panels[i].expanded),
            layout_requested: true,
            pending: Some(index as usize),
            ..m
        }
    }
}

/// The state after the user toggles panel `index`.
pub open spec fn user_toggle(m: CollapseModel, index: int) -> CollapseModel {
    if 0 <= index < m.panels.len() {
        user_set_expanded(m, index, !m.panels[index].expanded)
    } else {
        m
    }
}

/// The state after adopting the bound key set.
pub open spec fn synced(m: CollapseModel) -> CollapseModel {
    match m.binding {
        Some(keys) => CollapseModel { panels: bound_expansion(m.panels, keys, m.accordion), ..m },
        None => m,
    }
}

/// How many of the first `n` panels have stable key `k`.
pub open spec fn key_count_prefix(ps: Seq<PanelModel>, k: Seq<char>, n: int) -> nat
    decreases n,
{
    if n <= 0 {
        0
    } else {
        key_count_prefix(ps, k, n - 1) + if key_of(ps[n - 1]) == k { 1nat } else { 0nat }
    }
}

/// How many panels have stable key `k`.
pub open spec fn key_count(ps: Seq<PanelModel>, k: Seq<char>) -> nat {
    key_count_prefix(ps, k, ps.len() as int)
}

/// The first panel at or after `c` with stable key `k` that `used` does not mark.
pub open spec fn first_unclaimed_from(ps: Seq<PanelModel>, used: Seq<bool>, k: Seq<char>, c: int) -> Option<usize>
    decreases ps.len() - c,
{
    if c < 0 || c >= ps.len() {
        None
    } else if !used[c] && key_of(ps[c]) == k {
        Some(c as usize)
    } else {
        first_unclaimed_from(ps, used, k, c + 1)
    }
}

/// Matches of the first `n` new panels to old panels, in order, with the old
/// panels claimed so far. A new panel whose key occurs exactly once among the
/// old panels and once among the new ones takes the unclaimed old panel with
/// that key; otherwise, when both lists are equally long, it takes the old
/// panel at its own position if that one is unclaimed.
pub open spec fn panel_matches(old_ps: Seq<PanelModel>, new_ps: Seq<PanelModel>, n: int) -> (Seq<Option<usize>>, Seq<bool>)
    decreases n,
{
    if n <= 0 {
        (Seq::empty(), Seq::new(old_ps.len(), |i: int| false))
    } else {
        let prev = panel_matches(old_ps, new_ps, n - 1);
        let used = prev.1;
        let key = key_of(new_ps[n - 1]);
        let by_key = if key_count(old_ps, key) == 1 && key_count(new_ps, key) == 1 {
            first_unclaimed_from(old_ps, used, key, 0)
        } else {
            None
        };
        let m = match by_key {
            Some(c) => Some(c),
            None => if old_ps.len() == new_ps.len() && !used[n - 1] { Some((n - 1) as usize) } else { None },
        };
        (prev.0.push(m), match m {
            Some(c) => used.update(c as int, true),
            None => used,
        })
    }
}

/// New panels with the expansion state of their matched old panels, unless a
/// bound key set decides.
pub open spec fn carried_panels(old_ps: Seq<PanelModel>, new_ps: Seq<PanelModel>, ms: Seq<Option<usize>>, controlled: bool) -> Seq<PanelModel> {
    Seq::new(new_ps.len(), |i: int|
        if !controlled && ms[i] is Some {
            PanelModel { expanded: old_ps[ms[i]->0 as int].expanded, ..new_ps[i] }
        } else {
            new_ps[i]
        })
}

/// Transition flags of the matched old panels; unmatched panels are settled.
pub open spec fn carried_animation(old_anim: Seq<bool>, ms: Seq<Option<usize>>) -> Seq<bool> {
    Seq::new(ms.len(), |i: int|
        match ms[i] {
            Some(c) => old_anim[c as int],
            None => false,
        })
}

/// The first panel at or after `c` with stable key `k`.
pub open spec fn first_key_from(ps: Seq<PanelModel>, k: Seq<char>, c: int) -> int
    decreases ps.len() - c,
{
    if c < 0 || c >= ps.len() {
        -1
    } else if key_of(ps[c]) == k {
        c
    } else {
        first_key_from(ps, k, c + 1)
    }
}

/// Focused header after a rebuild: the panel that now carries the focused
/// panel's key when exactly one does, else the old position kept in range.
pub open spec fn synced_focus(old_ps: Seq<PanelModel>, f: int, new_ps: Seq<PanelModel>) -> int {
    if 0 <= f < old_ps.len() && key_count(new_ps, key_of(old_ps[f])) == 1 {
        first_key_from(new_ps, key_of(old_ps[f]), 0)
    } else if new_ps.len() == 0 {
        0
    } else if f < new_ps.len() - 1 {
        f
    } else {
        new_ps.len() - 1
    }
}

/// The state after taking over the declaration `next`: panels are matched
/// to the old ones, keep their expansion state and transition unless a bound
/// key set decides, and the accordion rule or the bound key set then settles
/// them; a panel whose state that changes, and every panel of a controlled
/// group, stops animating; pointer state is dropped and keyboard focus follows
/// its panel's key.
pub open spec fn spec_sync_from(m: CollapseModel, next: CollapseModel) -> CollapseModel {
    let ms = panel_matches(m.panels, next.panels, next.panels.len() as int).0;
    let controlled = next.binding is Some;
    let pre = carried_panels(m.panels, next.panels, ms, controlled);
    let settled = settled_panels(pre, next.binding, next.accordion);
    let carried = carried_animation(m.animating, ms);
    CollapseModel {
        panels: settled,
        accordion: next.accordion,
        binding: next.binding,
        borderless: next.borderless,
        borderless_authored: next.borderless_authored,
        destroy_on_hide: next.destroy_on_hide,
        focused_header: synced_focus(m.panels, m.focused_header, settled),
        hovered: None,
        pressed: None,
        animating: Seq::new(pre.len(), |i: int|
            !controlled && settled[i].expanded == pre[i].expanded && carried[i]),
        ..m
    }
}

/// How many panels have stable key `key`.
fn count_key(panels: &Vec<CollapsePanel>, key: &str) -> (r: usize)
    ensures r == key_count(panel_models(panels@), key@),
{
    let ghost ps = panel_models(panels@);
    let mut r: usize = 0;
    let n = panels.len();
    for i in 0..n
        invariant
            n == panels@.len(),
            ps == panel_models(panels@),
            r == key_count_prefix(ps, key@, i as int),
            r <= i,
    {
        if text_eq(panels[i].stable_key(), key) {
            r = r + 1;
        }
    }
    r
}

/// The first panel with key `key` that `used` does not mark.
fn first_unclaimed(panels: &Vec<CollapsePanel>, used: &Vec<bool>, key: &str) -> (r: Option<usize>)
    requires used@.len() == panels@.len(),
    ensures r == first_unclaimed_from(panel_models(panels@), used@, key@, 0),
{
    let ghost ps = panel_models(panels@);
    let n = panels.len();
    for c in 0..n
        invariant
            n == panels@.len(),
            used@.len() == n,
            ps == panel_models(panels@),
            first_unclaimed_from(ps, used@, key@, 0) == first_unclaimed_from(ps, used@, key@, c as int),
    {
        if !used[c] && text_eq(panels[c].stable_key(), key) {
            return Some(c);
        }
    }
    None
}

/// The first panel with key `key`.
fn first_key(panels: &Vec<CollapsePanel>, key: &str) -> (r: usize)
    requires first_key_from(panel_models(panels@), key@, 0) >= 0,
    ensures r == first_key_from(panel_models(panels@), key@, 0),
{
    let ghost ps = panel_models(panels@);
    let n = panels.len();
    let mut c: usize = 0;
    while c < n
        invariant
            n == panels@.len(),
            ps == panel_models(panels@),
            c <= n,
            first_key_from(ps, key@, 0) == first_key_from(ps, key@, c as int),
        decreases n - c,
    {
        if text_eq(panels[c].stable_key(), key) {
            return c;
        }
        c = c + 1;
    }
    c
}

/// A panel counted once has a first position.
proof fn lemma_counted_key_found(ps: Seq<PanelModel>, k: Seq<char>, n: int, c: int)
    requires
        0 <= c <= n <= ps.len(),
        key_count_prefix(ps, k, n) > key_count_prefix(ps, k, c),
    ensures first_key_from(ps, k, c) >= c,
    decreases n - c,
{
    if key_of(ps[c]) != k {
        lemma_count_prefix_step(ps, k, c, n);
        lemma_counted_key_found(ps, k, n, c + 1);
    }
}

/// Counting up to `n` from `c` adds the panel at `c` first.
proof fn lemma_count_prefix_step(ps: Seq<PanelModel>, k: Seq<char>, c: int, n: int)
    requires 0 <= c < n <= ps.len(), key_of(ps[c]) != k,
    ensures key_count_prefix(ps, k, n) - key_count_prefix(ps, k, c) == key_count_prefix(ps, k, n) - key_count_prefix(ps, k, c + 1),
{
}

/// Bytes a character takes in UTF-8.
pub open spec fn utf8_width(c: char) -> nat {
    if (c as u32) < 0x80 {
        1
    } else if (c as u32) < 0x800 {
        2
    } else if (c as u32) < 0x10000 {
        3
    } else {
        4
    }
}

/// Bytes a text takes in UTF-8.
pub open spec fn utf8_len(s: Seq<char>) -> nat
    decreases s.len(),
{
    if s.len() == 0 { 0 } else { utf8_len(s.drop_last()) + utf8_width(s.last()) }
}

/// Identity of the content view of panel `i`: its key's byte length, how many
/// earlier panels share its key, and the key itself, so that panels with equal
/// keys get distinct identities.
pub open spec fn spec_content_key(ps: Seq<PanelModel>, i: int) -> Seq<char> {
    let key = if 0 <= i < ps.len() { key_of(ps[i]) } else { Seq::<char>::empty() };
    let before = if i < ps.len() { i } else { ps.len() as int };
    "uix:collapse-content:"@ + decimal(utf8_len(key)) + ":"@ + decimal(key_count_prefix(ps, key, before)) + ":"@ + key
}

/// Content views a group keeps: every panel's, or with `destroy_on_hide` only
/// those of panels that are expanded or still animating; among the first `n`.
pub open spec fn content_entries_prefix(m: CollapseModel, n: int) -> Seq<(usize, Seq<char>, Seq<char>)>
    decreases n,
{
    if n <= 0 {
        Seq::empty()
    } else if !m.destroy_on_hide || spec_panel_present(m, n - 1) {
        content_entries_prefix(m, n - 1).push(((n - 1) as usize, spec_content_key(m.panels, n - 1), m.panels[n - 1].content))
    } else {
        content_entries_prefix(m, n - 1)
    }
}

/// Decimal notation holds no colon.
proof fn lemma_decimal_no_colon(n: nat)
    ensures
        decimal(n).len() >= 1,
        forall|i: int| 0 <= i < decimal(n).len() ==> decimal(n)[i] != ':',
    decreases n,
{
    if n >= 10 {
        lemma_decimal_no_colon(n / 10);
        let d = decimal(n / 10).push(digit_char((n % 10) as int));
        assert(decimal(n) == d);
        assert forall|i: int| 0 <= i < d.len() implies d[i] != ':' by {
            if i < d.len() - 1 {
                assert(d[i] == decimal(n / 10)[i]);
            }
        }
    }
}

/// Different numbers have different decimal notations.
proof fn lemma_decimal_injective(a: nat, b: nat)
    requires decimal(a) == decimal(b),
    ensures a == b,
    decreases a,
{
    lemma_decimal_no_colon(a / 10);
    lemma_decimal_no_colon(b / 10);
    if a >= 10 && b >= 10 {
        assert(decimal(a).drop_last() =~= decimal(a / 10));
        assert(decimal(b).drop_last() =~= decimal(b / 10));
        lemma_decimal_injective(a / 10, b / 10);
        assert(decimal(a).last() == digit_char((a % 10) as int));
        assert(decimal(b).last() == digit_char((b % 10) as int));
    } else if a >= 10 {
        assert(decimal(a).len() >= 2);
    } else if b >= 10 {
        assert(decimal(b).len() >= 2);
    } else {
        assert(decimal(a)[0] == digit_char(a as int));
        assert(decimal(b)[0] == digit_char(b as int));
    }
}

/// Two texts made of a colon-free part, a colon and a rest are equal only
/// when both parts are.
proof fn lemma_split_at_colon(d1: Seq<char>, r1: Seq<char>, d2: Seq<char>, r2: Seq<char>)
    requires
        forall|i: int| 0 <= i < d1.len() ==> d1[i] != ':',
        forall|i: int| 0 <= i < d2.len() ==> d2[i] != ':',
        d1 + seq![':'] + r1 == d2 + seq![':'] + r2,
    ensures d1 == d2, r1 == r2,
{
    let a = d1 + seq![':'] + r1;
    let b = d2 + seq![':'] + r2;
    if d1.len() < d2.len() {
        assert(a[d1.len() as int] == ':');
        assert(b[d1.len() as int] == d2[d1.len() as int]);
    } else if d2.len() < d1.len() {
        assert(b[d2.len() as int] == ':');
        assert(a[d2.len() as int] == d1[d2.len() as int]);
    } else {
        assert(d1 =~= a.take(d1.len() as int));
        assert(d2 =~= b.take(d2.len() as int));
        assert(r1 =~= a.skip(d1.len() as int + 1));
        assert(r2 =~= b.skip(d2.len() as int + 1));
    }
}

/// Counting a key over a longer prefix counts at least as many panels.
proof fn lemma_key_count_monotonic(ps: Seq<PanelModel>, k: Seq<char>, a: int, b: int)
    requires 0 <= a <= b,
    ensures key_count_prefix(ps, k, a) <= key_count_prefix(ps, k, b),
    decreases b - a,
{
    if a < b {
        lemma_key_count_monotonic(ps, k, a, b - 1);
    }
}

/// Every panel's content view has its own identity: two different panels
/// never share a content key, even when their stable keys are equal.
pub proof fn lemma_content_keys_distinct(ps: Seq<PanelModel>, i: int, j: int)
    requires 0 <= i < ps.len(), 0 <= j < ps.len(), i != j,
    ensures spec_content_key(ps, i) != spec_content_key(ps, j),
{
    let ki = key_of(ps[i]);
    let kj = key_of(ps[j]);
    let oi = key_count_prefix(ps, ki, i);
    let oj = key_count_prefix(ps, kj, j);
    let prefix = "uix:collapse-content:"@;
    reveal_strlit(":");
    assert(":"@ =~= seq![':']);
    let ti = decimal(utf8_len(ki)) + seq![':'] + (decimal(oi) + seq![':'] + ki);
    let tj = decimal(utf8_len(kj)) + seq![':'] + (decimal(oj) + seq![':'] + kj);
    assert(spec_content_key(ps, i) =~= prefix + ti);
    assert(spec_content_key(ps, j) =~= prefix + tj);
    if spec_content_key(ps, i) == spec_content_key(ps, j) {
        assert(ti =~= (prefix + ti).skip(prefix.len() as int));
        assert(tj =~= (prefix + tj).skip(prefix.len() as int));
        lemma_decimal_no_colon(utf8_len(ki));
        lemma_decimal_no_colon(utf8_len(kj));
        lemma_split_at_colon(decimal(utf8_len(ki)), decimal(oi) + seq![':'] + ki,
            decimal(utf8_len(kj)), decimal(oj) + seq![':'] + kj);
        lemma_decimal_no_colon(oi);
        lemma_decimal_no_colon(oj);
        lemma_split_at_colon(decimal(oi), ki, decimal(oj), kj);
        lemma_decimal_injective(oi, oj);
        if i < j {
            lemma_key_count_monotonic(ps, ki, i + 1, j);
        } else {
            lemma_key_count_monotonic(ps, kj, j + 1, i);
        }
    }
}

/// A content view a group keeps for one of its panels.
pub struct CollapseContentEntry {
    /// Position of the panel.
    pub panel_index: usize,
    /// Identity of the view.
    pub key: String,
    /// Content text.
    pub content: String,
}

/// Plain view of content entries.
pub open spec fn entry_models(v: Seq<CollapseContentEntry>) -> Seq<(usize, Seq<char>, Seq<char>)> {
    v.map_values(|e: CollapseContentEntry| (e.panel_index, e.key@, e.content@))
}

/// Bytes `s` takes in UTF-8.
fn utf8_byte_len(s: &str) -> (r: u128)
    ensures r == utf8_len(s@),
{
    let n = s.unicode_len();
    let mut total: u128 = 0;
    for i in 0..n
        invariant
            n == s@.len(),
            total == utf8_len(s@.take(i as int)),
            total <= 4 * i,
    {
        let c = s.get_char(i);
        let code = c as u32;
        let w: u128 = if code < 0x80 { 1 } else if code < 0x800 { 2 } else if code < 0x10000 { 3 } else { 4 };
        assert(s@.take(i + 1).drop_last() =~= s@.take(i as int));
        total = total + w;
    }
    assert(s@.take(n as int) =~= s@);
    total
}

impl Collapse {
    /// Well-formedness of the group.
    pub open spec fn wf(&self) -> bool {
        collapse_wf(self@)
    }

    /// Creates an empty, uncontrolled group that allows several open panels.
    pub fn new() -> (c: Collapse)
        ensures
            c.wf(),
            c@.panels.len() == 0,
            !c@.accordion,
            c@.binding is None,
            !c@.borderless,
            !c@.borderless_authored,
            !c@.destroy_on_hide,
            !c@.focused,
            c@.focused_header == 0,
            c@.hovered is None,
            c@.pressed is None,
            c@.pending is None,
            !c@.layout_requested,
    {
        Collapse {
            panels: Vec::new(),
            accordion: false,
            active_keys_binding: None,
            borderless: false,
            borderless_authored: false,
            destroy_on_hide: false,
            focused: false,
            focused_header: 0,
            hovered_header: None,
            pressed_header: None,
            pending_change: None,
            animating: Vec::new(),
            layout_requested: false,
        }
    }

    fn settled_transitions(n: usize) -> (r: Vec<bool>)
        ensures all_settled(r@, n as int),
    {
        let mut r: Vec<bool> = Vec::new();
        for i in 0..n
            invariant all_settled(r@, i as int),
        {
            r.push(false);
        }
        r
    }

    /// Sets the panels; a bound key set decides which are expanded, otherwise
    /// their own states stand (reduced to the first one in accordion mode).
    pub fn panels(self, ps: Vec<CollapsePanel>) -> (c: Collapse)
        requires self.wf(),
        ensures
            c.wf(),
            c@ == (CollapseModel {
                panels: settled_panels(panel_models(ps@), self@.binding, self@.accordion),
                animating: c@.animating,
                ..self@
            }),
            all_settled(c@.animating, ps@.len() as int),
    {
        let mut c = self;
        c.panels = ps;
        c.animating = Self::settled_transitions(c.panels.len());
        if c.active_keys_binding.is_some() {
            c.sync_bound_active_keys();
        } else {
            c.normalize_accordion();
        }
        c
    }

    /// Turns on accordion mode.
    pub fn accordion(self) -> (c: Collapse)
        requires self.wf(),
        ensures
            c.wf(),
            c@ == (CollapseModel {
                accordion: true,
                panels: settled_panels(self@.panels, self@.binding, true),
                animating: c@.animating,
                ..self@
            }),
            all_settled(c@.animating, self@.panels.len() as int),
    {
        self.accordion_enabled(true)
    }

    /// Turns accordion mode on or off.
    pub fn accordion_enabled(self, value: bool) -> (c: Collapse)
        requires self.wf(),
        ensures
            c.wf(),
            c@ == (CollapseModel {
                accordion: value,
                panels: settled_panels(self@.panels, self@.binding, value),
                animating: c@.animating,
                ..self@
            }),
            all_settled(c@.animating, self@.panels.len() as int),
    {
        let mut c = self;
        c.accordion = value;
        if c.active_keys_binding.is_some() {
            c.sync_bound_active_keys();
        } else {
            c.normalize_accordion();
        }
        c.animating = Self::settled_transitions(c.panels.len());
        c
    }

    /// Binds the set of expanded panel keys to a state (controlled mode).
    pub fn active_keys(self, keys: Vec<String>) -> (c: Collapse)
        requires self.wf(),
        ensures
            c.wf(),
            c@ == (CollapseModel {
                binding: Some(texts(keys@)),
                panels: bound_expansion(self@.panels, texts(keys@), self@.accordion),
                animating: c@.animating,
                ..self@
            }),
            all_settled(c@.animating, self@.panels.len() as int),
    {
        let mut c = self;
        c.active_keys_binding = Some(keys);
        c.sync_bound_active_keys();
        c.animating = Self::settled_transitions(c.panels.len());
        c
    }

    /// Hides or shows borders.
    pub fn borderless(self, value: bool) -> (c: Collapse)
        requires self.wf(),
        ensures
            c.wf(),
            c@ == (CollapseModel { borderless: value, borderless_authored: true, ..self@ }),
    {
        let mut c = self;
        c.borderless = value;
        c.borderless_authored = true;
        c
    }

    /// Drops the content of collapsed panels once they are hidden.
    pub fn destroy_on_hide(self, value: bool) -> (c: Collapse)
        requires self.wf(),
        ensures c.wf(), c@ == (CollapseModel { destroy_on_hide: value, ..self@ }),
    {
        let mut c = self;
        c.destroy_on_hide = value;
        c
    }

    /// Index of the header under keyboard focus.
    pub fn focused_header(&self) -> (r: usize)
        ensures r == self@.focused_header,
    {
        self.focused_header
    }

    /// The panels.
    pub fn panel_list(&self) -> (r: &Vec<CollapsePanel>)
        ensures panel_models(r@) == self@.panels,
    {
        &self.panels
    }

    /// Value the bound key set should hold in controlled mode.
    pub fn bound_active_keys(&self) -> (r: Option<Vec<String>>)
        ensures
            match r {
                Some(v) => self@.binding == Some(texts(v@)),
                None => self@.binding is None,
            },
    {
        match &self.active_keys_binding {
            Some(v) => Some(v.clone()),
            None => None,
        }
    }

    /// Indices of the expanded panels, in declaration order.
    pub fn expanded_indices(&self) -> (r: Vec<usize>)
        ensures r@ == expanded_indices_prefix(self@.panels, self@.panels.len() as int),
    {
        let mut r: Vec<usize> = Vec::new();
        let n = self.panels.len();
        for i in 0..n
            invariant
                n == self.panels@.len(),
                r@ == expanded_indices_prefix(self@.panels, i as int),
        {
            if self.panels[i].is_expanded() {
                r.push(i);
            }
        }
        r
    }

    /// Stable keys of the expanded panels, in declaration order.
    pub fn expanded_keys(&self) -> (r: Vec<String>)
        ensures texts(r@) == expanded_keys_of(self@.panels),
    {
        let mut r: Vec<String> = Vec::new();
        let n = self.panels.len();
        for i in 0..n
            invariant
                n == self.panels@.len(),
                texts(r@) == expanded_keys_prefix(self@.panels, i as int),
        {
            if self.panels[i].is_expanded() {
                let k = self.panels[i].stable_key().to_owned();
                let ghost prev = r@;
                r.push(k);
                assert(texts(r@) =~= texts(prev).push(k@));
            }
        }
        r
    }

    /// Whether the next declaration is controlled and shows a different set of expanded keys.
    pub fn controlled_expansion_changed(&self, next: &Collapse) -> (r: bool)
        ensures
            r == (next@.binding is Some
                && expanded_keys_of(self@.panels) != expanded_keys_of(next@.panels)),
    {
        if next.active_keys_binding.is_none() {
            return false;
        }
        let a = self.expanded_keys();
        let b = next.expanded_keys();
        !strings_eq(&a, &b)
    }

    fn normalize_accordion(&mut self)
        requires old(self).wf(),
        ensures
            final(self).wf(),
            final(self)@ == (CollapseModel {
                panels: if old(self)@.accordion { accordion_normalized(old(self)@.panels) } else { old(self)@.panels },
                ..old(self)@
            }),
    {
        if !self.accordion {
            return;
        }
        let ghost ps = self@.panels;
        let mut found_expanded = false;
        let n = self.panels.len();
        for i in 0..n
            invariant
                n == self.panels@.len(),
                ps.len() == n,
                self.accordion,
                found_expanded == exists|j: int| 0 <= j < i && ps[j].expanded,
                forall|j: int| 0 <= j < i ==> #[trigger] panel_models(self.panels@)[j]
                    == accordion_normalized(ps)[j],
                forall|j: int| i <= j < n ==> #[trigger] panel_models(self.panels@)[j] == ps[j],
                self@ == (CollapseModel { panels: panel_models(self.panels@), ..old(self)@ }),
        {
            let ghost before = self.panels@;
            assert(panel_models(before)[i as int] == before[i as int]@);
            assert(ps[i as int] == before[i as int]@);
            if self.panels[i].is_expanded() {
                if !found_expanded {
                    found_expanded = true;
                } else {
                    self.panels[i].set_expanded(false);
                    proof {
                        lemma_panel_models_update(before, i as int, self.panels@[i as int]);
                        assert(self.panels@ == before.update(i as int, self.panels@[i as int]));
                    }
                }
            }
            assert(self.panels@[i as int]@.expanded == accordion_normalized(ps)[i as int].expanded);
            assert(panel_models(self.panels@)[i as int] == accordion_normalized(ps)[i as int]);
        }
        assert(panel_models(self.panels@) =~= accordion_normalized(ps));
    }
}

/// Replacing one panel replaces its model.
pub proof fn lemma_panel_models_update(v: Seq<CollapsePanel>, i: int, p: CollapsePanel)
    requires 0 <= i < v.len(),
    ensures panel_models(v.update(i, p)) == panel_models(v).update(i, p@),
{
    assert(panel_models(v.update(i, p)) =~= panel_models(v).update(i, p@));
}

/// Two panel lists with the same keys agree on which panel first owns a key.
pub proof fn lemma_first_with_key_same_keys(a: Seq<PanelModel>, b: Seq<PanelModel>, i: int)
    requires
        a.len() == b.len(),
        0 <= i < a.len(),
        forall|j: int| 0 <= j < a.len() ==> key_of(#[trigger] a[j]) == key_of(b[j]),
    ensures
        is_first_with_key(a, i) == is_first_with_key(b, i),
{
    if is_first_with_key(a, i) {
        assert forall|j: int| 0 <= j < i implies key_of(#[trigger] b[j]) != key_of(b[i]) by {
            assert(key_of(a[j]) != key_of(a[i]));
        }
    }
    if is_first_with_key(b, i) {
        assert forall|j: int| 0 <= j < i implies key_of(#[trigger] a[j]) != key_of(a[i]) by {
            assert(key_of(b[j]) != key_of(b[i]));
        }
    }
}

/// Whether no panel before `i` has the stable key of panel `i`.
fn first_with_key(panels: &Vec<CollapsePanel>, i: usize) -> (r: bool)
    requires i < panels@.len(),
    ensures r == is_first_with_key(panel_models(panels@), i as int),
{
    let ghost ps = panel_models(panels@);
    for j in 0..i
        invariant
            i < panels@.len(),
            ps == panel_models(panels@),
            forall|k: int| 0 <= k < j ==> key_of(#[trigger] ps[k]) != key_of(ps[i as int]),
    {
        if text_eq(panels[j].stable_key(), panels[i].stable_key()) {
            assert(key_of(ps[j as int]) == key_of(ps[i as int]));
            return false;
        }
    }
    true
}

impl Collapse {
    /// Adopts the bound key set, if any: the first panel with each listed key
    /// expands (only the first such panel in accordion mode), all others collapse.
    fn sync_bound_active_keys(&mut self)
        requires old(self).wf(),
        ensures
            final(self).wf(),
            final(self)@ == synced(old(self)@),
    {
        let keys = match &self.active_keys_binding {
            Some(k) => k.clone(),
            None => {
                return;
            },
        };
        let ghost ps = self@.panels;
        let ghost ks = texts(keys@);
        assert(old(self)@.binding == Some(ks));
        let accordion = self.accordion;
        let mut claimed = false;
        let n = self.panels.len();
        for i in 0..n
            invariant
                n == self.panels@.len(),
                ps.len() == n,
                ks == texts(keys@),
                accordion == old(self)@.accordion,
                claimed == exists|j: int| 0 <= j < i && #[trigger] requested(ps, ks, j),
                forall|j: int| 0 <= j < n ==> key_of(#[trigger] panel_models(self.panels@)[j]) == key_of(ps[j]),
                forall|j: int| 0 <= j < i ==> #[trigger] panel_models(self.panels@)[j]
                    == bound_expansion(ps, ks, accordion)[j],
                forall|j: int| i <= j < n ==> #[trigger] panel_models(self.panels@)[j] == ps[j],
                self@ == (CollapseModel { panels: panel_models(self.panels@), ..old(self)@ }),
        {
            proof {
                lemma_first_with_key_same_keys(panel_models(self.panels@), ps, i as int);
            }
            let ghost before = self.panels@;
            assert(panel_models(before)[i as int] == before[i as int]@);
            let unique = first_with_key(&self.panels, i);
            let key = self.panels[i].stable_key();
            assert(key@ == key_of(ps[i as int]));
            let listed = contains_text(&keys, key);
            let requested_now = unique && listed;
            assert(requested_now == requested(ps, ks, i as int));
            let expanded = requested_now && (!accordion || !claimed);
            self.panels[i].set_expanded(expanded);
            proof {
                lemma_panel_models_update(before, i as int, self.panels@[i as int]);
                assert(self.panels@ == before.update(i as int, self.panels@[i as int]));
            }
            claimed = claimed || expanded;
            proof {
                if accordion {
                    assert(claimed == exists|j: int| 0 <= j < i + 1 && #[trigger] requested(ps, ks, j));
                }
                assert(panel_models(self.panels@)[i as int] == bound_expansion(ps, ks, accordion)[i as int]);
            }
        }
        assert(panel_models(self.panels@) =~= bound_expansion(ps, ks, accordion));
    }
}

impl Collapse {
    fn write_bound_active_keys(&mut self)
        requires old(self).wf(),
        ensures
            final(self).wf(),
            final(self)@ == (CollapseModel {
                binding: match old(self)@.binding {
                    Some(k) => Some(expanded_keys_of(old(self)@.panels)),
                    None => None,
                },
                ..old(self)@
            }),
    {
        if self.active_keys_binding.is_none() {
            return;
        }
        let active = self.expanded_keys();
        let same = match &self.active_keys_binding {
            Some(current) => strings_eq(current, &active),
            None => true,
        };
        if !same {
            self.active_keys_binding = Some(active);
        }
    }

    /// Sets panel `index` to `expanded` as a user action: in accordion mode,
    /// expanding closes all others; the new key set is written to the bound
    /// state, changed panels start their transition and the toggle is reported.
    #[verifier::spinoff_prover]
    pub fn set_panel_expanded(&mut self, index: usize, expanded: bool)
        requires old(self).wf(),
        ensures
            final(self).wf(),
            final(self)@ == user_set_expanded(old(self)@, index as int, expanded),
    {
        if index >= self.panels.len() {
            return;
        }
        if self.panels[index].is_expanded() == expanded {
            return;
        }
        let ghost ps = self@.panels;
        let n = self.panels.len();
        let mut old_states: Vec<bool> = Vec::new();
        for i in 0..n
            invariant
                n == self.panels@.len(),
                ps == panel_models(self.panels@),
                old_states@.len() == i,
                forall|j: int| 0 <= j < i ==> old_states@[j] == #[trigger] ps[j].expanded,
        {
            old_states.push(self.panels[i].is_expanded());
        }
        let ghost target = with_expanded(ps, index as int, expanded, self.accordion);
        let accordion = self.accordion;
        for i in 0..n
            invariant
                n == self.panels@.len(),
                ps.len() == n,
                index < n,
                accordion == old(self)@.accordion,
                target == with_expanded(ps, index as int, expanded, accordion),
                forall|j: int| 0 <= j < n && j != index ==> #[trigger] panel_models(self.panels@)[j]
                    == if j < i { target[j] } else { ps[j] },
                panel_models(self.panels@)[index as int] == ps[index as int],
                self@ == (CollapseModel { panels: panel_models(self.panels@), ..old(self)@ }),
        {
            if i != index && accordion && expanded {
                let ghost before = self.panels@;
                self.panels[i].set_expanded(false);
                proof {
                    lemma_panel_models_update(before, i as int, self.panels@[i as int]);
                    assert(self.panels@ == before.update(i as int, self.panels@[i as int]));
                }
            }
        }
        let ghost before = self.panels@;
        self.panels[index].set_expanded(expanded);
        proof {
            lemma_panel_models_update(before, index as int, self.panels@[index as int]);
            assert(self.panels@ == before.update(index as int, self.panels@[index as int]));
            assert(panel_models(self.panels@) =~= target);
        }
        self.write_bound_active_keys();
        let ghost animating_before = self.animating@;
        let ghost mid = self@;
        for i in 0..n
            invariant
                self@ == (CollapseModel { animating: self@.animating, ..mid }),
                n == self.panels@.len(),
                n == self.animating@.len(),
                old_states@.len() == n,
                forall|j: int| 0 <= j < n ==> old_states@[j] == #[trigger] ps[j].expanded,
                panel_models(self.panels@) == target,
                target.len() == n,
                animating_before.len() == n,
                forall|j: int| 0 <= j < n ==> #[trigger] self.animating@[j] == if j < i {
                    animating_before[j] || target[j].expanded != ps[j].expanded
                } else {
                    animating_before[j]
                },
        {
            if self.panels[i].is_expanded() != old_states[i] {
                self.animating.set(i, true);
            }
        }
        self.layout_requested = true;
        self.pending_change = Some(index);
        proof {
            assert(self.animating@ =~= Seq::new(animating_before.len(), |j: int|
                animating_before[j] || target[j].expanded != ps[j].expanded));
        }
    }

    /// Flips panel `index` as a user action.
    pub fn toggle_panel(&mut self, index: usize)
        requires old(self).wf(),
        ensures
            final(self).wf(),
            final(self)@ == user_toggle(old(self)@, index as int),
    {
        if index >= self.panels.len() {
            return;
        }
        let expanded = self.panels[index].is_expanded();
        self.set_panel_expanded(index, !expanded);
    }

    /// Moves keyboard focus to the next or previous header, staying on the list.
    pub fn move_focus(&mut self, forward: bool)
        requires old(self).wf(),
        ensures
            final(self).wf(),
            final(self)@ == (CollapseModel {
                focused_header: if old(self)@.panels.len() == 0 {
                    old(self)@.focused_header
                } else if forward {
                    if old(self)@.focused_header + 1 < old(self)@.panels.len() {
                        old(self)@.focused_header + 1
                    } else {
                        old(self)@.panels.len() - 1
                    }
                } else if old(self)@.focused_header > 0 {
                    old(self)@.focused_header - 1
                } else {
                    0
                },
                ..old(self)@
            }),
    {
        let n = self.panels.len();
        if n == 0 {
            return;
        }
        if forward {
            self.focused_header = if self.focused_header < n - 1 { self.focused_header + 1 } else { n - 1 };
        } else {
            self.focused_header = if self.focused_header > 0 { self.focused_header - 1 } else { 0 };
        }
    }

    /// Handles a key press: arrows move focus, Home and End jump, Enter and
    /// Space toggle, Right and Left expand and collapse the focused panel.
    pub fn on_key(&mut self, key: KeyCode) -> (r: EventResult)
        requires old(self).wf(),
        ensures
            final(self).wf(),
            ({
                let m = synced(old(self)@);
                let n = m.panels.len();
                let f = m.focused_header;
                match key {
                    KeyCode::Down | KeyCode::Up => r == EventResult::Handled
                        && final(self)@ == (CollapseModel {
                            focused_header: if n == 0 { f } else if key == KeyCode::Down {
                                if f + 1 < n { f + 1 } else { n - 1 }
                            } else if f > 0 { f - 1 } else { 0 },
                            ..m
                        }),
                    KeyCode::Home => r == EventResult::Handled
                        && final(self)@ == (CollapseModel { focused_header: 0, ..m }),
                    KeyCode::End => if n > 0 {
                        r == EventResult::Handled
                            && final(self)@ == (CollapseModel { focused_header: n - 1, ..m })
                    } else {
                        r == EventResult::NotHandled && final(self)@ == m
                    },
                    KeyCode::Enter | KeyCode::Space => if n > 0 {
                        r == EventResult::Handled && final(self)@ == user_toggle(m, f)
                    } else {
                        r == EventResult::NotHandled && final(self)@ == m
                    },
                    KeyCode::Right => if n > 0 {
                        r == EventResult::Handled && final(self)@ == user_set_expanded(m, f, true)
                    } else {
                        r == EventResult::NotHandled && final(self)@ == m
                    },
                    KeyCode::Left => if n > 0 {
                        r == EventResult::Handled && final(self)@ == user_set_expanded(m, f, false)
                    } else {
                        r == EventResult::NotHandled && final(self)@ == m
                    },
                    _ => r == EventResult::NotHandled && final(self)@ == m,
                }
            }),
    {
        self.sync_bound_active_keys();
        let n = self.panels.len();
        match key {
            KeyCode::Down => {
                self.move_focus(true);
                EventResult::Handled
            },
            KeyCode::Up => {
                self.move_focus(false);
                EventResult::Handled
            },
            KeyCode::Home => {
                self.focused_header = 0;
                EventResult::Handled
            },
            KeyCode::End => {
                if n == 0 {
                    return EventResult::NotHandled;
                }
                self.focused_header = n - 1;
                EventResult::Handled
            },
            KeyCode::Enter | KeyCode::Space => {
                if n == 0 {
                    return EventResult::NotHandled;
                }
                let f = self.focused_header;
                self.toggle_panel(f);
                EventResult::Handled
            },
            KeyCode::Right => {
                if n == 0 {
                    return EventResult::NotHandled;
                }
                let f = self.focused_header;
                self.set_panel_expanded(f, true);
                EventResult::Handled
            },
            KeyCode::Left => {
                if n == 0 {
                    return EventResult::NotHandled;
                }
                let f = self.focused_header;
                self.set_panel_expanded(f, false);
                EventResult::Handled
            },
            _ => EventResult::NotHandled,
        }
    }

    /// Handles a primary-button press; `hit` is the header under the pointer, if any.
    pub fn pointer_down(&mut self, hit: Option<usize>) -> (r: EventResult)
        requires old(self).wf(),
        ensures
            final(self).wf(),
            match hit {
                Some(index) => r == EventResult::Handled && final(self)@ == (CollapseModel {
                    focused_header: index as int,
                    pressed: Some(index),
                    ..synced(old(self)@)
                }),
                None => r == EventResult::NotHandled && final(self)@ == synced(old(self)@),
            },
    {
        self.sync_bound_active_keys();
        match hit {
            Some(index) => {
                self.focused_header = index;
                self.pressed_header = Some(index);
                EventResult::Handled
            },
            None => EventResult::NotHandled,
        }
    }

    /// Handles a primary-button release; a release over the pressed header toggles it.
    pub fn pointer_up(&mut self, hit: Option<usize>) -> (r: EventResult)
        requires old(self).wf(),
        ensures
            final(self).wf(),
            ({
                let m = CollapseModel { pressed: None, ..synced(old(self)@) };
                match old(self)@.pressed {
                    Some(index) => r == EventResult::Handled && final(self)@ == if hit == Some(index) {
                        user_toggle(CollapseModel { focused_header: index as int, ..m }, index as int)
                    } else {
                        m
                    },
                    None => r == EventResult::NotHandled && final(self)@ == m,
                }
            }),
    {
        self.sync_bound_active_keys();
        let pressed = self.pressed_header;
        self.pressed_header = None;
        match pressed {
            Some(index) => {
                if hit == Some(index) {
                    self.focused_header = index;
                    self.toggle_panel(index);
                }
                EventResult::Handled
            },
            None => EventResult::NotHandled,
        }
    }

    /// Records the header under the pointer; reports whether it changed.
    pub fn pointer_move(&mut self, hit: Option<usize>) -> (r: EventResult)
        requires old(self).wf(),
        ensures
            final(self).wf(),
            final(self)@ == (CollapseModel { hovered: hit, ..synced(old(self)@) }),
            r == if old(self)@.hovered != hit { EventResult::Handled } else { EventResult::NotHandled },
    {
        self.sync_bound_active_keys();
        let previous = self.hovered_header;
        self.hovered_header = hit;
        if previous != hit { EventResult::Handled } else { EventResult::NotHandled }
    }

    /// Handles the pointer leaving the group, after adopting the bound key
    /// set: hover and press end; reports whether either was set.
    pub fn pointer_leave(&mut self) -> (r: EventResult)
        requires old(self).wf(),
        ensures
            final(self).wf(),
            final(self)@ == (CollapseModel { hovered: None, pressed: None, ..synced(old(self)@) }),
            r == if old(self)@.hovered is Some || old(self)@.pressed is Some {
                EventResult::Handled
            } else {
                EventResult::NotHandled
            },
    {
        self.sync_bound_active_keys();
        let changed = self.hovered_header.is_some() || self.pressed_header.is_some();
        self.hovered_header = None;
        self.pressed_header = None;
        if changed { EventResult::Handled } else { EventResult::NotHandled }
    }

    /// Records whether the group has keyboard focus, after adopting the bound
    /// key set; losing focus drops a pending press.
    pub fn set_focused(&mut self, focused: bool) -> (r: EventResult)
        requires old(self).wf(),
        ensures
            final(self).wf(),
            final(self)@ == (CollapseModel {
                focused,
                pressed: if focused { old(self)@.pressed } else { None },
                ..synced(old(self)@)
            }),
            r == EventResult::Handled,
    {
        self.sync_bound_active_keys();
        self.focused = focused;
        if !focused {
            self.pressed_header = None;
        }
        EventResult::Handled
    }

    /// Whether panel `index` takes space: expanded, or its transition still runs.
    pub fn panel_present(&self, index: usize) -> (r: bool)
        requires self.wf(), index < self@.panels.len(),
        ensures r == spec_panel_present(self@, index as int),
    {
        self.panels[index].is_expanded() || self.animating[index]
    }

    /// Marks the transition of panel `index` as finished; a collapsed panel
    /// then asks for a new layout to release its space.
    pub fn finish_transition(&mut self, index: usize)
        requires old(self).wf(),
        ensures
            final(self).wf(),
            final(self)@ == if index < old(self)@.panels.len() && old(self)@.animating[index as int] {
                CollapseModel {
                    animating: old(self)@.animating.update(index as int, false),
                    layout_requested: old(self)@.layout_requested || !old(self)@.panels[index as int].expanded,
                    ..old(self)@
                }
            } else {
                old(self)@
            },
    {
        if index < self.animating.len() && self.animating[index] {
            self.animating.set(index, false);
            if !self.panels[index].is_expanded() {
                self.layout_requested = true;
            }
        }
    }

    /// Takes the pending layout request, leaving none.
    pub fn take_layout_request(&mut self) -> (r: bool)
        requires old(self).wf(),
        ensures
            final(self).wf(),
            r == old(self)@.layout_requested,
            final(self)@ == (CollapseModel { layout_requested: false, ..old(self)@ }),
    {
        let r = self.layout_requested;
        self.layout_requested = false;
        r
    }

    /// Takes the unreported toggle, giving the stable key of the toggled panel
    /// when that panel still exists.
    pub fn take_pending_change(&mut self) -> (r: Option<String>)
        requires old(self).wf(),
        ensures
            final(self).wf(),
            final(self)@ == (CollapseModel { pending: None, ..old(self)@ }),
            match old(self)@.pending {
                Some(i) => if i < old(self)@.panels.len() {
                    r matches Some(k) && k@ == key_of(old(self)@.panels[i as int])
                } else {
                    r is None
                },
                None => r is None,
            },
    {
        let pending = self.pending_change;
        self.pending_change = None;
        match pending {
            Some(i) => {
                if i < self.panels.len() {
                    Some(self.panels[i].stable_key().to_owned())
                } else {
                    None
                }
            },
            None => None,
        }
    }
}

impl Collapse {
    /// Matches of the new panels to the old ones, in order.
    fn match_panels(current: &Vec<CollapsePanel>, panels: &Vec<CollapsePanel>) -> (r: Vec<Option<usize>>)
        ensures
            r@ == panel_matches(panel_models(current@), panel_models(panels@), panels@.len() as int).0,
            r@.len() == panels@.len(),
            forall|i: int| 0 <= i < r@.len() ==> (#[trigger] r@[i] matches Some(c) ==> c < current@.len()),
    {
        let ghost olds = panel_models(current@);
        let ghost news = panel_models(panels@);
        let same_len = current.len() == panels.len();
        let mut used: Vec<bool> = Vec::new();
        let m = current.len();
        for i in 0..m
            invariant
                used@.len() == i,
                forall|j: int| 0 <= j < i ==> !#[trigger] used@[j],
        {
            used.push(false);
        }
        assert(used@ =~= Seq::new(olds.len(), |i: int| false));
        let mut matches: Vec<Option<usize>> = Vec::new();
        let n = panels.len();
        for idx in 0..n
            invariant
                n == panels@.len(),
                m == current@.len(),
                olds == panel_models(current@),
                news == panel_models(panels@),
                same_len == (m == n),
                used@.len() == m,
                matches@.len() == idx,
                (matches@, used@) == panel_matches(olds, news, idx as int),
                forall|i: int| 0 <= i < matches@.len() ==> (#[trigger] matches@[i] matches Some(c) ==> c < m),
        {
            let key = panels[idx].stable_key();
            let unique = count_key(current, key) == 1 && count_key(panels, key) == 1;
            let by_key = if unique { first_unclaimed(current, &used, key) } else { None };
            proof {
                if first_unclaimed_from(olds, used@, key@, 0) is Some {
                    lemma_first_unclaimed_in_range(olds, used@, key@, 0);
                }
            }
            let chosen = match by_key {
                Some(c) => Some(c),
                None => if same_len && !used[idx] { Some(idx) } else { None },
            };
            match chosen {
                Some(c) => {
                    used.set(c, true);
                },
                None => {},
            }
            matches.push(chosen);
        }
        matches
    }

    /// Takes over the declaration `next`, keeping what belongs to the panels
    /// that survive the rebuild.
    pub fn sync_from(&mut self, next: Collapse)
        requires old(self).wf(),
        ensures
            final(self).wf(),
            final(self)@ == spec_sync_from(old(self)@, next@),
    {
        let ghost m0 = self@;
        let ghost n0 = next@;
        let controlled = next.active_keys_binding.is_some();
        let Collapse {
            panels: next_panels,
            accordion: next_accordion,
            active_keys_binding: next_binding,
            borderless: next_borderless,
            borderless_authored: next_borderless_authored,
            destroy_on_hide: next_destroy_on_hide,
            ..
        } = next;
        let mut panels = next_panels;
        let ghost news = panel_models(panels@);
        let ghost olds = m0.panels;
        let matches = Self::match_panels(&self.panels, &panels);
        let ghost ms = matches@;
        let ghost pre = carried_panels(olds, news, ms, controlled);
        let n = panels.len();
        let mut carried: Vec<bool> = Vec::new();
        for idx in 0..n
            invariant
                n == panels@.len(),
                n == news.len(),
                ms == matches@,
                ms.len() == n,
                olds == panel_models(self.panels@),
                olds.len() == self.animating@.len(),
                olds == m0.panels,
                self.animating@ == m0.animating,
                forall|i: int| 0 <= i < n ==> (#[trigger] ms[i] matches Some(c) ==> c < olds.len()),
                pre == carried_panels(olds, news, ms, controlled),
                carried@ == carried_animation(m0.animating, ms).take(idx as int),
                forall|j: int| 0 <= j < n ==> #[trigger] panel_models(panels@)[j] == if j < idx { pre[j] } else { news[j] },
        {
            match matches[idx] {
                Some(c) => {
                    if !controlled {
                        let state = self.panels[c].is_expanded();
                        let ghost before = panels@;
                        assert(panel_models(before)[idx as int] == news[idx as int]);
                        assert(ms[idx as int] == Some(c));
                        assert(state == olds[c as int].expanded);
                        panels[idx].set_expanded(state);
                        proof {
                            lemma_panel_models_update(before, idx as int, panels@[idx as int]);
                            assert(panels@ == before.update(idx as int, panels@[idx as int]));
                            assert(pre[idx as int] == panel_models(panels@)[idx as int]);
                        }
                    } else {
                        assert(pre[idx as int] == news[idx as int]);
                    }
                    let a = self.animating[c];
                    carried.push(a);
                },
                None => {
                    assert(pre[idx as int] == news[idx as int]);
                    carried.push(false);
                },
            }
            assert(carried@ =~= carried_animation(m0.animating, ms).take(idx + 1));
        }
        assert(panel_models(panels@) =~= pre);
        assert(carried@ =~= carried_animation(m0.animating, ms));
        let focused_key: Option<String> = if self.focused_header < self.panels.len() {
            Some(self.panels[self.focused_header].stable_key().to_owned())
        } else {
            None
        };
        let old_focus = self.focused_header;
        self.panels = panels;
        self.animating = carried;
        self.accordion = next_accordion;
        self.active_keys_binding = next_binding;
        self.borderless = next_borderless;
        self.borderless_authored = next_borderless_authored;
        self.destroy_on_hide = next_destroy_on_hide;
        self.hovered_header = None;
        self.pressed_header = None;
        let mut before: Vec<bool> = Vec::new();
        for i in 0..n
            invariant
                n == self.panels@.len(),
                panel_models(self.panels@) == pre,
                before@.len() == i,
                forall|j: int| 0 <= j < i ==> before@[j] == #[trigger] pre[j].expanded,
        {
            before.push(self.panels[i].is_expanded());
        }
        let ghost mid = self@;
        assert(mid.binding == n0.binding);
        if controlled {
            self.sync_bound_active_keys();
        } else {
            self.normalize_accordion();
        }
        let ghost settled = settled_panels(pre, n0.binding, n0.accordion);
        assert(self@.panels == settled);
        self.focused_header = match focused_key {
            Some(k) => {
                if count_key(&self.panels, k.as_str()) == 1 {
                    proof {
                        lemma_counted_key_found(settled, k@, settled.len() as int, 0);
                    }
                    first_key(&self.panels, k.as_str())
                } else if self.panels.len() == 0 {
                    0
                } else if old_focus < self.panels.len() - 1 {
                    old_focus
                } else {
                    self.panels.len() - 1
                }
            },
            None => {
                if self.panels.len() == 0 {
                    0
                } else if old_focus < self.panels.len() - 1 {
                    old_focus
                } else {
                    self.panels.len() - 1
                }
            },
        };
        let ghost anim_carried = self.animating@;
        let ghost mid2 = self@;
        for i in 0..n
            invariant
                self@ == (CollapseModel { animating: self@.animating, ..mid2 }),
                n == self.panels@.len(),
                n == self.animating@.len(),
                panel_models(self.panels@) == settled,
                before@.len() == n,
                forall|j: int| 0 <= j < n ==> before@[j] == #[trigger] pre[j].expanded,
                anim_carried.len() == n,
                forall|j: int| 0 <= j < n ==> #[trigger] self.animating@[j] == if j < i {
                    !controlled && settled[j].expanded == pre[j].expanded && anim_carried[j]
                } else {
                    anim_carried[j]
                },
        {
            if controlled || self.panels[i].is_expanded() != before[i] {
                self.animating.set(i, false);
            }
        }
        proof {
            let want = spec_sync_from(m0, n0);
            assert(self@.animating =~= want.animating);
            assert(self@.panels == want.panels);
        }
    }
}

/// The panel found by a scan for an unclaimed key lies in the list.
proof fn lemma_first_unclaimed_in_range(ps: Seq<PanelModel>, used: Seq<bool>, k: Seq<char>, c: int)
    requires
        0 <= c,
        ps.len() <= usize::MAX,
        first_unclaimed_from(ps, used, k, c) is Some,
    ensures
        c <= first_unclaimed_from(ps, used, k, c)->0 < ps.len(),
    decreases ps.len() - c,
{
    if c < ps.len() {
        if !used[c] && key_of(ps[c]) == k {
            assert(first_unclaimed_from(ps, used, k, c) == Some(c as usize));
        } else {
            assert(first_unclaimed_from(ps, used, k, c) == first_unclaimed_from(ps, used, k, c + 1));
            lemma_first_unclaimed_in_range(ps, used, k, c + 1);
        }
    }
}

impl Collapse {
    /// Identity of the content view of panel `index`.
    pub fn panel_content_key(&self, index: usize) -> (r: String)
        ensures r@ == spec_content_key(self@.panels, index as int),
    {
        let ghost ps = self@.panels;
        let empty = String::new();
        let key: &str = if index < self.panels.len() { self.panels[index].stable_key() } else { empty.as_str() };
        let before = if index < self.panels.len() { index } else { self.panels.len() };
        let mut occurrence: usize = 0;
        for j in 0..before
            invariant
                before <= self.panels@.len(),
                ps == panel_models(self.panels@),
                occurrence == key_count_prefix(ps, key@, j as int),
                occurrence <= j,
        {
            if text_eq(self.panels[j].stable_key(), key) {
                occurrence = occurrence + 1;
            }
        }
        let mut r = String::new();
        push_text(&mut r, "uix:collapse-content:");
        push_decimal(&mut r, utf8_byte_len(key));
        push_text(&mut r, ":");
        push_decimal(&mut r, occurrence as u128);
        push_text(&mut r, ":");
        push_text(&mut r, key);
        r
    }

    /// The content views the group keeps, in panel order.
    pub fn desired_content_entries(&self) -> (r: Vec<CollapseContentEntry>)
        requires self.wf(),
        ensures entry_models(r@) == content_entries_prefix(self@, self@.panels.len() as int),
    {
        let mut r: Vec<CollapseContentEntry> = Vec::new();
        let n = self.panels.len();
        for i in 0..n
            invariant
                n == self.panels@.len(),
                self.wf(),
                entry_models(r@) == content_entries_prefix(self@, i as int),
        {
            if !self.destroy_on_hide || self.panel_present(i) {
                let entry = CollapseContentEntry {
                    panel_index: i,
                    key: self.panel_content_key(i),
                    content: self.panels[i].content.clone(),
                };
                let ghost prev = r@;
                r.push(entry);
                assert(entry_models(r@) =~= entry_models(prev).push((i, entry.key@, entry.content@)));
            }
        }
        r
    }
}

/// In accordion mode a user action never leaves more than one panel open,
/// provided at most one was open before.
pub proof fn lemma_accordion_keeps_single_open(ps: Seq<PanelModel>, index: int, expanded: bool)
    requires
        at_most_one_expanded(ps),
        0 <= index < ps.len(),
    ensures
        at_most_one_expanded(with_expanded(ps, index, expanded, true)),
{
}

/// Reducing to the first expanded panel leaves at most one open.
pub proof fn lemma_accordion_normalized_single_open(ps: Seq<PanelModel>)
    ensures at_most_one_expanded(accordion_normalized(ps)),
{
}

/// Adopting a bound key set in accordion mode leaves at most one panel open.
pub proof fn lemma_bound_accordion_single_open(ps: Seq<PanelModel>, keys: Seq<Seq<char>>)
    ensures at_most_one_expanded(bound_expansion(ps, keys, true)),
{
}

/// Outside accordion mode, toggling a panel twice restores every panel.
pub proof fn lemma_toggle_twice_restores(ps: Seq<PanelModel>, index: int)
    requires 0 <= index < ps.len(),
    ensures
        with_expanded(with_expanded(ps, index, !ps[index].expanded, false), index,
            ps[index].expanded, false) == ps,
{
    assert(with_expanded(with_expanded(ps, index, !ps[index].expanded, false), index,
        ps[index].expanded, false) =~= ps);
}

/// All stable keys differ.
pub open spec fn keys_distinct(ps: Seq<PanelModel>) -> bool {
    forall|i: int, j: int| 0 <= i < ps.len() && 0 <= j < ps.len() && i != j ==> key_of(ps[i]) != key_of(ps[j])
}

/// With distinct keys, a panel's key is counted once among the prefixes that
/// hold the panel and never among the others.
proof fn lemma_key_count_distinct(ps: Seq<PanelModel>, c: int, n: int)
    requires keys_distinct(ps), 0 <= c < ps.len(), 0 <= n <= ps.len(),
    ensures key_count_prefix(ps, key_of(ps[c]), n) == if c < n { 1nat } else { 0nat },
    decreases n,
{
    if n > 0 {
        lemma_key_count_distinct(ps, c, n - 1);
        if n - 1 != c {
            assert(key_of(ps[n - 1]) != key_of(ps[c]));
        }
    }
}

/// A scan for an unclaimed key finds the only panel with that key when it is
/// unclaimed.
proof fn lemma_first_unclaimed_unique(ps: Seq<PanelModel>, used: Seq<bool>, c0: int, c: int)
    requires
        keys_distinct(ps),
        0 <= c <= c0 < ps.len(),
        c0 < used.len(),
        ps.len() <= usize::MAX,
        !used[c0],
    ensures first_unclaimed_from(ps, used, key_of(ps[c0]), c) == Some(c0 as usize),
    decreases c0 - c,
{
    if c < c0 {
        assert(key_of(ps[c]) != key_of(ps[c0]));
        lemma_first_unclaimed_unique(ps, used, c0, c + 1);
    }
}

/// Whether some new panel among the first `n` has key `k`.
pub open spec fn key_in_prefix(ps: Seq<PanelModel>, k: Seq<char>, n: int) -> bool {
    exists|i: int| 0 <= i < n && key_of(#[trigger] ps[i]) == k
}

/// Every new panel's key belongs to some old panel.
pub open spec fn keys_carried_over(old_ps: Seq<PanelModel>, new_ps: Seq<PanelModel>) -> bool {
    forall|i: int| 0 <= i < new_ps.len() ==> #[trigger] key_in_prefix(old_ps, key_of(new_ps[i]), old_ps.len() as int)
}

/// With distinct keys on both sides and every new key among the old ones,
/// each new panel is matched to the old panel with its key, and exactly the
/// old panels whose keys came so far are claimed.
proof fn lemma_matches_follow_keys(old_ps: Seq<PanelModel>, new_ps: Seq<PanelModel>, n: int)
    requires
        keys_distinct(old_ps),
        keys_distinct(new_ps),
        keys_carried_over(old_ps, new_ps),
        old_ps.len() <= usize::MAX,
        0 <= n <= new_ps.len(),
    ensures
        panel_matches(old_ps, new_ps, n).0.len() == n,
        panel_matches(old_ps, new_ps, n).1.len() == old_ps.len(),
        forall|i: int| 0 <= i < n ==> {
            let m = #[trigger] panel_matches(old_ps, new_ps, n).0[i];
            m is Some && m->0 < old_ps.len() && key_of(old_ps[m->0 as int]) == key_of(new_ps[i])
        },
        forall|c: int| 0 <= c < old_ps.len() ==>
            #[trigger] panel_matches(old_ps, new_ps, n).1[c] == key_in_prefix(new_ps, key_of(old_ps[c]), n),
    decreases n,
{
    if n > 0 {
        lemma_matches_follow_keys(old_ps, new_ps, n - 1);
        let prev = panel_matches(old_ps, new_ps, n - 1);
        let used = prev.1;
        let k = key_of(new_ps[n - 1]);
        assert(key_in_prefix(old_ps, k, old_ps.len() as int));
        let c0 = choose|c: int| 0 <= c < old_ps.len() && key_of(#[trigger] old_ps[c]) == k;
        lemma_key_count_distinct(old_ps, c0, old_ps.len() as int);
        lemma_key_count_distinct(new_ps, n - 1, new_ps.len() as int);
        if used[c0] {
            let i = choose|i: int| 0 <= i < n - 1 && key_of(#[trigger] new_ps[i]) == key_of(old_ps[c0]);
            assert(key_of(new_ps[i]) == key_of(new_ps[n - 1]));
        }
        lemma_first_unclaimed_unique(old_ps, used, c0, 0);
        let cur = panel_matches(old_ps, new_ps, n);
        assert(cur.0 == prev.0.push(Some(c0 as usize)));
        assert(cur.1 == used.update(c0, true));
        assert forall|c: int| 0 <= c < old_ps.len() implies
            #[trigger] cur.1[c] == key_in_prefix(new_ps, key_of(old_ps[c]), n) by {
            if c == c0 {
                assert(key_of(new_ps[n - 1]) == key_of(old_ps[c]));
            } else {
                assert(key_of(old_ps[c]) != key_of(old_ps[c0]));
                if key_in_prefix(new_ps, key_of(old_ps[c]), n) {
                    let i = choose|i: int| 0 <= i < n && key_of(#[trigger] new_ps[i]) == key_of(old_ps[c]);
                    assert(i != n - 1);
                    assert(key_in_prefix(new_ps, key_of(old_ps[c]), n - 1));
                }
            }
        }
    }
}

/// Rebuilding an uncontrolled group that is not an accordion, where the
/// panels carry distinct keys and every new key was already there, keeps each
/// panel's expansion state by its key, whatever the new order.
pub proof fn lemma_rebuild_keeps_state_by_key(m: CollapseModel, next: CollapseModel, i: int, c: int)
    requires
        next.binding is None,
        !next.accordion,
        keys_distinct(m.panels),
        keys_distinct(next.panels),
        keys_carried_over(m.panels, next.panels),
        m.panels.len() <= usize::MAX,
        0 <= i < next.panels.len(),
        0 <= c < m.panels.len(),
        key_of(next.panels[i]) == key_of(m.panels[c]),
    ensures
        spec_sync_from(m, next).panels[i].expanded == m.panels[c].expanded,
        key_of(spec_sync_from(m, next).panels[i]) == key_of(next.panels[i]),
{
    let n = next.panels.len() as int;
    lemma_matches_follow_keys(m.panels, next.panels, n);
    let ms = panel_matches(m.panels, next.panels, n).0;
    let mi = ms[i];
    assert(mi is Some && key_of(m.panels[mi->0 as int]) == key_of(next.panels[i]));
    if mi->0 as int != c {
        assert(key_of(m.panels[mi->0 as int]) != key_of(m.panels[c]));
    }
}

/// With distinct keys, a panel's key is among the expanded keys of a prefix
/// exactly when that panel lies in the prefix and is expanded.
pub proof fn lemma_expanded_keys_membership(ps: Seq<PanelModel>, n: int, i: int)
    requires
        keys_distinct(ps),
        0 <= n <= ps.len(),
        0 <= i < ps.len(),
    ensures
        expanded_keys_prefix(ps, n).contains(key_of(ps[i])) == (i < n && ps[i].expanded),
    decreases n,
{
    if n > 0 {
        lemma_expanded_keys_membership(ps, n - 1, i);
        let prev = expanded_keys_prefix(ps, n - 1);
        let key = key_of(ps[i]);
        if ps[n - 1].expanded {
            let cur = prev.push(key_of(ps[n - 1]));
            assert(expanded_keys_prefix(ps, n) == cur);
            if i == n - 1 {
                assert(cur[prev.len() as int] == key);
            } else {
                assert(key_of(ps[n - 1]) != key);
                if cur.contains(key) {
                    let k = choose|k: int| 0 <= k < cur.len() && #[trigger] cur[k] == key;
                    assert(k < prev.len());
                    assert(prev[k] == key);
                }
                if prev.contains(key) {
                    let k = choose|k: int| 0 <= k < prev.len() && #[trigger] prev[k] == key;
                    assert(cur[k] == key);
                }
            }
        } else {
            assert(expanded_keys_prefix(ps, n) == prev);
        }
    } else {
        assert(expanded_keys_prefix(ps, n) == Seq::<Seq<char>>::empty());
    }
}

/// Controlled mode reads back what it writes: with distinct keys (and at most
/// one open panel in accordion mode), adopting the written key set reproduces
/// the panels exactly.
pub proof fn lemma_bound_keys_round_trip(ps: Seq<PanelModel>, accordion: bool)
    requires
        keys_distinct(ps),
        accordion ==> at_most_one_expanded(ps),
    ensures
        bound_expansion(ps, expanded_keys_of(ps), accordion) == ps,
{
    let keys = expanded_keys_of(ps);
    assert forall|i: int| 0 <= i < ps.len() implies requested(ps, keys, i) == ps[i].expanded by {
        lemma_expanded_keys_membership(ps, ps.len() as int, i);
        assert forall|j: int| 0 <= j < i implies key_of(#[trigger] ps[j]) != key_of(ps[i]) by {}
    }
    assert(bound_expansion(ps, keys, accordion) =~= ps);
}

/// After a user action in controlled mode the bound key set equals the keys of
/// the expanded panels.
pub proof fn lemma_user_action_writes_binding(m: CollapseModel, index: int, expanded: bool)
    requires m.binding is Some,
    ensures
        user_set_expanded(m, index, expanded) != m ==>
            user_set_expanded(m, index, expanded).binding
                == Some(expanded_keys_of(user_set_expanded(m, index, expanded).panels)),
{
}

/// Whether two lists of strings hold the same texts.
pub fn strings_eq(a: &Vec<String>, b: &Vec<String>) -> (r: bool)
    ensures r == (texts(a@) == texts(b@)),
{
    if a.len() != b.len() {
        assert(texts(a@).len() != texts(b@).len());
        return false;
    }
    let n = a.len();
    for i in 0..n
        invariant
            n == a@.len(),
            n == b@.len(),
            forall|j: int| 0 <= j < i ==> texts(a@)[j] == texts(b@)[j],
    {
        if a[i] != b[i] {
            assert(texts(a@)[i as int] != texts(b@)[i as int]);
            return false;
        }
    }
    assert(texts(a@) =~= texts(b@));
    true
}

/// Whether a list of strings holds the text `key`.
pub fn contains_text(keys: &Vec<String>, key: &str) -> (r: bool)
    ensures r == texts(keys@).contains(key@),
{
    let n = keys.len();
    for i in 0..n
        invariant
            n == keys@.len(),
            forall|j: int| 0 <= j < i ==> texts(keys@)[j] != key@,
    {
        if text_eq(keys[i].as_str(), key) {
            assert(texts(keys@)[i as int] == key@);
            return true;
        }
    }
    false
}

} // verus!
