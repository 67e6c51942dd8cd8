//! Card: a framed container with a title, a body and an action bar.

use vstd::prelude::*;

use crate::event::{EventResult, KeyCode};
use crate::geometry::{Constraints, Point, Rect, Size, clamp_dimension, saturate};
use crate::text::{is_blank, spec_is_blank, texts};
use crate::collapse::contains_text;

verus! {

/// Width a card asks for without a fixed width.
pub const DEFAULT_WIDTH: u32 = 200;
/// Inner padding when none is chosen.
pub const DEFAULT_PADDING: u32 = 16;
/// Highest elevation level.
pub const MAX_ELEVATION: u8 = 3;
/// Height of the title block.
pub const TITLE_BLOCK_HEIGHT: u32 = 56;
/// Height of the action bar.
pub const ACTION_HEIGHT: u32 = 40;

/// The non-blank texts among the first `n`, in order.
pub open spec fn nonblank_prefix(s: Seq<Seq<char>>, n: int) -> Seq<Seq<char>>
    decreases n,
{
    if n <= 0 {
        Seq::empty()
    } else if spec_is_blank(s[n - 1]) {
        nonblank_prefix(s, n - 1)
    } else {
        nonblank_prefix(s, n - 1).push(s[n - 1])
    }
}

/// The state of a card as plain values.
pub struct CardModel {
    /// Title, if any.
    pub title: Option<Seq<char>>,
    /// The card has a border.
    pub bordered: bool,
    /// The border setting was chosen explicitly.
    pub bordered_authored: bool,
    /// The card reacts to hovering.
    pub hoverable: bool,
    /// The pointer is over the card.
    pub hovered: bool,
    /// Fixed width, if any.
    pub fixed_width: Option<u32>,
    /// Fixed height, if any.
    pub fixed_height: Option<u32>,
    /// Inner padding.
    pub padding: int,
    /// The padding was chosen explicitly.
    pub padding_authored: bool,
    /// Shadow level, 0 to 3.
    pub elevation: int,
    /// The elevation was chosen explicitly.
    pub elevation_authored: bool,
    /// Action labels.
    pub actions: Seq<Seq<char>>,
    /// The card has keyboard focus.
    pub focused: bool,
    /// Action under keyboard focus.
    pub focused_action: int,
    /// Action under the pointer.
    pub hovered_action: Option<usize>,
    /// Action chosen and not yet reported.
    pub pending_submit: Option<Seq<char>>,
    /// Height of the body content measured at the last layout of the
    /// children; zero until they are laid out, and again after they change.
    pub content_height: int,
}

/// A framed container with an optional title and action bar.
pub struct Card {
    title: Option<String>,
    bordered: bool,
    bordered_authored: bool,
    hoverable: bool,
    hovered: bool,
    fixed_width: Option<u32>,
    fixed_height: Option<u32>,
    padding: u32,
    padding_authored: bool,
    elevation: u8,
    elevation_authored: bool,
    actions: Vec<String>,
    focused: bool,
    focused_action: usize,
    hovered_action: Option<usize>,
    pending_submit: Option<String>,
    content_height: u32,
}

impl View for Card {
    type V = CardModel;

    closed spec fn view(&self) -> CardModel {
        CardModel {
            title: match self.title {
                Some(t) => Some(t@),
                None => None,
            },
            bordered: self.bordered,
            bordered_authored: self.bordered_authored,
            hoverable: self.hoverable,
            hovered: self.hovered,
            fixed_width: self.fixed_width,
            fixed_height: self.fixed_height,
            padding: self.padding as int,
            padding_authored: self.padding_authored,
            elevation: self.elevation as int,
            elevation_authored: self.elevation_authored,
            actions: texts(self.actions@),
            focused: self.focused,
            focused_action: self.focused_action as int,
            hovered_action: self.hovered_action,
            pending_submit: match self.pending_submit {
                Some(t) => Some(t@),
                None => None,
            },
            content_height: self.content_height as int,
        }
    }
}

/// Height of the title area: the title block, or the top padding without a title.
pub open spec fn card_top(m: CardModel) -> int {
    if m.title is Some { TITLE_BLOCK_HEIGHT as int } else { m.padding }
}

/// Height a card asks for from its content: the title area, the measured
/// content, the bottom padding and the action bar when there are actions;
/// zero before the content is measured.
pub open spec fn card_content_height(m: CardModel) -> int {
    if m.content_height > 0 {
        saturate(card_top(m) + m.content_height + m.padding
            + if m.actions.len() > 0 { ACTION_HEIGHT as int } else { 0int })
    } else {
        0
    }
}

/// Size a card asks for: its fixed size, else 200 wide and as high as its content.
pub open spec fn card_intrinsic(m: CardModel) -> Size {
    Size {
        w: match m.fixed_width { Some(w) => w, None => DEFAULT_WIDTH },
        h: match m.fixed_height { Some(h) => h, None => card_content_height(m) as u32 },
    }
}

/// The action bar: the bottom strip of the frame, at most 40 high.
pub open spec fn spec_action_rect(frame: Rect) -> Rect {
    let h = if frame.h < ACTION_HEIGHT { frame.h } else { ACTION_HEIGHT };
    Rect { x: frame.x, y: (frame.y + frame.h - h) as i32, w: frame.w, h }
}

/// The action whose slot of the action bar holds `pos`.
pub open spec fn spec_action_index_at(m: CardModel, frame: Rect, pos: Point) -> Option<usize> {
    let bar = spec_action_rect(frame);
    let n = m.actions.len();
    if n == 0 || bar.w == 0 || !bar.spec_contains(pos) {
        None
    } else {
        let index = (pos.x - bar.x) * n / (bar.w as int);
        Some((if index > n - 1 { n - 1 } else { index }) as usize)
    }
}

/// The state after choosing action `index`.
pub open spec fn submitted(m: CardModel, index: int) -> CardModel {
    if 0 <= index < m.actions.len() {
        CardModel { pending_submit: Some(m.actions[index]), ..m }
    } else {
        m
    }
}

/// The body of a card inside `frame`: the space between the title block (or
/// the top padding) and the action bar (or the bottom), inset by the padding
/// on the left, right and bottom as far as the space allows.
pub open spec fn spec_body_rect(m: CardModel, frame: Rect) -> Rect {
    let padding = m.padding;
    let title_offset = {
        let t = if m.title is Some { TITLE_BLOCK_HEIGHT as int } else { padding };
        if t < frame.h { t } else { frame.h as int }
    };
    let action_top = if m.actions.len() > 0 { spec_action_rect(frame).y as int } else { frame.y + frame.h };
    let body_y = if frame.y + title_offset < action_top { frame.y + title_offset } else { action_top };
    let left = if padding < frame.w { padding } else { frame.w as int };
    let right = if padding < frame.w - left { padding } else { frame.w - left };
    let room = if action_top - body_y > 0 { action_top - body_y } else { 0 };
    let bottom = if padding < room { padding } else { room };
    Rect {
        x: (frame.x + left) as i32,
        y: body_y as i32,
        w: (frame.w - left - right) as u32,
        h: (room - bottom) as u32,
    }
}

/// The state after taking over the settings of `next`: the focused action
/// stays in range, a hovered action past the end is dropped, a chosen action
/// that is no longer offered is dropped, and a card without actions loses focus.
pub open spec fn card_synced(m: CardModel, next: CardModel) -> CardModel {
    let n = next.actions.len();
    CardModel {
        title: next.title,
        bordered: next.bordered,
        bordered_authored: next.bordered_authored,
        hoverable: next.hoverable,
        fixed_width: next.fixed_width,
        fixed_height: next.fixed_height,
        padding: next.padding,
        padding_authored: next.padding_authored,
        elevation: next.elevation,
        elevation_authored: next.elevation_authored,
        actions: next.actions,
        focused_action: if n == 0 { 0 } else if m.focused_action < n - 1 { m.focused_action } else { n - 1 },
        hovered_action: match m.hovered_action {
            Some(i) => if i < n { Some(i) } else { None },
            None => None,
        },
        pending_submit: match m.pending_submit {
            Some(p) => if next.actions.contains(p) { Some(p) } else { None },
            None => None,
        },
        focused: m.focused && n > 0,
        hovered: m.hovered,
        content_height: m.content_height,
    }
}

impl Card {
    /// Well-formed card: elevation at most 3.
    pub open spec fn wf(&self) -> bool {
        self@.elevation <= MAX_ELEVATION
    }

    /// Creates a bordered card with padding 16 and elevation 1.
    pub fn new() -> (c: Card)
        ensures
            c.wf(),
            c@ == (CardModel {
                title: None,
                bordered: true,
                bordered_authored: false,
                hoverable: false,
                hovered: false,
                fixed_width: None,
                fixed_height: None,
                padding: DEFAULT_PADDING as int,
                padding_authored: false,
                elevation: 1,
                elevation_authored: false,
                actions: Seq::empty(),
                focused: false,
                focused_action: 0,
                hovered_action: None,
                pending_submit: None,
                content_height: 0,
            }),
    {
        let c = Card {
            title: None,
            bordered: true,
            bordered_authored: false,
            hoverable: false,
            hovered: false,
            fixed_width: None,
            fixed_height: None,
            padding: DEFAULT_PADDING,
            padding_authored: false,
            elevation: 1,
            elevation_authored: false,
            actions: Vec::new(),
            focused: false,
            focused_action: 0,
            hovered_action: None,
            pending_submit: None,
            content_height: 0,
        };
        assert(texts(c.actions@) =~= Seq::empty());
        c
    }

    /// Sets the title.
    pub fn title(self, t: &str) -> (c: Card)
        requires self.wf(),
        ensures c.wf(), c@ == (CardModel { title: Some(t@), ..self@ }),
    {
        let mut c = self;
        c.title = Some(t.to_owned());
        c
    }

    /// Shows or hides the border.
    pub fn bordered(self, v: bool) -> (c: Card)
        requires self.wf(),
        ensures c.wf(), c@ == (CardModel { bordered: v, bordered_authored: true, ..self@ }),
    {
        let mut c = self;
        c.bordered = v;
        c.bordered_authored = true;
        c
    }

    /// Makes the card react to hovering.
    pub fn hoverable(self) -> (c: Card)
        requires self.wf(),
        ensures c.wf(), c@ == (CardModel { hoverable: true, ..self@ }),
    {
        let mut c = self;
        c.hoverable = true;
        c
    }

    /// Fixes the size of the card; a zero length leaves that side unset, so
    /// it falls back to its default.
    pub fn size(self, w: u32, h: u32) -> (c: Card)
        requires self.wf(),
        ensures
            c.wf(),
            c@ == (CardModel {
                fixed_width: if w > 0 { Some(w) } else { None },
                fixed_height: if h > 0 { Some(h) } else { None },
                ..self@
            }),
    {
        let mut c = self;
        c.fixed_width = Self::optional_dimension(w);
        c.fixed_height = Self::optional_dimension(h);
        c
    }

    fn optional_dimension(value: u32) -> (r: Option<u32>)
        ensures r == if value > 0 { Some(value) } else { None::<u32> },
    {
        if value > 0 { Some(value) } else { None }
    }

    /// Sets the inner padding.
    pub fn padding(self, p: u32) -> (c: Card)
        requires self.wf(),
        ensures c.wf(), c@ == (CardModel { padding: p as int, padding_authored: true, ..self@ }),
    {
        let mut c = self;
        c.padding = p;
        c.padding_authored = true;
        c
    }

    /// Sets the shadow level, at most 3.
    pub fn elevation(self, e: u8) -> (c: Card)
        requires self.wf(),
        ensures
            c.wf(),
            c@ == (CardModel {
                elevation: if e > MAX_ELEVATION { MAX_ELEVATION as int } else { e as int },
                elevation_authored: true,
                ..self@
            }),
    {
        let mut c = self;
        c.elevation = if e > MAX_ELEVATION { MAX_ELEVATION } else { e };
        c.elevation_authored = true;
        c
    }

    /// Sets the action labels, dropping blank ones.
    pub fn actions(self, list: Vec<String>) -> (c: Card)
        requires self.wf(),
        ensures
            c.wf(),
            c@ == (CardModel {
                actions: nonblank_prefix(texts(list@), list@.len() as int),
                ..self@
            }),
    {
        let mut kept: Vec<String> = Vec::new();
        let n = list.len();
        for i in 0..n
            invariant
                n == list@.len(),
                texts(kept@) == nonblank_prefix(texts(list@), i as int),
        {
            if !is_blank(list[i].as_str()) {
                let label = list[i].clone();
                let ghost prev = kept@;
                kept.push(label);
                assert(texts(kept@) =~= texts(prev).push(label@));
            }
        }
        let mut c = self;
        c.actions = kept;
        c
    }

    /// Action under keyboard focus, when the card has actions.
    pub fn focused_action(&self) -> (r: Option<usize>)
        ensures
            r == if self@.actions.len() > 0 { Some(self@.focused_action as usize) } else { None::<usize> },
    {
        if self.actions.len() > 0 { Some(self.focused_action) } else { None }
    }

    /// The action labels.
    pub fn action_labels(&self) -> (r: &[String])
        ensures texts(r@) == self@.actions,
    {
        self.actions.as_slice()
    }

    /// Size the card asks for.
    pub fn intrinsic_size(&self) -> (s: Size)
        ensures s == card_intrinsic(self@),
    {
        let h = match self.fixed_height {
            Some(h) => h,
            None => if self.content_height > 0 {
                let top: u64 = if self.title.is_some() { TITLE_BLOCK_HEIGHT as u64 } else { self.padding as u64 };
                let action: u64 = if self.actions.len() > 0 { ACTION_HEIGHT as u64 } else { 0 };
                let total: u64 = top + self.content_height as u64 + self.padding as u64 + action;
                if total > u32::MAX as u64 { u32::MAX } else { total as u32 }
            } else {
                0
            },
        };
        proof {
            assert(self@.actions.len() == self.actions@.len());
        }
        Size { w: match self.fixed_width { Some(w) => w, None => DEFAULT_WIDTH }, h }
    }

    /// Records the body content height measured by the last layout of the children.
    pub fn set_content_height(&mut self, height: u32)
        requires old(self).wf(),
        ensures final(self).wf(), final(self)@ == (CardModel { content_height: height as int, ..old(self)@ }),
    {
        self.content_height = height;
    }

    /// The children were added, removed or replaced: the measured content no
    /// longer holds until the next layout.
    pub fn children_changed(&mut self)
        requires old(self).wf(),
        ensures final(self).wf(), final(self)@ == (CardModel { content_height: 0, ..old(self)@ }),
    {
        self.content_height = 0;
    }

    /// Size within `constraints`: the intrinsic size clamped into range.
    pub fn measure(&self, constraints: Constraints) -> (s: Size)
        ensures
            s.w == clamp_dimension(card_intrinsic(self@).w as int, constraints.min.w as int, constraints.max.w as int),
            s.h == clamp_dimension(card_intrinsic(self@).h as int, constraints.min.h as int, constraints.max.h as int),
    {
        constraints.clamp(self.intrinsic_size())
    }

    /// The body of the card inside `frame`.
    pub fn body_rect(&self, frame: Rect) -> (r: Rect)
        requires frame.spec_fits(),
        ensures r == spec_body_rect(self@, frame),
    {
        let padding: i64 = self.padding as i64;
        let fw: i64 = frame.w as i64;
        let fh: i64 = frame.h as i64;
        let t: i64 = if self.title.is_some() { TITLE_BLOCK_HEIGHT as i64 } else { padding };
        let title_offset: i64 = if t < fh { t } else { fh };
        let action_top: i64 = match self.action_rect(frame) {
            Some(bar) => bar.y as i64,
            None => frame.y as i64 + fh,
        };
        let body_y: i64 = if frame.y as i64 + title_offset < action_top { frame.y as i64 + title_offset } else { action_top };
        let left: i64 = if padding < fw { padding } else { fw };
        let right: i64 = if padding < fw - left { padding } else { fw - left };
        let room: i64 = if action_top - body_y > 0 { action_top - body_y } else { 0 };
        let bottom: i64 = if padding < room { padding } else { room };
        Rect {
            x: (frame.x as i64 + left) as i32,
            y: body_y as i32,
            w: (fw - left - right) as u32,
            h: (room - bottom) as u32,
        }
    }

    /// Takes over the settings of `next`, keeping the interaction state that
    /// still fits its actions.
    pub fn sync_from(&mut self, next: Card)
        requires old(self).wf(), next.wf(),
        ensures final(self).wf(), final(self)@ == card_synced(old(self)@, next@),
    {
        let pending_valid = match &self.pending_submit {
            Some(p) => contains_text(&next.actions, p.as_str()),
            None => true,
        };
        let n = next.actions.len();
        self.title = next.title;
        self.bordered = next.bordered;
        self.bordered_authored = next.bordered_authored;
        self.hoverable = next.hoverable;
        self.fixed_width = next.fixed_width;
        self.fixed_height = next.fixed_height;
        self.padding = next.padding;
        self.padding_authored = next.padding_authored;
        self.elevation = next.elevation;
        self.elevation_authored = next.elevation_authored;
        self.actions = next.actions;
        self.focused_action = if n == 0 { 0 } else if self.focused_action < n - 1 { self.focused_action } else { n - 1 };
        self.hovered_action = match self.hovered_action {
            Some(i) => if i < n { Some(i) } else { None },
            None => None,
        };
        if !pending_valid {
            self.pending_submit = None;
        }
        if n == 0 {
            self.focused = false;
        }
    }

    /// Distance the shadow reaches beyond the frame at the current elevation.
    pub fn dirty_expand(&self) -> (r: u32)
        ensures
            r == (if self@.elevation == 1 {
                50u32
            } else if self@.elevation == 2 {
                70u32
            } else if self@.elevation == 3 {
                95u32
            } else {
                0u32
            }),
    {
        match self.elevation {
            1 => 50,
            2 => 70,
            3 => 95,
            _ => 0,
        }
    }

    /// The action bar inside `frame`, when there are actions.
    pub fn action_rect(&self, frame: Rect) -> (r: Option<Rect>)
        requires frame.spec_fits(),
        ensures
            r == if self@.actions.len() == 0 { None } else { Some(spec_action_rect(frame)) },
    {
        if self.actions.len() == 0 {
            return None;
        }
        let h = if frame.h < ACTION_HEIGHT { frame.h } else { ACTION_HEIGHT };
        let y = (frame.y as i64 + frame.h as i64 - h as i64) as i32;
        Some(Rect { x: frame.x, y, w: frame.w, h })
    }

    /// The action whose slot of the action bar in `frame` holds `pos`.
    pub fn action_index_at(&self, frame: Rect, pos: Point) -> (r: Option<usize>)
        requires frame.spec_fits(),
        ensures r == spec_action_index_at(self@, frame, pos),
    {
        let n = self.actions.len();
        if n == 0 {
            return None;
        }
        let bar = match self.action_rect(frame) {
            Some(b) => b,
            None => {
                return None;
            },
        };
        if bar.w == 0 || !bar.contains(pos) {
            return None;
        }
        let offset: u64 = (pos.x as i64 - bar.x as i64) as u64;
        let w: u128 = bar.w as u128;
        let count: u128 = n as u128;
        assert(offset * count <= 0xffff_ffff * 0xffff_ffff_ffff_ffff) by (nonlinear_arith)
            requires offset <= 0xffff_ffff, count <= 0xffff_ffff_ffff_ffff;
        let scaled: u128 = offset as u128 * count;
        assert(scaled / w < count) by (nonlinear_arith)
            requires offset < w, 0 < w, scaled == offset * count, 0 < count;
        let index = (scaled / w) as usize;
        Some(if index > n - 1 { n - 1 } else { index })
    }

    fn submit_action(&mut self, index: usize)
        requires old(self).wf(),
        ensures final(self).wf(), final(self)@ == submitted(old(self)@, index as int),
    {
        if index < self.actions.len() {
            self.pending_submit = Some(self.actions[index].clone());
        }
    }

    /// Takes the chosen action not yet reported, leaving none.
    pub fn take_pending_submit(&mut self) -> (r: Option<String>)
        requires old(self).wf(),
        ensures
            final(self).wf(),
            match r {
                Some(t) => old(self)@.pending_submit == Some(t@),
                None => old(self)@.pending_submit is None,
            },
            final(self)@ == (CardModel { pending_submit: None, ..old(self)@ }),
    {
        let r = self.pending_submit.take();
        r
    }

    /// Handles a key press on a card with actions: left and right move focus
    /// along the action bar, Home and End jump, Enter and Space choose.
    pub fn on_key(&mut self, key: KeyCode) -> (r: EventResult)
        requires old(self).wf(),
        ensures
            final(self).wf(),
            ({
                let m = old(self)@;
                let n = m.actions.len();
                let f = m.focused_action;
                if n == 0 {
                    r == EventResult::NotHandled && final(self)@ == m
                } else {
                    match key {
                        KeyCode::Left => r == EventResult::Handled && final(self)@
                            == (CardModel { focused_action: if f > 0 { f - 1 } else { 0 }, ..m }),
                        KeyCode::Right => r == EventResult::Handled && final(self)@
                            == (CardModel { focused_action: if f + 1 < n { f + 1 } else { n - 1 }, ..m }),
                        KeyCode::Home => r == EventResult::Handled && final(self)@
                            == (CardModel { focused_action: 0, ..m }),
                        KeyCode::End => r == EventResult::Handled && final(self)@
                            == (CardModel { focused_action: n - 1, ..m }),
                        KeyCode::Enter | KeyCode::Space => r == EventResult::Handled
                            && final(self)@ == submitted(m, f),
                        _ => r == EventResult::NotHandled && final(self)@ == m,
                    }
                }
            }),
    {
        let n = self.actions.len();
        if n == 0 {
            return EventResult::NotHandled;
        }
        match key {
            KeyCode::Left => {
                self.focused_action = if self.focused_action > 0 { self.focused_action - 1 } else { 0 };
                EventResult::Handled
            },
            KeyCode::Right => {
                self.focused_action = if self.focused_action < n - 1 { self.focused_action + 1 } else { n - 1 };
                EventResult::Handled
            },
            KeyCode::Home => {
                self.focused_action = 0;
                EventResult::Handled
            },
            KeyCode::End => {
                self.focused_action = n - 1;
                EventResult::Handled
            },
            KeyCode::Enter | KeyCode::Space => {
                let f = self.focused_action;
                self.submit_action(f);
                EventResult::Handled
            },
            _ => EventResult::NotHandled,
        }
    }

    /// Handles a primary-button press at `pos` inside `frame`: an action takes
    /// focus and is chosen.
    pub fn pointer_down(&mut self, frame: Rect, pos: Point) -> (r: EventResult)
        requires old(self).wf(), frame.spec_fits(),
        ensures
            final(self).wf(),
            match spec_action_index_at(old(self)@, frame, pos) {
                Some(i) => r == EventResult::Handled && final(self)@
                    == submitted(CardModel { focused: true, focused_action: i as int, ..old(self)@ }, i as int),
                None => r == EventResult::NotHandled && final(self)@ == old(self)@,
            },
    {
        match self.action_index_at(frame, pos) {
            Some(i) => {
                self.focused = true;
                self.focused_action = i;
                self.submit_action(i);
                EventResult::Handled
            },
            None => EventResult::NotHandled,
        }
    }

    /// Handles pointer movement over the action bar; reports a change of the hovered action.
    pub fn pointer_move(&mut self, frame: Rect, pos: Point) -> (r: EventResult)
        requires old(self).wf(), frame.spec_fits(),
        ensures
            final(self).wf(),
            if old(self)@.actions.len() == 0 {
                r == EventResult::NotHandled && final(self)@ == old(self)@
            } else {
                let a = spec_action_index_at(old(self)@, frame, pos);
                final(self)@ == (CardModel { hovered_action: a, ..old(self)@ })
                    && r == if a != old(self)@.hovered_action { EventResult::Handled } else { EventResult::NotHandled }
            },
    {
        if self.actions.len() == 0 {
            return EventResult::NotHandled;
        }
        let a = self.action_index_at(frame, pos);
        let changed = a != self.hovered_action;
        self.hovered_action = a;
        if changed { EventResult::Handled } else { EventResult::NotHandled }
    }

    /// Handles the pointer entering the card.
    pub fn pointer_enter(&mut self) -> (r: EventResult)
        requires old(self).wf(),
        ensures
            final(self).wf(),
            final(self)@ == if old(self)@.hoverable { CardModel { hovered: true, ..old(self)@ } } else { old(self)@ },
            r == if old(self)@.hoverable { EventResult::Handled } else { EventResult::NotHandled },
    {
        if self.hoverable {
            self.hovered = true;
            EventResult::Handled
        } else {
            EventResult::NotHandled
        }
    }

    /// Handles the pointer leaving the card; reports whether anything changed.
    pub fn pointer_leave(&mut self) -> (r: EventResult)
        requires old(self).wf(),
        ensures
            final(self).wf(),
            final(self)@ == (CardModel { hovered: false, hovered_action: None, ..old(self)@ }),
            r == if old(self)@.hovered || old(self)@.hovered_action is Some {
                EventResult::Handled
            } else {
                EventResult::NotHandled
            },
    {
        let changed = self.hovered || self.hovered_action.is_some();
        self.hovered = false;
        self.hovered_action = None;
        if changed { EventResult::Handled } else { EventResult::NotHandled }
    }

    /// Records keyboard focus; a card without actions takes none.
    pub fn set_focused(&mut self, focused: bool) -> (r: EventResult)
        requires old(self).wf(),
        ensures
            final(self).wf(),
            if focused && old(self)@.actions.len() == 0 {
                r == EventResult::NotHandled && final(self)@ == old(self)@
            } else {
                r == EventResult::Handled && final(self)@ == (CardModel { focused, ..old(self)@ })
            },
    {
        if focused && self.actions.len() == 0 {
            return EventResult::NotHandled;
        }
        self.focused = focused;
        EventResult::Handled
    }
}

/// Rect helpers used by cards.
impl Rect {
    /// Whether `pos` lies inside the rectangle.
    pub open spec fn spec_contains(self, pos: Point) -> bool {
        self.x <= pos.x < self.x + self.w && self.y <= pos.y < self.y + self.h
    }

    /// The rectangle's far edges stay within 32-bit coordinates.
    pub open spec fn spec_fits(self) -> bool {
        self.x + self.w <= i32::MAX && self.y + self.h <= i32::MAX
    }

    /// Whether `pos` lies inside the rectangle.
    pub fn contains(&self, pos: Point) -> (r: bool)
        ensures r == self.spec_contains(pos),
    {
        let x = pos.x as i64;
        let y = pos.y as i64;
        self.x as i64 <= x && x < self.x as i64 + self.w as i64
            && self.y as i64 <= y && y < self.y as i64 + self.h as i64
    }
}

} // verus!
