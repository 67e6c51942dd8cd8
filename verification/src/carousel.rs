//! Carousel: one slide at a time, with dots, arrows, autoplay and fades.

use vstd::prelude::*;

use crate::event::{EventResult, KeyCode};
use crate::geometry::{Constraints, Point, Rect, Size, clamp_dimension};

verus! {

/// Width of the click area of each default arrow.
pub const ARROW_HIT_WIDTH: u32 = 30;
/// Width of the slot of one dot.
pub const DOT_SLOT_WIDTH: u32 = 18;
/// Height of the click area of the dots.
pub const DOT_HIT_HEIGHT: u32 = 16;
/// Height of a dot.
pub const DOT_HEIGHT: u32 = 6;
/// Gap between the dots and the bottom edge.
pub const DOT_BOTTOM_INSET: u32 = 8;


/// Progress value of a finished fade, in thousandths.
pub const FADE_DONE: u32 = 1000;
/// Progress at which a fade shows the new slide, in thousandths.
pub const FADE_HALF: u32 = 500;
/// Timer identity of autoplay.
pub const AUTOPLAY_TIMER_ID: u32 = 0xCAFE_0001;

/// How slides change.
#[derive(Debug, Clone, Copy, PartialEq, Eq, Structural)]
pub enum CarouselEffect {
    /// Slides replace each other at once.
    Slide,
    /// Slides cross-fade.
    Fade,
}

/// Who asked for a slide change.
#[derive(Debug, Clone, Copy, PartialEq, Eq, Structural)]
pub enum SelectionSource {
    /// The user, which pauses autoplay.
    User,
    /// The autoplay timer.
    Autoplay,
}

/// The state of a carousel as plain values.
pub struct CarouselModel {
    /// Index of the current slide.
    pub current: int,
    /// Number of slides.
    pub child_count: int,
    /// Slide change not yet reported.
    pub pending: Option<usize>,
    /// A new layout is wanted.
    pub layout_requested: bool,
    /// The user paused autoplay.
    pub manually_paused: bool,
    /// Slide the running fade started from.
    pub fade_from: Option<usize>,
    /// Progress of the running fade in thousandths.
    pub fade_progress: int,
    /// Dots are shown.
    pub show_dots: bool,
    /// Arrows are shown.
    pub show_arrows: bool,
    /// Autoplay interval in milliseconds.
    pub autoplay: Option<u64>,
    /// Transition effect.
    pub effect: CarouselEffect,
    /// Hovering pauses autoplay.
    pub pause_on_hover: bool,
    /// The pointer is over the carousel.
    pub hovered: bool,
    /// Fixed width, if any.
    pub fixed_width: Option<u32>,
    /// Fixed height, if any.
    pub fixed_height: Option<u32>,
    /// The carousel has keyboard focus.
    pub focused: bool,
    /// The application draws its own arrows, which take the clicks.
    pub custom_arrows: bool,
}

/// A slide show that displays one child at a time.
pub struct Carousel {
    current: usize,
    child_count: usize,
    pending_change: Option<usize>,
    layout_requested: bool,
    manually_paused: bool,
    fade_from: Option<usize>,
    fade_progress: u32,
    show_dots: bool,
    show_arrows: bool,
    autoplay: Option<u64>,
    effect: CarouselEffect,
    pause_on_hover: bool,
    hovered: bool,
    fixed_width: Option<u32>,
    fixed_height: Option<u32>,
    focused: bool,
    custom_arrows: bool,
}

impl View for Carousel {
    type V = CarouselModel;

    closed spec fn view(&self) -> CarouselModel {
        CarouselModel {
            current: self.current as int,
            child_count: self.child_count as int,
            pending: self.pending_change,
            layout_requested: self.layout_requested,
            manually_paused: self.manually_paused,
            fade_from: self.fade_from,
            fade_progress: self.fade_progress as int,
            show_dots: self.show_dots,
            show_arrows: self.show_arrows,
            autoplay: self.autoplay,
            effect: self.effect,
            pause_on_hover: self.pause_on_hover,
            hovered: self.hovered,
            fixed_width: self.fixed_width,
            fixed_height: self.fixed_height,
            focused: self.focused,
            custom_arrows: self.custom_arrows,
        }
    }
}

/// Well-formed carousel: the current slide exists (or is 0 without slides),
/// fade progress is at most complete, and a fade starts from an existing slide.
pub open spec fn carousel_wf(m: CarouselModel) -> bool {
    &&& 0 <= m.current
    &&& 0 <= m.child_count
    &&& (m.child_count == 0 ==> m.current == 0)
    &&& (m.child_count > 0 ==> m.current < m.child_count)
    &&& 0 <= m.fade_progress <= FADE_DONE
    &&& (m.fade_from matches Some(f) ==> f < m.child_count)
}

/// Slide before the current one, wrapping around.
pub open spec fn spec_previous_index(m: CarouselModel) -> int {
    if m.child_count == 0 { 0 } else { (m.current + m.child_count - 1) % m.child_count }
}

/// Slide after the current one, wrapping around.
pub open spec fn spec_next_index(m: CarouselModel) -> int {
    if m.child_count == 0 { 0 } else { (m.current + 1) % m.child_count }
}

/// Slide on screen: during the first half of a fade, the one faded from.
pub open spec fn spec_displayed_index(m: CarouselModel) -> int {
    if m.effect == CarouselEffect::Fade && m.fade_progress < FADE_HALF {
        match m.fade_from {
            Some(f) => f as int,
            None => m.current,
        }
    } else {
        m.current
    }
}

/// The state after a request to show slide `index`.
pub open spec fn spec_select(m: CarouselModel, index: int, source: SelectionSource) -> CarouselModel {
    if m.child_count == 0 {
        m
    } else {
        let target = if index > m.child_count - 1 { m.child_count - 1 } else { index };
        if target == m.current {
            m
        } else {
            CarouselModel {
                current: target,
                pending: Some(target as usize),
                layout_requested: true,
                manually_paused: if source == SelectionSource::User { true } else { m.manually_paused },
                fade_from: if m.effect == CarouselEffect::Fade {
                    Some(spec_displayed_index(m) as usize)
                } else {
                    None
                },
                fade_progress: if m.effect == CarouselEffect::Fade { 0 } else { FADE_DONE as int },
                ..m
            }
        }
    }
}

/// The smaller of two integers.
pub open spec fn min_of(a: int, b: int) -> int {
    if a < b { a } else { b }
}

/// The larger of two integers.
pub open spec fn max_of(a: int, b: int) -> int {
    if a < b { b } else { a }
}

/// Dot of the dot strip of `count` dots in `frame` under `pos`. The strip is
/// `count` slots of 18 wide, at most the frame's width, centred; a dot is 6
/// high, at most the frame's height and three quarters of a slot, and at least
/// 1, and sits 8 above the bottom as far as the height allows; the click area
/// is 16 high around the dots, kept inside the frame. Vertical values are
/// counted in units of one eighth over `count`, which makes them whole.
pub open spec fn spec_dot_at(frame: Rect, count: int, pos: Point) -> Option<int> {
    let x = frame.x as int;
    let y = frame.y as int;
    let w = frame.w as int;
    let h = frame.h as int;
    let total = min_of(count * DOT_SLOT_WIDTH, w);
    let s = 8 * count;
    let dot_h = min_of(min_of(DOT_HEIGHT * s, h * s), max_of(6 * total, s));
    let inset = min_of(DOT_BOTTOM_INSET * s, max_of(h * s - dot_h, 0));
    let dot_y = y * s + h * s - inset - dot_h;
    let hit_h = min_of(DOT_HIT_HEIGHT as int, h) * s;
    let hit_y = max_of(y * s, min_of(dot_y + dot_h / 2 - hit_h / 2, y * s + h * s - hit_h));
    if total <= 0 || 2 * pos.x < 2 * x + w - total || 2 * pos.x >= 2 * x + w + total
        || pos.y * s < hit_y || pos.y * s >= hit_y + hit_h {
        None
    } else {
        let index = (2 * pos.x - 2 * x - w + total) * count / (2 * total);
        if index < count { Some(index) } else { None }
    }
}

/// Whether `pos` falls on the left default arrow of `frame`: within
/// `min(30, w / 2)` of the left edge.
pub open spec fn on_left_arrow(frame: Rect, pos: Point) -> bool {
    2 * (pos.x - frame.x) < min_of(2 * ARROW_HIT_WIDTH, frame.w as int)
}

/// Whether `pos` falls on the right default arrow of `frame`.
pub open spec fn on_right_arrow(frame: Rect, pos: Point) -> bool {
    2 * (pos.x - frame.x) >= 2 * frame.w - min_of(2 * ARROW_HIT_WIDTH, frame.w as int)
}

/// Next state and result of a primary-button press at `pos` in `frame`: a
/// dot selects its slide; otherwise the default arrows step back or forward.
pub open spec fn spec_carousel_pointer_down(m: CarouselModel, frame: Rect, pos: Point) -> (CarouselModel, EventResult) {
    let inside = frame.x <= pos.x < frame.x + frame.w && frame.y <= pos.y < frame.y + frame.h;
    let dot = if m.show_dots && m.child_count > 1 && inside { spec_dot_at(frame, m.child_count, pos) } else { None };
    match dot {
        Some(i) => (spec_select(m, i, SelectionSource::User), EventResult::Handled),
        None => if m.show_arrows && !m.custom_arrows && m.child_count > 1 && inside {
            if on_left_arrow(frame, pos) {
                (spec_select(m, spec_previous_index(m), SelectionSource::User), EventResult::Handled)
            } else if on_right_arrow(frame, pos) {
                (spec_select(m, spec_next_index(m), SelectionSource::User), EventResult::Handled)
            } else {
                (m, EventResult::NotHandled)
            }
        } else {
            (m, EventResult::NotHandled)
        },
    }
}

/// Dot under `pos` in `frame` among `count` dots.
#[verifier::rlimit(60)]
pub fn dot_at(frame: Rect, count: usize, pos: Point) -> (r: Option<usize>)
    requires count >= 1,
    ensures
        match spec_dot_at(frame, count as int, pos) {
            Some(i) => r == Some(i as usize),
            None => r is None,
        },
{
    let x = frame.x as i128;
    let y = frame.y as i128;
    let w = frame.w as i128;
    let h = frame.h as i128;
    let n = count as i128;
    let total: i128 = if n * 18 < w { n * 18 } else { w };
    let s: i128 = 8 * n;
    assert(0 <= h * s <= 0xffff_ffff * (8 * 0xffff_ffff_ffff_ffff)) by (nonlinear_arith)
        requires 0 <= h <= 0xffff_ffff, 0 <= s <= 8 * 0xffff_ffff_ffff_ffff;
    assert(-0x8000_0000 * (8 * 0xffff_ffff_ffff_ffff) <= y * s <= 0x7fff_ffff * (8 * 0xffff_ffff_ffff_ffff)) by (nonlinear_arith)
        requires -0x8000_0000 <= y <= 0x7fff_ffff, 0 <= s <= 8 * 0xffff_ffff_ffff_ffff;
    let py = pos.y as i128;
    assert(-0x8000_0000 * (8 * 0xffff_ffff_ffff_ffff) <= py * s <= 0x7fff_ffff * (8 * 0xffff_ffff_ffff_ffff)) by (nonlinear_arith)
        requires -0x8000_0000 <= py <= 0x7fff_ffff, 0 <= s <= 8 * 0xffff_ffff_ffff_ffff;
    let hs = h * s;
    let ys = y * s;
    let a: i128 = if 6 * s < hs { 6 * s } else { hs };
    let b: i128 = if 6 * total < s { s } else { 6 * total };
    let dot_h: i128 = if a < b { a } else { b };
    let room: i128 = if hs - dot_h < 0 { 0 } else { hs - dot_h };
    let inset: i128 = if 8 * s < room { 8 * s } else { room };
    let dot_y: i128 = ys + hs - inset - dot_h;
    let hit_h: i128 = (if 16 < h { 16 } else { h }) * s;
    let upper: i128 = ys + hs - hit_h;
    let centred: i128 = dot_y + dot_h / 2 - hit_h / 2;
    let lowered: i128 = if centred < upper { centred } else { upper };
    let hit_y: i128 = if ys < lowered { lowered } else { ys };
    let px = pos.x as i128;
    let pys = py * s;
    if total <= 0 || 2 * px < 2 * x + w - total || 2 * px >= 2 * x + w + total || pys < hit_y || pys >= hit_y + hit_h {
        return None;
    }
    let offset: i128 = 2 * px - 2 * x - w + total;
    assert(0 <= offset * n <= (4 * 0x1_0000_0000) * 0xffff_ffff_ffff_ffff) by (nonlinear_arith)
        requires 0 <= offset <= 4 * 0x1_0000_0000, 0 <= n <= 0xffff_ffff_ffff_ffff;
    let index: i128 = offset * n / (2 * total);
    if index < n {
        Some(index as usize)
    } else {
        None
    }
}

impl Carousel {
    /// Well-formedness of the carousel state.
    pub open spec fn wf(&self) -> bool {
        carousel_wf(self@)
    }

    /// Creates an empty carousel with dots and arrows, sliding, without autoplay.
    pub fn new() -> (c: Carousel)
        ensures
            c.wf(),
            c@ == (CarouselModel {
                current: 0,
                child_count: 0,
                pending: None,
                layout_requested: false,
                manually_paused: false,
                fade_from: None,
                fade_progress: FADE_DONE as int,
                show_dots: true,
                show_arrows: true,
                autoplay: None,
                effect: CarouselEffect::Slide,
                pause_on_hover: false,
                hovered: false,
                fixed_width: None,
                fixed_height: None,
                focused: false,
                custom_arrows: false,
            }),
    {
        Carousel {
            current: 0,
            child_count: 0,
            pending_change: None,
            layout_requested: false,
            manually_paused: false,
            fade_from: None,
            fade_progress: FADE_DONE,
            show_dots: true,
            show_arrows: true,
            autoplay: None,
            effect: CarouselEffect::Slide,
            pause_on_hover: false,
            hovered: false,
            fixed_width: None,
            fixed_height: None,
            focused: false,
            custom_arrows: false,
        }
    }

    /// Shows or hides the dots.
    pub fn show_dots(self, v: bool) -> (c: Carousel)
        requires self.wf(),
        ensures c.wf(), c@ == (CarouselModel { show_dots: v, ..self@ }),
    {
        let mut c = self;
        c.show_dots = v;
        c
    }

    /// Shows or hides the arrows.
    pub fn show_arrows(self, v: bool) -> (c: Carousel)
        requires self.wf(),
        ensures c.wf(), c@ == (CarouselModel { show_arrows: v, ..self@ }),
    {
        let mut c = self;
        c.show_arrows = v;
        c
    }

    /// Advances slides every `interval_millis` milliseconds; zero turns autoplay off.
    pub fn autoplay(self, interval_millis: u64) -> (c: Carousel)
        requires self.wf(),
        ensures
            c.wf(),
            c@ == (CarouselModel {
                autoplay: if interval_millis > 0 { Some(interval_millis) } else { None },
                ..self@
            }),
    {
        let mut c = self;
        c.autoplay = if interval_millis > 0 { Some(interval_millis) } else { None };
        c
    }

    /// Sets the transition effect.
    pub fn effect(self, effect: CarouselEffect) -> (c: Carousel)
        requires self.wf(),
        ensures c.wf(), c@ == (CarouselModel { effect, ..self@ }),
    {
        let mut c = self;
        c.effect = effect;
        c
    }

    /// Pauses autoplay while the pointer is over the carousel.
    pub fn pause_on_hover(self, pause: bool) -> (c: Carousel)
        requires self.wf(),
        ensures c.wf(), c@ == (CarouselModel { pause_on_hover: pause, ..self@ }),
    {
        let mut c = self;
        c.pause_on_hover = pause;
        c
    }

    /// Fixes the size of the carousel.
    pub fn size(self, width: u32, height: u32) -> (c: Carousel)
        requires self.wf(),
        ensures
            c.wf(),
            c@ == (CarouselModel { fixed_width: Some(width), fixed_height: Some(height), ..self@ }),
    {
        let mut c = self;
        c.fixed_width = Some(width);
        c.fixed_height = Some(height);
        c
    }

    /// Index of the current slide.
    pub fn current_index(&self) -> (r: usize)
        ensures r == self@.current,
    {
        self.current
    }

    /// Number of slides.
    pub fn slide_count(&self) -> (r: usize)
        ensures r == self@.child_count,
    {
        self.child_count
    }

    /// Size the carousel asks for when nothing is fixed: 300 by 200.
    pub fn intrinsic_size(&self) -> (s: Size)
        ensures
            s.w == 300,
            s.h == 200,
    {
        Size { w: 300, h: 200 }
    }

    /// Size within `constraints`: the fixed size, or 300 by 200 where none is
    /// fixed, clamped into range.
    pub fn measure(&self, constraints: Constraints) -> (s: Size)
        ensures
            s.w == clamp_dimension(
                match self@.fixed_width { Some(w) => w as int, None => 300int },
                constraints.min.w as int, constraints.max.w as int),
            s.h == clamp_dimension(
                match self@.fixed_height { Some(h) => h as int, None => 200int },
                constraints.min.h as int, constraints.max.h as int),
    {
        let intrinsic = self.intrinsic_size();
        constraints.clamp(Size {
            w: match self.fixed_width { Some(w) => w, None => intrinsic.w },
            h: match self.fixed_height { Some(h) => h, None => intrinsic.h },
        })
    }

    /// Whether the carousel grows to fill space: only without a fixed size.
    pub fn flex_grow_enabled(&self) -> (r: bool)
        ensures r == (self@.fixed_width is None && self@.fixed_height is None),
    {
        self.fixed_width.is_none() && self.fixed_height.is_none()
    }

    /// Ends a running fade.
    fn finish_fade(&mut self)
        requires old(self).wf(),
        ensures
            final(self).wf(),
            final(self)@ == (CarouselModel { fade_from: None, fade_progress: FADE_DONE as int, ..old(self)@ }),
    {
        self.fade_from = None;
        self.fade_progress = FADE_DONE;
    }

    /// Takes note of the number of slides; the current slide stays the same
    /// when it still exists and moves to the last one otherwise.
    pub fn set_child_count(&mut self, count: usize)
        requires old(self).wf(),
        ensures
            final(self).wf(),
            final(self)@ == ({
                let m = old(self)@;
                let base = if count == 0 {
                    CarouselModel {
                        child_count: 0,
                        current: 0,
                        pending: None,
                        layout_requested: false,
                        manually_paused: false,
                        ..m
                    }
                } else {
                    CarouselModel {
                        child_count: count as int,
                        current: if m.current < count - 1 { m.current } else { count - 1 },
                        ..m
                    }
                };
                if m.fade_from matches Some(f) && f >= count {
                    CarouselModel { fade_from: None, fade_progress: FADE_DONE as int, ..base }
                } else {
                    base
                }
            }),
    {
        self.child_count = count;
        if count == 0 {
            self.pending_change = None;
            self.layout_requested = false;
            self.manually_paused = false;
        }
        self.current = if count == 0 {
            0
        } else if self.current < count - 1 {
            self.current
        } else {
            count - 1
        };
        let stale = match self.fade_from {
            Some(f) => f >= count,
            None => false,
        };
        if stale {
            self.fade_from = None;
            self.fade_progress = FADE_DONE;
        }
    }

    /// Slide on screen, which during the first half of a fade is the old one.
    pub fn displayed_index(&self) -> (r: usize)
        requires self.wf(),
        ensures r == spec_displayed_index(self@),
    {
        if self.effect == CarouselEffect::Fade && self.fade_progress < FADE_HALF {
            match self.fade_from {
                Some(f) => f,
                None => self.current,
            }
        } else {
            self.current
        }
    }

    /// Shows slide `index` (the last one when beyond); a change is reported,
    /// a user change pauses autoplay, and a fade starts from the slide on screen.
    pub fn select(&mut self, index: usize, source: SelectionSource)
        requires old(self).wf(),
        ensures
            final(self).wf(),
            final(self)@ == spec_select(old(self)@, index as int, source),
    {
        let count = self.child_count;
        if count == 0 {
            return;
        }
        let index = if index > count - 1 { count - 1 } else { index };
        if index == self.current {
            return;
        }
        let displayed = self.displayed_index();
        self.current = index;
        self.pending_change = Some(index);
        self.layout_requested = true;
        if source == SelectionSource::User {
            self.manually_paused = true;
        }
        if self.effect == CarouselEffect::Fade {
            self.fade_from = Some(displayed);
            self.fade_progress = 0;
        } else {
            self.finish_fade();
        }
    }

    /// Slide before the current one, wrapping around.
    pub fn previous_index(&self) -> (r: usize)
        requires self.wf(),
        ensures r == spec_previous_index(self@),
    {
        let count = self.child_count;
        if count == 0 {
            0
        } else if self.current == 0 {
            proof {
                vstd::arithmetic::div_mod::lemma_fundamental_div_mod_converse(count - 1, count as int, 0, count - 1);
            }
            count - 1
        } else {
            proof {
                vstd::arithmetic::div_mod::lemma_fundamental_div_mod_converse(
                    self.current + count - 1, count as int, 1, self.current - 1);
            }
            self.current - 1
        }
    }

    /// Slide after the current one, wrapping around.
    pub fn next_index(&self) -> (r: usize)
        requires self.wf(),
        ensures r == spec_next_index(self@),
    {
        let count = self.child_count;
        if count == 0 { 0 } else { (self.current + 1) % count }
    }

    /// Handles a key press while focused with more than one slide: arrows step
    /// with wrap-around, Home and End jump to the first and last slide.
    pub fn on_key(&mut self, key: KeyCode) -> (r: EventResult)
        requires old(self).wf(),
        ensures
            final(self).wf(),
            ({
                let m = old(self)@;
                if !m.focused || m.child_count <= 1 {
                    r == EventResult::NotHandled && final(self)@ == m
                } else {
                    match key {
                        KeyCode::Left | KeyCode::Up => r == EventResult::Handled
                            && final(self)@ == spec_select(m, spec_previous_index(m), SelectionSource::User),
                        KeyCode::Right | KeyCode::Down => r == EventResult::Handled
                            && final(self)@ == spec_select(m, spec_next_index(m), SelectionSource::User),
                        KeyCode::Home => r == EventResult::Handled
                            && final(self)@ == spec_select(m, 0, SelectionSource::User),
                        KeyCode::End => r == EventResult::Handled
                            && final(self)@ == spec_select(m, m.child_count - 1, SelectionSource::User),
                        _ => r == EventResult::NotHandled && final(self)@ == m,
                    }
                }
            }),
    {
        if !self.focused || self.child_count <= 1 {
            return EventResult::NotHandled;
        }
        match key {
            KeyCode::Left | KeyCode::Up => {
                let i = self.previous_index();
                self.select(i, SelectionSource::User);
                EventResult::Handled
            },
            KeyCode::Right | KeyCode::Down => {
                let i = self.next_index();
                self.select(i, SelectionSource::User);
                EventResult::Handled
            },
            KeyCode::Home => {
                self.select(0, SelectionSource::User);
                EventResult::Handled
            },
            KeyCode::End => {
                let last = self.child_count - 1;
                self.select(last, SelectionSource::User);
                EventResult::Handled
            },
            _ => EventResult::NotHandled,
        }
    }

    /// Switches to arrows drawn by a caller-supplied factory; the default
    /// arrows then take no clicks.
    pub fn arrows(self) -> (c: Carousel)
        requires self.wf(),
        ensures c.wf(), c@ == (CarouselModel { custom_arrows: true, ..self@ }),
    {
        let mut c = self;
        c.custom_arrows = true;
        c
    }

    /// The dot under `pos` when the carousel fills `frame`, if dots are shown
    /// and there is more than one slide.
    pub fn dot_index_at(&self, frame: Rect, pos: Point) -> (r: Option<usize>)
        ensures
            r == if self@.show_dots && self@.child_count > 1 && frame.x <= pos.x < frame.x + frame.w
                && frame.y <= pos.y < frame.y + frame.h {
                match spec_dot_at(frame, self@.child_count, pos) {
                    Some(i) => Some(i as usize),
                    None => None,
                }
            } else {
                None
            },
    {
        let inside = frame.x as i64 <= pos.x as i64 && (pos.x as i64) < frame.x as i64 + frame.w as i64
            && frame.y as i64 <= pos.y as i64 && (pos.y as i64) < frame.y as i64 + frame.h as i64;
        if !self.show_dots || self.child_count <= 1 || !inside {
            return None;
        }
        dot_at(frame, self.child_count, pos)
    }

    /// Handles a primary-button press at `pos` when the carousel fills `frame`.
    pub fn pointer_down(&mut self, frame: Rect, pos: Point) -> (r: EventResult)
        requires old(self).wf(),
        ensures
            final(self).wf(),
            (final(self)@, r) == spec_carousel_pointer_down(old(self)@, frame, pos),
    {
        let inside = frame.x as i64 <= pos.x as i64 && (pos.x as i64) < frame.x as i64 + frame.w as i64
            && frame.y as i64 <= pos.y as i64 && (pos.y as i64) < frame.y as i64 + frame.h as i64;
        match self.dot_index_at(frame, pos) {
            Some(i) => {
                self.select(i, SelectionSource::User);
                return EventResult::Handled;
            },
            None => {},
        }
        if self.show_arrows && !self.custom_arrows && self.child_count > 1 && inside {
            let offset2: i64 = 2 * (pos.x as i64 - frame.x as i64);
            let width: i64 = if 2 * (ARROW_HIT_WIDTH as i64) < frame.w as i64 { 2 * ARROW_HIT_WIDTH as i64 } else { frame.w as i64 };
            if offset2 < width {
                let i = self.previous_index();
                self.select(i, SelectionSource::User);
                return EventResult::Handled;
            }
            if offset2 >= 2 * (frame.w as i64) - width {
                let i = self.next_index();
                self.select(i, SelectionSource::User);
                return EventResult::Handled;
            }
        }
        EventResult::NotHandled
    }

    /// Records whether the pointer is over the carousel filling `frame`.
    pub fn pointer_move(&mut self, frame: Rect, pos: Point)
        requires old(self).wf(),
        ensures
            final(self).wf(),
            final(self)@ == (CarouselModel {
                hovered: frame.x <= pos.x < frame.x + frame.w && frame.y <= pos.y < frame.y + frame.h,
                ..old(self)@
            }),
    {
        self.hovered = frame.x as i64 <= pos.x as i64 && (pos.x as i64) < frame.x as i64 + frame.w as i64
            && frame.y as i64 <= pos.y as i64 && (pos.y as i64) < frame.y as i64 + frame.h as i64;
    }

    /// Handles the autoplay timer: it advances unless paused by the user or by hovering.
    pub fn on_autoplay_timer(&mut self) -> (r: EventResult)
        requires old(self).wf(),
        ensures
            final(self).wf(),
            r == EventResult::Handled,
            final(self)@ == ({
                let m = old(self)@;
                if m.autoplay is Some && !m.manually_paused && !(m.pause_on_hover && m.hovered) {
                    spec_select(m, spec_next_index(m), SelectionSource::Autoplay)
                } else {
                    m
                }
            }),
    {
        if self.autoplay.is_some() && !self.manually_paused && !(self.pause_on_hover && self.hovered) {
            let i = self.next_index();
            self.select(i, SelectionSource::Autoplay);
        }
        EventResult::Handled
    }

    /// Timer the carousel wants: its autoplay interval, while there is more than
    /// one slide and nothing pauses it.
    pub fn active_timer(&self) -> (r: Option<(u64, u64)>)
        ensures
            r == ({
                let m = self@;
                let paused = m.manually_paused || (m.pause_on_hover && m.hovered);
                if m.child_count > 1 && !paused {
                    match m.autoplay {
                        Some(ms) => Some((AUTOPLAY_TIMER_ID as u64, ms)),
                        None => None,
                    }
                } else {
                    None
                }
            }),
    {
        let paused = self.manually_paused || (self.pause_on_hover && self.hovered);
        if self.child_count > 1 && !paused {
            match self.autoplay {
                Some(ms) => Some((AUTOPLAY_TIMER_ID as u64, ms)),
                None => None,
            }
        } else {
            None
        }
    }

    /// Records whether the pointer is over the carousel.
    pub fn set_hovered(&mut self, hovered: bool)
        requires old(self).wf(),
        ensures final(self).wf(), final(self)@ == (CarouselModel { hovered, ..old(self)@ }),
    {
        self.hovered = hovered;
    }

    /// Records keyboard focus; losing it clears hovering and resumes autoplay.
    pub fn set_focused(&mut self, focused: bool)
        requires old(self).wf(),
        ensures
            final(self).wf(),
            final(self)@ == if focused {
                CarouselModel { focused: true, ..old(self)@ }
            } else {
                CarouselModel { focused: false, hovered: false, manually_paused: false, ..old(self)@ }
            },
    {
        self.focused = focused;
        if !focused {
            self.hovered = false;
            self.manually_paused = false;
        }
    }

    /// Whether child `index` is laid out: the slide on screen, or a non-slide child.
    pub fn child_visible(&self, index: usize) -> (r: bool)
        requires self.wf(),
        ensures r == (index >= self@.child_count || index == spec_displayed_index(self@)),
    {
        index >= self.child_count || index == self.displayed_index()
    }

    /// Advances a running fade by `step` thousandths; reaching the midpoint asks
    /// for a layout, reaching the end finishes the fade. Returns whether the fade
    /// still runs.
    pub fn advance_fade(&mut self, step: u32) -> (r: bool)
        requires old(self).wf(),
        ensures
            final(self).wf(),
            ({
                let m = old(self)@;
                if m.effect != CarouselEffect::Fade || m.fade_from is None {
                    !r && final(self)@ == m
                } else {
                    let p = if m.fade_progress + step > FADE_DONE { FADE_DONE as int } else { m.fade_progress + step };
                    let lr = m.layout_requested || (m.fade_progress < FADE_HALF && p >= FADE_HALF);
                    if p >= FADE_DONE {
                        !r && final(self)@ == (CarouselModel {
                            fade_from: None, fade_progress: FADE_DONE as int, layout_requested: lr, ..m
                        })
                    } else {
                        r && final(self)@ == (CarouselModel { fade_progress: p, layout_requested: lr, ..m })
                    }
                }
            }),
    {
        if self.effect != CarouselEffect::Fade || self.fade_from.is_none() {
            return false;
        }
        let previous = self.fade_progress;
        let progress = if step > FADE_DONE - previous { FADE_DONE } else { previous + step };
        self.fade_progress = progress;
        if previous < FADE_HALF && progress >= FADE_HALF {
            self.layout_requested = true;
        }
        if progress >= FADE_DONE {
            self.finish_fade();
            false
        } else {
            true
        }
    }

    /// Takes the slide change not yet reported, leaving none.
    pub fn take_pending_change(&mut self) -> (r: Option<usize>)
        requires old(self).wf(),
        ensures
            final(self).wf(),
            r == old(self)@.pending,
            final(self)@ == (CarouselModel { pending: None, ..old(self)@ }),
    {
        let r = self.pending_change;
        self.pending_change = None;
        r
    }

    /// Takes the pending layout request, leaving none.
    pub fn take_layout_request(&mut self) -> (r: bool)
        requires old(self).wf(),
        ensures
            final(self).wf(),
            r == old(self)@.layout_requested,
            final(self)@ == (CarouselModel { layout_requested: false, ..old(self)@ }),
    {
        let r = self.layout_requested;
        self.layout_requested = false;
        r
    }

    /// Adopts the declared settings of the next build while keeping the slide
    /// state, hovering and focus; a fade continues only when both builds fade.
    pub fn sync_from(&mut self, next: Carousel)
        requires old(self).wf(), next.wf(),
        ensures
            final(self).wf(),
            final(self)@ == ({
                let m = old(self)@;
                let n = next@;
                let base = CarouselModel {
                    current: m.current,
                    child_count: m.child_count,
                    pending: m.pending,
                    layout_requested: m.layout_requested,
                    manually_paused: m.manually_paused,
                    hovered: m.hovered,
                    focused: m.focused,
                    ..n
                };
                if n.effect == CarouselEffect::Fade && m.effect == CarouselEffect::Fade {
                    CarouselModel { fade_from: m.fade_from, fade_progress: m.fade_progress, ..base }
                } else {
                    CarouselModel {
                        layout_requested: m.layout_requested || m.fade_from is Some,
                        fade_from: None,
                        fade_progress: FADE_DONE as int,
                        ..base
                    }
                }
            }),
    {
        let mut next = next;
        next.current = self.current;
        next.child_count = self.child_count;
        next.pending_change = self.pending_change;
        next.layout_requested = self.layout_requested;
        next.manually_paused = self.manually_paused;
        next.hovered = self.hovered;
        next.focused = self.focused;
        if next.effect == CarouselEffect::Fade && self.effect == CarouselEffect::Fade {
            next.fade_from = self.fade_from;
            next.fade_progress = self.fade_progress;
        } else {
            if self.fade_from.is_some() {
                next.layout_requested = true;
            }
            next.fade_from = None;
            next.fade_progress = FADE_DONE;
        }
        *self = next;
    }
}

/// Stepping forward then back (or back then forward) returns to the same slide.
pub proof fn lemma_next_previous_round_trip(m: CarouselModel)
    requires carousel_wf(m), m.child_count > 0,
    ensures
        spec_previous_index(CarouselModel { current: spec_next_index(m), ..m }) == m.current,
        spec_next_index(CarouselModel { current: spec_previous_index(m), ..m }) == m.current,
{
    let n = m.child_count;
    let c = m.current;
    if c + 1 < n {
        vstd::arithmetic::div_mod::lemma_fundamental_div_mod_converse(c + 1, n, 0, c + 1);
        vstd::arithmetic::div_mod::lemma_fundamental_div_mod_converse(c + 1 + n - 1, n, 1, c);
    } else {
        vstd::arithmetic::div_mod::lemma_fundamental_div_mod_converse(c + 1, n, 1, 0);
        vstd::arithmetic::div_mod::lemma_fundamental_div_mod_converse(n - 1, n, 0, c);
    }
    if c > 0 {
        vstd::arithmetic::div_mod::lemma_fundamental_div_mod_converse(c + n - 1, n, 1, c - 1);
        vstd::arithmetic::div_mod::lemma_fundamental_div_mod_converse(c, n, 0, c);
    } else {
        vstd::arithmetic::div_mod::lemma_fundamental_div_mod_converse(n - 1, n, 0, n - 1);
        vstd::arithmetic::div_mod::lemma_fundamental_div_mod_converse(n, n, 1, 0);
    }
}

/// The state after asking `k` times in a row for the next slide.
pub open spec fn advanced(m: CarouselModel, source: SelectionSource, k: nat) -> CarouselModel
    decreases k,
{
    if k == 0 {
        m
    } else {
        let prev = advanced(m, source, (k - 1) as nat);
        spec_select(prev, spec_next_index(prev), source)
    }
}

/// Asking `k` times for the next slide moves `k` slides on, wrapping around,
/// through existing slides only; after as many steps as there are slides the
/// starting slide is shown again.
pub proof fn lemma_next_cycles(m: CarouselModel, source: SelectionSource, k: nat)
    requires carousel_wf(m), m.child_count > 0,
    ensures
        carousel_wf(advanced(m, source, k)),
        advanced(m, source, k).child_count == m.child_count,
        advanced(m, source, k).current == (m.current + k) % m.child_count,
        k == m.child_count ==> advanced(m, source, k).current == m.current,
    decreases k,
{
    let n = m.child_count;
    if k == 0 {
        vstd::arithmetic::div_mod::lemma_fundamental_div_mod_converse(m.current, n, 0, m.current);
    } else {
        lemma_next_cycles(m, source, (k - 1) as nat);
        let prev = advanced(m, source, (k - 1) as nat);
        let r = prev.current;
        let q = (m.current + k - 1) / n;
        vstd::arithmetic::div_mod::lemma_fundamental_div_mod(m.current + k - 1, n);
        assert(m.current + k - 1 == q * n + r) by (nonlinear_arith)
            requires m.current + k - 1 == n * q + r;
        assert((q + 1) * n == q * n + n) by (nonlinear_arith);
        if r + 1 < n {
            vstd::arithmetic::div_mod::lemma_fundamental_div_mod_converse(r + 1, n, 0, r + 1);
            vstd::arithmetic::div_mod::lemma_fundamental_div_mod_converse(m.current + k, n, q, r + 1);
        } else {
            vstd::arithmetic::div_mod::lemma_fundamental_div_mod_converse(r + 1, n, 1, 0);
            vstd::arithmetic::div_mod::lemma_fundamental_div_mod_converse(m.current + k, n, q + 1, 0);
        }
        lemma_select_reports_change(prev, spec_next_index(prev), source);
    }
    if k == n {
        vstd::arithmetic::div_mod::lemma_fundamental_div_mod_converse(m.current + k, n, 1, m.current);
    }
}

/// Asking for the slide already shown changes nothing and reports nothing.
pub proof fn lemma_select_current_is_noop(m: CarouselModel, source: SelectionSource)
    requires carousel_wf(m),
    ensures spec_select(m, m.current, source) == m,
{
}

/// A selection that changes the slide is reported with the new index, and the
/// new index always names an existing slide.
pub proof fn lemma_select_reports_change(m: CarouselModel, index: int, source: SelectionSource)
    requires carousel_wf(m), m.child_count > 0, 0 <= index,
    ensures
        carousel_wf(spec_select(m, index, source)),
        spec_select(m, index, source).current != m.current
            ==> spec_select(m, index, source).pending == Some(spec_select(m, index, source).current as usize),
{
}

} // verus!
