//! Badge: a count, dot, text or status marker over other content.

use vstd::prelude::*;

use crate::color::Color;
use crate::geometry::{clamp_dimension, saturate, Constraints, Size};
use crate::text::{decimal, push_char, push_decimal};

verus! {

/// Status marker styles.
#[derive(Debug, Clone, Copy, PartialEq, Eq, Structural)]
pub enum BadgeStatus {
    /// Success.
    Success,
    /// Work in progress.
    Processing,
    /// Neutral.
    Default,
    /// Error.
    Error,
    /// Warning.
    Warning,
}

/// Preset badge colors.
#[derive(Debug, Clone, Copy, PartialEq, Eq, Structural)]
pub enum BadgeColor {
    /// Blue, #1677ff.
    Blue,
    /// Green, #52c41a.
    Green,
    /// Orange, #fa8c16.
    Orange,
    /// Red, #f5222d.
    Red,
    /// Purple, #722ed1.
    Purple,
}

/// The color of a preset.
pub open spec fn preset_rgb(c: BadgeColor) -> Color {
    match c {
        BadgeColor::Blue => Color { r: 0x16, g: 0x77, b: 0xff, a: 255 },
        BadgeColor::Green => Color { r: 0x52, g: 0xc4, b: 0x1a, a: 255 },
        BadgeColor::Orange => Color { r: 0xfa, g: 0x8c, b: 0x16, a: 255 },
        BadgeColor::Red => Color { r: 0xf5, g: 0x22, b: 0x2d, a: 255 },
        BadgeColor::Purple => Color { r: 0x72, g: 0x2e, b: 0xd1, a: 255 },
    }
}

impl BadgeColor {
    /// The opaque color of this preset.
    pub fn to_color(self) -> (c: Color)
        ensures c == preset_rgb(self),
    {
        match self {
            BadgeColor::Blue => Color::from_rgb(0x16, 0x77, 0xff),
            BadgeColor::Green => Color::from_rgb(0x52, 0xc4, 0x1a),
            BadgeColor::Orange => Color::from_rgb(0xfa, 0x8c, 0x16),
            BadgeColor::Red => Color::from_rgb(0xf5, 0x22, 0x2d),
            BadgeColor::Purple => Color::from_rgb(0x72, 0x2e, 0xd1),
        }
    }

    /// The preset whose color is exactly `color`, trying blue, green, orange,
    /// red and purple in that order.
    pub fn from_compat_color(color: Color) -> (r: Option<BadgeColor>)
        ensures
            match r {
                Some(p) => preset_rgb(p) == color,
                None => forall|p: BadgeColor| preset_rgb(p) != color,
            },
    {
        if BadgeColor::Blue.to_color() == color {
            Some(BadgeColor::Blue)
        } else if BadgeColor::Green.to_color() == color {
            Some(BadgeColor::Green)
        } else if BadgeColor::Orange.to_color() == color {
            Some(BadgeColor::Orange)
        } else if BadgeColor::Red.to_color() == color {
            Some(BadgeColor::Red)
        } else if BadgeColor::Purple.to_color() == color {
            Some(BadgeColor::Purple)
        } else {
            proof {
                assert forall|p: BadgeColor| preset_rgb(p) != color by {
                    match p {
                        BadgeColor::Blue => {},
                        BadgeColor::Green => {},
                        BadgeColor::Orange => {},
                        BadgeColor::Red => {},
                        BadgeColor::Purple => {},
                    }
                }
            }
            None
        }
    }
}

/// A value a badge color can be given as: a color, or a preset whose text
/// color adapts to the background.
pub trait IntoBadgeColor: Sized {
    /// The color and whether the foreground adapts to it.
    spec fn badge_color(&self) -> (Color, bool);

    /// Converts into a color and the adaptive-foreground flag.
    fn into_badge_color(self) -> (r: (Color, bool))
        ensures r == self.badge_color();
}

impl IntoBadgeColor for Color {
    open spec fn badge_color(&self) -> (Color, bool) {
        (*self, false)
    }

    fn into_badge_color(self) -> (r: (Color, bool)) {
        (self, false)
    }
}

impl IntoBadgeColor for BadgeColor {
    open spec fn badge_color(&self) -> (Color, bool) {
        (preset_rgb(*self), true)
    }

    fn into_badge_color(self) -> (r: (Color, bool)) {
        (self.to_color(), true)
    }
}

/// What a badge draws.
#[derive(Debug, Clone, Copy, PartialEq, Eq, Structural)]
pub enum BadgeContent {
    /// A status dot with optional text.
    StatusMarker(BadgeStatus),
    /// A corner ribbon with the text.
    Ribbon,
    /// A plain dot with optional text.
    DotMarker,
    /// Nothing.
    Hidden,
    /// A pill with the text.
    TextPill,
    /// A pill with the count label.
    CountPill,
}

/// The state of a badge as plain values.
pub struct BadgeModel {
    /// Count shown in the pill.
    pub count: int,
    /// Largest count shown before "+".
    pub max: int,
    /// Shows a dot instead of a count.
    pub dot: bool,
    /// Background color, if chosen.
    pub color: Option<Color>,
    /// Foreground adapts to a preset background.
    pub adaptive_foreground: bool,
    /// Drawn as a ribbon.
    pub ribbon: bool,
    /// Status marker, if any.
    pub status: Option<BadgeStatus>,
    /// A zero count is still shown.
    pub show_zero: bool,
    /// Text shown instead of the count.
    pub text: Seq<char>,
    /// Decorates a child view instead of standing alone.
    pub composite: bool,
}

/// A count, dot, status marker or ribbon attached to content.
pub struct Badge {
    count: i32,
    max: i32,
    dot: bool,
    color: Option<Color>,
    adaptive_foreground: bool,
    ribbon: bool,
    status: Option<BadgeStatus>,
    show_zero: bool,
    text: String,
    composite: bool,
}

impl View for Badge {
    type V = BadgeModel;

    closed spec fn view(&self) -> BadgeModel {
        BadgeModel {
            count: self.count as int,
            max: self.max as int,
            dot: self.dot,
            color: self.color,
            adaptive_foreground: self.adaptive_foreground,
            ribbon: self.ribbon,
            status: self.status,
            show_zero: self.show_zero,
            text: self.text@,
            composite: self.composite,
        }
    }
}

/// The label of the count pill: the count capped at `max`, then "+" when capped.
pub open spec fn spec_count_label(m: BadgeModel) -> Seq<char> {
    let shown = if m.count < m.max { m.count } else { m.max };
    decimal(shown as nat) + if m.count > m.max { seq!['+'] } else { Seq::empty() }
}

/// What a badge draws, in order of precedence.
pub open spec fn spec_visible_content(m: BadgeModel) -> BadgeContent {
    match m.status {
        Some(s) => BadgeContent::StatusMarker(s),
        None => if m.ribbon {
            BadgeContent::Ribbon
        } else if m.dot {
            BadgeContent::DotMarker
        } else if m.count == 0 && !m.show_zero && m.text.len() == 0 {
            BadgeContent::Hidden
        } else if m.text.len() > 0 {
            BadgeContent::TextPill
        } else {
            BadgeContent::CountPill
        },
    }
}

impl Badge {
    /// Well-formed badge: a count of at least zero and a cap of at least one.
    pub open spec fn wf(&self) -> bool {
        self@.count >= 0 && self@.max >= 1
    }

    /// Creates a hidden badge with count 0 and cap 99.
    pub fn new() -> (b: Badge)
        ensures
            b.wf(),
            b@ == (BadgeModel {
                count: 0,
                max: 99,
                dot: false,
                color: None,
                adaptive_foreground: false,
                ribbon: false,
                status: None,
                show_zero: false,
                text: Seq::empty(),
                composite: false,
            }),
    {
        Badge {
            count: 0,
            max: 99,
            dot: false,
            color: None,
            adaptive_foreground: false,
            ribbon: false,
            status: None,
            show_zero: false,
            text: String::new(),
            composite: false,
        }
    }

    /// Sets the count; negative counts become zero.
    pub fn count(self, n: i32) -> (b: Badge)
        requires self.wf(),
        ensures b.wf(), b@ == (BadgeModel { count: if n < 0 { 0 } else { n as int }, ..self@ }),
    {
        let mut b = self;
        b.count = if n < 0 { 0 } else { n };
        b
    }

    /// Sets the cap; caps below one become one.
    pub fn max(self, n: i32) -> (b: Badge)
        requires self.wf(),
        ensures b.wf(), b@ == (BadgeModel { max: if n < 1 { 1 } else { n as int }, ..self@ }),
    {
        let mut b = self;
        b.max = if n < 1 { 1 } else { n };
        b
    }

    /// Shows a dot, counting one.
    pub fn dot(self) -> (b: Badge)
        requires self.wf(),
        ensures b.wf(), b@ == (BadgeModel { dot: true, count: 1, ..self@ }),
    {
        let mut b = self;
        b.dot = true;
        b.count = 1;
        b
    }

    /// Shows or hides the dot without touching the count.
    pub fn dot_when(self, enabled: bool) -> (b: Badge)
        requires self.wf(),
        ensures b.wf(), b@ == (BadgeModel { dot: enabled, ..self@ }),
    {
        let mut b = self;
        b.dot = enabled;
        b
    }

    /// Sets the background from a color or a preset.
    pub fn color<C: IntoBadgeColor>(self, c: C) -> (b: Badge)
        requires self.wf(),
        ensures
            b.wf(),
            b@ == (BadgeModel {
                color: Some(c.badge_color().0),
                adaptive_foreground: c.badge_color().1,
                ..self@
            }),
    {
        let (color, adaptive) = c.into_badge_color();
        let mut b = self;
        b.color = Some(color);
        b.adaptive_foreground = adaptive;
        b
    }

    /// Sets the background to a preset.
    pub fn preset_color(self, c: BadgeColor) -> (b: Badge)
        requires self.wf(),
        ensures
            b.wf(),
            b@ == (BadgeModel { color: Some(preset_rgb(c)), adaptive_foreground: true, ..self@ }),
    {
        self.color(c)
    }

    /// Creates a corner ribbon with `text` on a preset background.
    pub fn ribbon(text: &str, color: BadgeColor) -> (b: Badge)
        ensures
            b.wf(),
            b@ == (BadgeModel {
                count: 0,
                max: 99,
                dot: false,
                color: Some(preset_rgb(color)),
                adaptive_foreground: true,
                ribbon: true,
                status: None,
                show_zero: false,
                text: text@,
                composite: false,
            }),
    {
        let mut b = Badge::new().color(color).text(text);
        b.ribbon = true;
        b
    }

    /// Shows a status marker.
    pub fn status(self, s: BadgeStatus) -> (b: Badge)
        requires self.wf(),
        ensures b.wf(), b@ == (BadgeModel { status: Some(s), ..self@ }),
    {
        let mut b = self;
        b.status = Some(s);
        b
    }

    /// Shows the pill even for a zero count.
    pub fn show_zero(self, v: bool) -> (b: Badge)
        requires self.wf(),
        ensures b.wf(), b@ == (BadgeModel { show_zero: v, ..self@ }),
    {
        let mut b = self;
        b.show_zero = v;
        b
    }

    /// Sets the text shown instead of the count.
    pub fn text(self, t: &str) -> (b: Badge)
        requires self.wf(),
        ensures b.wf(), b@ == (BadgeModel { text: t@, ..self@ }),
    {
        let mut b = self;
        b.text = t.to_owned();
        b
    }

    /// Adopts the next build, normalizing its count and cap.
    pub fn sync_from(&mut self, next: Badge)
        ensures
            final(self).wf(),
            final(self)@ == (BadgeModel {
                count: if next@.count < 0 { 0 } else { next@.count },
                max: if next@.max < 1 { 1 } else { next@.max },
                ..next@
            }),
    {
        let mut next = next;
        next.count = if next.count < 0 { 0 } else { next.count };
        next.max = if next.max < 1 { 1 } else { next.max };
        *self = next;
    }

    /// The label of the count pill, such as "5" or "99+".
    pub fn count_label(&self) -> (r: String)
        requires self.wf(),
        ensures r@ == spec_count_label(self@),
    {
        let shown = if self.count < self.max { self.count } else { self.max };
        let mut r = String::new();
        push_decimal(&mut r, shown as u128);
        if self.count > self.max {
            push_char(&mut r, '+');
        }
        proof {
            if self.count > self.max {
                assert(r@ == decimal(shown as nat) + seq!['+']);
            } else {
                assert(r@ == decimal(shown as nat) + Seq::<char>::empty());
            }
        }
        r
    }

    /// What the badge draws.
    pub fn visible_content(&self) -> (r: BadgeContent)
        ensures
            r == spec_visible_content(self@),
            self@.status is None && !self@.ribbon && !self@.dot && self@.text.len() > 0
                ==> r == BadgeContent::TextPill,
            self@.status is None && !self@.ribbon && !self@.dot && self@.text.len() == 0
                ==> r == if self@.count == 0 && !self@.show_zero { BadgeContent::Hidden } else { BadgeContent::CountPill },
    {
        match self.status {
            Some(s) => BadgeContent::StatusMarker(s),
            None => {
                if self.ribbon {
                    BadgeContent::Ribbon
                } else if self.dot {
                    BadgeContent::DotMarker
                } else if self.count == 0 && !self.show_zero && self.text.as_str().is_empty() {
                    BadgeContent::Hidden
                } else if !self.text.as_str().is_empty() {
                    BadgeContent::TextPill
                } else {
                    BadgeContent::CountPill
                }
            },
        }
    }

    /// The background color, if chosen.
    pub fn background(&self) -> (r: Option<Color>)
        ensures r == self@.color,
    {
        self.color
    }

    /// Whether the foreground adapts to a preset background.
    pub fn adaptive_foreground(&self) -> (r: bool)
        ensures r == self@.adaptive_foreground,
    {
        self.adaptive_foreground
    }
}

/// Side of a dot or status marker.
pub const MARKER_DIAMETER: u32 = 10;
/// Gap between a marker and its label.
pub const MARKER_TEXT_GAP: u32 = 8;
/// Height of a pill.
pub const PILL_HEIGHT: u32 = 20;
/// Font size of pill and ribbon labels.
pub const PILL_FONT_SIZE: u32 = 11;
/// Font size of the label beside a marker.
pub const MARKER_LABEL_FONT_SIZE: u32 = 13;
/// Horizontal padding around a pill label, both sides together.
pub const TEXT_HORIZONTAL_PADDING: u32 = 12;
/// Height of a ribbon.
pub const RIBBON_HEIGHT: u32 = 24;
/// Horizontal padding around a ribbon label, both sides together.
pub const RIBBON_HORIZONTAL_PADDING: u32 = 24;

/// The label whose width sizes the badge, with its font size: the text beside
/// a dot or status marker, the ribbon or pill text, or the count label of a
/// shown count; none for a bare marker or a hidden badge.
pub open spec fn spec_sizing_label(m: BadgeModel) -> Option<(Seq<char>, int)> {
    if m.dot || m.status is Some {
        if m.text.len() == 0 { None } else { Some((m.text, MARKER_LABEL_FONT_SIZE as int)) }
    } else if m.ribbon || m.text.len() > 0 {
        Some((m.text, PILL_FONT_SIZE as int))
    } else if m.count > 0 || (m.count == 0 && m.show_zero) {
        Some((spec_count_label(m), PILL_FONT_SIZE as int))
    } else {
        None
    }
}

/// Size a badge asks for, given the measured width of its sizing label.
pub open spec fn spec_badge_intrinsic(m: BadgeModel, label_width: int) -> (int, int) {
    if m.dot || m.status is Some {
        if m.text.len() == 0 {
            (MARKER_DIAMETER as int, MARKER_DIAMETER as int)
        } else {
            (saturate(MARKER_DIAMETER + MARKER_TEXT_GAP + label_width), PILL_HEIGHT as int)
        }
    } else if m.ribbon {
        let w = saturate(label_width + RIBBON_HORIZONTAL_PADDING);
        (if w < RIBBON_HEIGHT { RIBBON_HEIGHT as int } else { w }, RIBBON_HEIGHT as int)
    } else if m.text.len() > 0 || m.count > 0 || (m.count == 0 && m.show_zero) {
        let w = saturate(label_width + TEXT_HORIZONTAL_PADDING);
        (if w < PILL_HEIGHT { PILL_HEIGHT as int } else { w }, PILL_HEIGHT as int)
    } else {
        (0, 0)
    }
}

impl Badge {
    /// Makes the badge decorate a child view: it then takes the child's size.
    pub fn child(self) -> (b: Badge)
        requires self.wf(),
        ensures b.wf(), b@ == (BadgeModel { composite: true, ..self@ }),
    {
        let mut b = self;
        b.composite = true;
        b
    }

    /// Size within `constraints`: the measured outer size of the child when
    /// the badge decorates one, else its own size for a sizing label
    /// `label_width` wide, clamped into range.
    pub fn measure(&self, constraints: Constraints, label_width: u32, child_size: Size) -> (s: Size)
        ensures
            s.w == clamp_dimension(
                if self@.composite { child_size.w as int } else { spec_badge_intrinsic(self@, label_width as int).0 },
                constraints.min.w as int, constraints.max.w as int),
            s.h == clamp_dimension(
                if self@.composite { child_size.h as int } else { spec_badge_intrinsic(self@, label_width as int).1 },
                constraints.min.h as int, constraints.max.h as int),
    {
        let desired = if self.composite { child_size } else { self.intrinsic_size(label_width) };
        constraints.clamp(desired)
    }

    /// The label a caller measures to size the badge, with its font size.
    pub fn sizing_label(&self) -> (r: Option<(String, u32)>)
        requires self.wf(),
        ensures
            match (r, spec_sizing_label(self@)) {
                (Some((t, f)), Some((st, sf))) => t@ == st && f == sf,
                (None, None) => true,
                _ => false,
            },
    {
        if self.dot || self.status.is_some() {
            if self.text.as_str().is_empty() {
                None
            } else {
                Some((self.text.clone(), MARKER_LABEL_FONT_SIZE))
            }
        } else if self.ribbon || !self.text.as_str().is_empty() {
            Some((self.text.clone(), PILL_FONT_SIZE))
        } else if self.count > 0 || (self.count == 0 && self.show_zero) {
            Some((self.count_label(), PILL_FONT_SIZE))
        } else {
            None
        }
    }

    /// Size the badge asks for; `label_width` is the measured width of its
    /// sizing label (zero when it has none). A bare marker is 10 by 10, a
    /// marker with a label and a pill are 20 high, a ribbon is 24 high, and a
    /// hidden badge takes no room.
    pub fn intrinsic_size(&self, label_width: u32) -> (s: Size)
        ensures
            s.w == spec_badge_intrinsic(self@, label_width as int).0,
            s.h == spec_badge_intrinsic(self@, label_width as int).1,
    {
        let lw = label_width as u64;
        if self.dot || self.status.is_some() {
            if self.text.as_str().is_empty() {
                Size { w: MARKER_DIAMETER, h: MARKER_DIAMETER }
            } else {
                let w = (MARKER_DIAMETER + MARKER_TEXT_GAP) as u64 + lw;
                Size { w: if w > u32::MAX as u64 { u32::MAX } else { w as u32 }, h: PILL_HEIGHT }
            }
        } else if self.ribbon {
            let w = lw + RIBBON_HORIZONTAL_PADDING as u64;
            let w: u32 = if w > u32::MAX as u64 { u32::MAX } else { w as u32 };
            Size { w: if w < RIBBON_HEIGHT { RIBBON_HEIGHT } else { w }, h: RIBBON_HEIGHT }
        } else if !self.text.as_str().is_empty() || self.count > 0 || (self.count == 0 && self.show_zero) {
            let w = lw + TEXT_HORIZONTAL_PADDING as u64;
            let w: u32 = if w > u32::MAX as u64 { u32::MAX } else { w as u32 };
            Size { w: if w < PILL_HEIGHT { PILL_HEIGHT } else { w }, h: PILL_HEIGHT }
        } else {
            Size { w: 0, h: 0 }
        }
    }
}

/// A status marker, a ribbon and a dot draw as such; otherwise a badge with
/// text draws its text pill whatever its count, and a badge without text draws
/// its count pill unless the count is zero and zero is not shown.
pub proof fn lemma_visible_content_precedence(m: BadgeModel)
    ensures
        m.status matches Some(s) ==> spec_visible_content(m) == BadgeContent::StatusMarker(s),
        m.status is None && m.ribbon ==> spec_visible_content(m) == BadgeContent::Ribbon,
        m.status is None && !m.ribbon && m.dot ==> spec_visible_content(m) == BadgeContent::DotMarker,
        m.status is None && !m.ribbon && !m.dot && m.text.len() > 0
            ==> spec_visible_content(m) == BadgeContent::TextPill,
        m.status is None && !m.ribbon && !m.dot && m.text.len() == 0 && (m.count != 0 || m.show_zero)
            ==> spec_visible_content(m) == BadgeContent::CountPill,
        m.status is None && !m.ribbon && !m.dot && m.text.len() == 0 && m.count == 0 && !m.show_zero
            ==> spec_visible_content(m) == BadgeContent::Hidden,
{
}

/// A bare dot or status marker is a 10 by 10 square; with a label beside it
/// the badge is 20 high and 18 plus the label wide; a pill is 20 high and a
/// ribbon 24 high, each at least as wide as high; a wider label never makes
/// the badge narrower; a hidden badge takes no room.
pub proof fn lemma_badge_size_shape(m: BadgeModel, w1: int, w2: int)
    requires 0 <= w1 <= w2 <= u32::MAX,
    ensures
        (m.dot || m.status is Some) && m.text.len() == 0
            ==> spec_badge_intrinsic(m, w1) == (10int, 10int),
        (m.dot || m.status is Some) && m.text.len() > 0
            ==> spec_badge_intrinsic(m, w1).1 == 20 && spec_badge_intrinsic(m, w1).0
                == if 18 + w1 > u32::MAX { u32::MAX as int } else { 18 + w1 },
        !m.dot && m.status is None && m.ribbon
            ==> spec_badge_intrinsic(m, w1).1 == 24 && spec_badge_intrinsic(m, w1).0 >= 24,
        !m.dot && m.status is None && !m.ribbon && (m.text.len() > 0 || m.count > 0 || (m.count == 0 && m.show_zero))
            ==> spec_badge_intrinsic(m, w1).1 == 20 && spec_badge_intrinsic(m, w1).0 >= 20,
        !m.dot && m.status is None && !m.ribbon && m.text.len() == 0 && m.count == 0 && !m.show_zero
            ==> spec_badge_intrinsic(m, w1) == (0int, 0int),
        spec_badge_intrinsic(m, w1).0 <= spec_badge_intrinsic(m, w2).0,
        spec_badge_intrinsic(m, w1).1 == spec_badge_intrinsic(m, w2).1,
{
}

/// The count label never shows more than the cap, and ends in "+" exactly
/// when the count exceeds the cap.
pub proof fn lemma_count_label_capped(m: BadgeModel)
    requires m.count >= 0, m.max >= 1,
    ensures
        spec_count_label(m) == decimal((if m.count < m.max { m.count } else { m.max }) as nat)
            + if m.count > m.max { seq!['+'] } else { Seq::<char>::empty() },
        (if m.count < m.max { m.count } else { m.max }) <= m.max,
        (spec_count_label(m).last() == '+') == (m.count > m.max),
{
    let shown = if m.count < m.max { m.count } else { m.max };
    lemma_decimal_has_no_plus(shown as nat);
    if m.count > m.max {
        assert(spec_count_label(m).last() == '+');
    } else {
        assert(spec_count_label(m) == decimal(shown as nat));
        assert(decimal(shown as nat).len() > 0);
        assert(decimal(shown as nat).contains(decimal(shown as nat).last()));
    }
}

/// Decimal notation holds digits only, so never "+".
pub proof fn lemma_decimal_has_no_plus(n: nat)
    ensures
        decimal(n).len() > 0,
        !decimal(n).contains('+'),
    decreases n,
{
    if n >= 10 {
        lemma_decimal_has_no_plus(n / 10);
        let prev = decimal(n / 10);
        let d = crate::text::digit_char((n % 10) as int);
        assert(decimal(n) == prev.push(d));
        assert(d != '+');
        if decimal(n).contains('+') {
            let k = choose|k: int| 0 <= k < decimal(n).len() && #[trigger] decimal(n)[k] == '+';
            if k < prev.len() {
                assert(prev[k] == '+');
            }
        }
    } else {
        assert(decimal(n) == seq![crate::text::digit_char(n as int)]);
    }
}

} // verus!
