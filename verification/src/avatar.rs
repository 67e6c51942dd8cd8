//! Avatar: a round or square picture or initials.

use vstd::prelude::*;

use crate::color::Color;
use crate::geometry::{Constraints, Size, clamp_dimension};
use crate::text::text_eq;

verus! {

/// Side length of an avatar when none is chosen.
pub const DEFAULT_AVATAR_SIZE: u32 = 32;

/// The state of an avatar as plain values.
pub struct AvatarModel {
    /// Text shown when there is no picture.
    pub text: Seq<char>,
    /// Side length.
    pub size: u32,
    /// Background colour, if chosen.
    pub bg_color: Option<Color>,
    /// Text colour, if chosen.
    pub text_color: Option<Color>,
    /// Rounded square instead of a circle.
    pub square: bool,
    /// Picture source; empty for none.
    pub src: Seq<char>,
    /// Handle of the decoded picture, once loaded.
    pub cached: Option<u64>,
}

/// A round or square picture or initials.
pub struct Avatar {
    text: String,
    size: u32,
    bg_color: Option<Color>,
    text_color: Option<Color>,
    square: bool,
    src: String,
    cached: Option<u64>,
}

impl View for Avatar {
    type V = AvatarModel;

    closed spec fn view(&self) -> AvatarModel {
        AvatarModel {
            text: self.text@,
            size: self.size,
            bg_color: self.bg_color,
            text_color: self.text_color,
            square: self.square,
            src: self.src@,
            cached: self.cached,
        }
    }
}

impl Avatar {
    /// Creates a round avatar of side 32 showing `text`.
    pub fn new(text: &str) -> (a: Avatar)
        ensures
            a@ == (AvatarModel {
                text: text@,
                size: DEFAULT_AVATAR_SIZE,
                bg_color: None,
                text_color: None,
                square: false,
                src: Seq::empty(),
                cached: None,
            }),
    {
        Avatar {
            text: text.to_owned(),
            size: DEFAULT_AVATAR_SIZE,
            bg_color: None,
            text_color: None,
            square: false,
            src: String::new(),
            cached: None,
        }
    }

    /// Sets the side length; zero restores the default of 32.
    pub fn size(self, s: u32) -> (a: Avatar)
        ensures a@ == (AvatarModel { size: if s > 0 { s } else { DEFAULT_AVATAR_SIZE }, ..self@ }),
    {
        let mut a = self;
        a.size = if s > 0 { s } else { DEFAULT_AVATAR_SIZE };
        a
    }

    /// Sets the background colour.
    pub fn bg(self, c: Color) -> (a: Avatar)
        ensures a@ == (AvatarModel { bg_color: Some(c), ..self@ }),
    {
        let mut a = self;
        a.bg_color = Some(c);
        a
    }

    /// Sets the text colour.
    pub fn text_color(self, c: Color) -> (a: Avatar)
        ensures a@ == (AvatarModel { text_color: Some(c), ..self@ }),
    {
        let mut a = self;
        a.text_color = Some(c);
        a
    }

    /// Chooses a rounded square over a circle.
    pub fn square(self, v: bool) -> (a: Avatar)
        ensures a@ == (AvatarModel { square: v, ..self@ }),
    {
        let mut a = self;
        a.square = v;
        a
    }

    /// Sets the picture source and forgets any loaded picture.
    pub fn src(self, s: &str) -> (a: Avatar)
        ensures a@ == (AvatarModel { src: s@, cached: None, ..self@ }),
    {
        let mut a = self;
        a.src = s.to_owned();
        a.cached = None;
        a
    }

    /// Records the handle of the picture loaded for the current source.
    pub fn set_cached(&mut self, handle: Option<u64>)
        ensures final(self)@ == (AvatarModel { cached: handle, ..old(self)@ }),
    {
        self.cached = handle;
    }

    /// Handle of the loaded picture, if any.
    pub fn cached(&self) -> (r: Option<u64>)
        ensures r == self@.cached,
    {
        self.cached
    }

    /// Size the avatar asks for: a square of its side length.
    pub fn intrinsic_size(&self) -> (s: Size)
        ensures s.w == self@.size, s.h == self@.size,
    {
        Size { w: self.size, h: self.size }
    }

    /// Size within `constraints`: the intrinsic size clamped into range.
    pub fn measure(&self, constraints: Constraints) -> (s: Size)
        ensures
            s.w == clamp_dimension(self@.size as int, constraints.min.w as int, constraints.max.w as int),
            s.h == clamp_dimension(self@.size as int, constraints.min.h as int, constraints.max.h as int),
    {
        constraints.clamp(self.intrinsic_size())
    }

    /// Takes over the settings of `next`; the loaded picture is kept only when
    /// the source stays the same.
    pub fn sync_from(&mut self, next: Avatar)
        ensures
            final(self)@ == (AvatarModel {
                cached: if next@.src == old(self)@.src { old(self)@.cached } else { None },
                ..next@
            }),
    {
        self.text = next.text;
        self.size = next.size;
        self.bg_color = next.bg_color;
        self.text_color = next.text_color;
        self.square = next.square;
        if !text_eq(self.src.as_str(), next.src.as_str()) {
            self.src = next.src;
            self.cached = None;
        }
    }
}

} // verus!
