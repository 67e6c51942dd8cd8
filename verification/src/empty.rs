//! Empty state shown where there is no data.

use vstd::prelude::*;

use crate::geometry::{Constraints, Size, clamp_dimension};
use crate::text::text_eq;

verus! {

/// Width an empty state asks for.
pub const EMPTY_WIDTH: u32 = 160;
/// Height an empty state asks for.
pub const EMPTY_HEIGHT: u32 = 100;

/// The settings of an empty state as plain values.
pub struct EmptyModel {
    /// Text under the picture; blank means the locale's default text.
    pub description: Seq<char>,
    /// Name of the icon shown when no image preset is chosen.
    pub icon_name: Seq<char>,
    /// Name of an image preset; takes precedence over the icon.
    pub image: Seq<char>,
}

/// Icon shown for an image preset: the named presets map to their icons,
/// `network` to `globe`, and every other name to `package`.
pub open spec fn preset_icon(image: Seq<char>) -> Seq<char> {
    if image == "search"@ {
        "search"@
    } else if image == "file"@ {
        "file"@
    } else if image == "folder"@ {
        "folder"@
    } else if image == "network"@ {
        "globe"@
    } else {
        "package"@
    }
}

/// Icon an empty state shows: the preset's icon when an image is set, else the
/// chosen icon, else none.
pub open spec fn spec_visual_icon(m: EmptyModel) -> Option<Seq<char>> {
    if m.image.len() > 0 {
        Some(preset_icon(m.image))
    } else if m.icon_name.len() == 0 {
        None
    } else {
        Some(m.icon_name)
    }
}

/// Placeholder shown where there is no data.
pub struct Empty {
    description: String,
    icon_name: String,
    image: String,
}

impl View for Empty {
    type V = EmptyModel;

    closed spec fn view(&self) -> EmptyModel {
        EmptyModel { description: self.description@, icon_name: self.icon_name@, image: self.image@ }
    }
}

impl Empty {
    /// Creates an empty state with no description, icon or image.
    pub fn new() -> (e: Empty)
        ensures e@ == (EmptyModel { description: Seq::empty(), icon_name: Seq::empty(), image: Seq::empty() }),
    {
        Empty { description: String::new(), icon_name: String::new(), image: String::new() }
    }

    /// Sets the description.
    pub fn description(self, d: &str) -> (e: Empty)
        ensures e@ == (EmptyModel { description: d@, ..self@ }),
    {
        let mut e = self;
        e.description = d.to_owned();
        e
    }

    /// Sets the icon name.
    pub fn icon(self, name: &str) -> (e: Empty)
        ensures e@ == (EmptyModel { icon_name: name@, ..self@ }),
    {
        let mut e = self;
        e.icon_name = name.to_owned();
        e
    }

    /// Sets the image preset.
    pub fn image(self, name: &str) -> (e: Empty)
        ensures e@ == (EmptyModel { image: name@, ..self@ }),
    {
        let mut e = self;
        e.image = name.to_owned();
        e
    }

    /// Icon the empty state shows.
    pub fn visual_icon_name(&self) -> (r: Option<&str>)
        ensures
            match r {
                Some(t) => spec_visual_icon(self@) == Some(t@),
                None => spec_visual_icon(self@) is None,
            },
    {
        let image = self.image.as_str();
        if !image.is_empty() {
            let icon = if text_eq(image, "search") {
                "search"
            } else if text_eq(image, "file") {
                "file"
            } else if text_eq(image, "folder") {
                "folder"
            } else if text_eq(image, "network") {
                "globe"
            } else {
                "package"
            };
            Some(icon)
        } else if self.icon_name.as_str().is_empty() {
            None
        } else {
            Some(self.icon_name.as_str())
        }
    }

    /// Size the empty state asks for.
    pub fn intrinsic_size(&self) -> (s: Size)
        ensures s.w == EMPTY_WIDTH, s.h == EMPTY_HEIGHT,
    {
        Size { w: EMPTY_WIDTH, h: EMPTY_HEIGHT }
    }

    /// Size within `constraints`: the intrinsic size clamped into range.
    pub fn measure(&self, constraints: Constraints) -> (s: Size)
        ensures
            s.w == clamp_dimension(EMPTY_WIDTH as int, constraints.min.w as int, constraints.max.w as int),
            s.h == clamp_dimension(EMPTY_HEIGHT as int, constraints.min.h as int, constraints.max.h as int),
    {
        constraints.clamp(self.intrinsic_size())
    }

    /// Takes over every setting of `next`.
    pub fn sync_from(&mut self, next: Empty)
        ensures final(self)@ == next@,
    {
        self.description = next.description;
        self.icon_name = next.icon_name;
        self.image = next.image;
    }
}

} // verus!
