use vstd::prelude::*;

pub mod dark;
pub mod light;

verus! {

/// Which palette the editor draws with.
#[derive(Debug, Clone, Copy, PartialEq, Eq, Structural)]
pub enum Theme {
    Dark,
    Light,
}

impl Theme {
    /// Switches between the two palettes.
    pub fn swap(&mut self)
        ensures
            *old(self) == Theme::Dark ==> *final(self) == Theme::Light,
            *old(self) == Theme::Light ==> *final(self) == Theme::Dark,
    {
        match self {
            Theme::Dark => *self = Theme::Light,
            Theme::Light => *self = Theme::Dark,
        }
    }

    /// The palette's name as shown to the user.
    pub fn name(&self) -> (r: &'static str)
        ensures
            *self == Theme::Dark ==> r@ == "Dark"@,
            *self == Theme::Light ==> r@ == "Light"@,
    {
        match self {
            Theme::Dark => "Dark",
            Theme::Light => "Light",
        }
    }
}

impl Default for Theme {
    fn default() -> (r: Theme)
        ensures
            r == Theme::Light,
    {
        Theme::Light
    }
}

/// How the controls and the preview are arranged.
#[derive(Debug, Clone, Copy, PartialEq, Eq, Structural)]
pub enum Layout {
    /// Controls beside the preview.
    Columns,
    /// Preview above the controls.
    Rows,
}

impl Layout {
    /// Switches between the two arrangements.
    pub fn swap(&mut self)
        ensures
            *old(self) == Layout::Columns ==> *final(self) == Layout::Rows,
            *old(self) == Layout::Rows ==> *final(self) == Layout::Columns,
    {
        match self {
            Layout::Columns => *self = Layout::Rows,
            Layout::Rows => *self = Layout::Columns,
        }
    }
}

/// Full intensity of a colour channel.
pub const FULL: u16 = 5100;

/// A colour whose channels count in steps of 1/5100 of full intensity, so that
/// both 8-bit values and twentieths are exact.
#[derive(Debug, Clone, Copy, PartialEq, Eq, Structural)]
pub struct Rgba {
    pub r: u16,
    pub g: u16,
    pub b: u16,
    pub a: u16,
}

/// The opaque colour with the given 8-bit channels.
pub open spec fn rgb8(r: u8, g: u8, b: u8) -> Rgba {
    Rgba { r: (20 * r) as u16, g: (20 * g) as u16, b: (20 * b) as u16, a: 5100 }
}

/// `c` with its alpha replaced.
pub open spec fn with_alpha(c: Rgba, a: u16) -> Rgba {
    Rgba { r: c.r, g: c.g, b: c.b, a }
}

/// An opaque grey whose channels are all `v`.
pub open spec fn grey(v: u16) -> Rgba {
    Rgba { r: v, g: v, b: v, a: 5100 }
}

/// Opaque white.
pub open spec fn white() -> Rgba {
    Rgba { r: 5100, g: 5100, b: 5100, a: 5100 }
}

/// Fully transparent black.
pub open spec fn transparent() -> Rgba {
    Rgba { r: 0, g: 0, b: 0, a: 0 }
}

impl Rgba {
    /// The opaque colour with the given 8-bit channels.
    pub fn from_rgb8(r: u8, g: u8, b: u8) -> (c: Rgba)
        ensures
            c == rgb8(r, g, b),
    {
        Rgba { r: 20 * r as u16, g: 20 * g as u16, b: 20 * b as u16, a: FULL }
    }

    /// This colour with its alpha replaced.
    pub fn faded(self, a: u16) -> (c: Rgba)
        ensures
            c == with_alpha(self, a),
    {
        Rgba { a, ..self }
    }

    /// An opaque grey whose channels are all `v`.
    pub fn grey(v: u16) -> (c: Rgba)
        ensures
            c == grey(v),
    {
        Rgba { r: v, g: v, b: v, a: FULL }
    }

    /// Opaque white.
    pub fn white() -> (c: Rgba)
        ensures
            c == white(),
    {
        Rgba { r: FULL, g: FULL, b: FULL, a: FULL }
    }

    /// Fully transparent black.
    pub fn transparent() -> (c: Rgba)
        ensures
            c == transparent(),
    {
        Rgba { r: 0, g: 0, b: 0, a: 0 }
    }
}

/// How a button is drawn. Lengths are in tenths of a logical pixel.
#[derive(Debug, Clone, Copy, PartialEq, Eq)]
pub struct ButtonStyle {
    pub shadow_offset: (i16, i16),
    pub background: Option<Rgba>,
    pub border_radius: u16,
    pub border_width: u16,
    pub border_color: Rgba,
    pub text_color: Rgba,
}

/// How the open menu of a pick list is drawn.
#[derive(Debug, Clone, Copy, PartialEq, Eq)]
pub struct MenuStyle {
    pub text_color: Rgba,
    pub background: Rgba,
    pub border_width: u16,
    pub border_color: Rgba,
    pub selected_text_color: Rgba,
    pub selected_background: Rgba,
}

/// How a closed pick list is drawn; `icon_size` is in tenths of the text size.
#[derive(Debug, Clone, Copy, PartialEq, Eq)]
pub struct PickListStyle {
    pub text_color: Rgba,
    pub background: Rgba,
    pub border_radius: u16,
    pub border_width: u16,
    pub border_color: Rgba,
    pub icon_size: u16,
}

/// How a container is drawn.
#[derive(Debug, Clone, Copy, PartialEq, Eq)]
pub struct ContainerStyle {
    pub text_color: Option<Rgba>,
    pub background: Option<Rgba>,
    pub border_radius: u16,
    pub border_width: u16,
    pub border_color: Rgba,
}

/// How a radio button is drawn.
#[derive(Debug, Clone, Copy, PartialEq, Eq)]
pub struct RadioStyle {
    pub background: Rgba,
    pub dot_color: Rgba,
    pub border_width: u16,
    pub border_color: Rgba,
}

/// How a text input is drawn.
#[derive(Debug, Clone, Copy, PartialEq, Eq)]
pub struct TextInputStyle {
    pub background: Rgba,
    pub border_radius: u16,
    pub border_width: u16,
    pub border_color: Rgba,
}

/// How the thumb of a scroll bar is drawn.
#[derive(Debug, Clone, Copy, PartialEq, Eq)]
pub struct ScrollerStyle {
    pub color: Rgba,
    pub border_radius: u16,
    pub border_width: u16,
    pub border_color: Rgba,
}

/// How a scroll bar is drawn.
#[derive(Debug, Clone, Copy, PartialEq, Eq)]
pub struct ScrollbarStyle {
    pub background: Option<Rgba>,
    pub border_radius: u16,
    pub border_width: u16,
    pub border_color: Rgba,
    pub scroller: ScrollerStyle,
}

/// How a slider's rectangular handle is drawn; `width` is in whole pixels.
#[derive(Debug, Clone, Copy, PartialEq, Eq)]
pub struct HandleStyle {
    pub width: u16,
    pub shape_radius: u16,
    pub color: Rgba,
    pub border_width: u16,
    pub border_color: Rgba,
}

/// How a slider is drawn.
#[derive(Debug, Clone, Copy, PartialEq, Eq)]
pub struct SliderStyle {
    pub rail_colors: (Rgba, Rgba),
    pub handle: HandleStyle,
}

/// How a progress bar is drawn.
#[derive(Debug, Clone, Copy, PartialEq, Eq)]
pub struct ProgressBarStyle {
    pub background: Rgba,
    pub bar: Rgba,
    pub border_radius: u16,
}

/// How a checkbox is drawn.
#[derive(Debug, Clone, Copy, PartialEq, Eq)]
pub struct CheckboxStyle {
    pub background: Rgba,
    pub checkmark_color: Rgba,
    pub border_radius: u16,
    pub border_width: u16,
    pub border_color: Rgba,
}

} // verus!
