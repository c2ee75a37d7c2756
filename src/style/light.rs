use vstd::prelude::*;
use crate::style::{ButtonStyle, MenuStyle, PickListStyle, Rgba, rgb8, transparent, white};

verus! {

/// The light palette's button and pick-list colour.
pub open spec fn active() -> Rgba {
    rgb8(0x1c, 0x6b, 0xde)
}

/// The light palette's colour under the pointer.
pub open spec fn hovered() -> Rgba {
    rgb8(0x1e, 0x76, 0xf0)
}

/// The light palette's text on coloured ground.
pub open spec fn pale() -> Rgba {
    rgb8(0xEE, 0xEE, 0xEE)
}

fn active_colour() -> (c: Rgba)
    ensures
        c == active(),
{
    Rgba::from_rgb8(0x1c, 0x6b, 0xde)
}

fn hovered_colour() -> (c: Rgba)
    ensures
        c == hovered(),
{
    Rgba::from_rgb8(0x1e, 0x76, 0xf0)
}

fn pale_colour() -> (c: Rgba)
    ensures
        c == pale(),
{
    Rgba::from_rgb8(0xEE, 0xEE, 0xEE)
}

/// Buttons of the light palette.
pub struct Button;

impl Button {
    pub fn active(&self) -> (r: ButtonStyle)
        ensures
            r == (ButtonStyle {
                shadow_offset: (10, 10),
                background: Some(active()),
                border_radius: 60,
                border_width: 0,
                border_color: transparent(),
                text_color: pale(),
            }),
    {
        ButtonStyle {
            shadow_offset: (10, 10),
            background: Some(active_colour()),
            border_radius: 60,
            border_width: 0,
            border_color: Rgba::transparent(),
            text_color: pale_colour(),
        }
    }

    /// The active look, lighter, with white text and a deeper shadow.
    pub fn hovered(&self) -> (r: ButtonStyle)
        ensures
            r == (ButtonStyle {
                shadow_offset: (10, 20),
                background: Some(hovered()),
                text_color: white(),
                ..self.active_spec()
            }),
    {
        ButtonStyle {
            background: Some(hovered_colour()),
            text_color: Rgba::white(),
            shadow_offset: (10, 20),
            ..self.active()
        }
    }

    pub open spec fn active_spec(&self) -> ButtonStyle {
        ButtonStyle {
            shadow_offset: (10, 10),
            background: Some(active()),
            border_radius: 60,
            border_width: 0,
            border_color: transparent(),
            text_color: pale(),
        }
    }
}

/// Pick lists of the light palette.
pub struct PickList;

impl PickList {
    pub fn menu(&self) -> (r: MenuStyle)
        ensures
            r == (MenuStyle {
                text_color: pale(),
                background: active(),
                border_width: 10,
                border_color: active(),
                selected_text_color: white(),
                selected_background: hovered(),
            }),
    {
        MenuStyle {
            text_color: pale_colour(),
            background: active_colour(),
            border_width: 10,
            border_color: active_colour(),
            selected_text_color: Rgba::white(),
            selected_background: hovered_colour(),
        }
    }

    pub fn active(&self) -> (r: PickListStyle)
        ensures
            r == (PickListStyle {
                text_color: pale(),
                background: active(),
                border_radius: 60,
                border_width: 10,
                border_color: active(),
                icon_size: 7,
            }),
    {
        PickListStyle {
            text_color: pale_colour(),
            background: active_colour(),
            border_radius: 60,
            border_width: 10,
            border_color: active_colour(),
            icon_size: 7,
        }
    }

    pub fn hovered(&self) -> (r: PickListStyle)
        ensures
            r == (PickListStyle {
                text_color: white(),
                background: hovered(),
                border_radius: 60,
                border_width: 10,
                border_color: hovered(),
                icon_size: 7,
            }),
    {
        PickListStyle {
            text_color: Rgba::white(),
            background: hovered_colour(),
            border_radius: 60,
            border_width: 10,
            border_color: hovered_colour(),
            icon_size: 7,
        }
    }
}

} // verus!
