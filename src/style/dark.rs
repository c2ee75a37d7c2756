use vstd::prelude::*;
use crate::style::{
    ButtonStyle,
    CheckboxStyle,
    ContainerStyle,
    HandleStyle,
    MenuStyle,
    PickListStyle,
    ProgressBarStyle,
    RadioStyle,
    Rgba,
    ScrollbarStyle,
    ScrollerStyle,
    SliderStyle,
    TextInputStyle,
    grey,
    rgb8,
    transparent,
    white,
    with_alpha,
};

verus! {

/// The dark palette's ground for inputs.
pub open spec fn surface() -> Rgba {
    rgb8(0x40, 0x44, 0x4B)
}

/// The dark palette's highlight for focused inputs.
pub open spec fn accent() -> Rgba {
    rgb8(0x6F, 0xFF, 0xE9)
}

/// The dark palette's colour of active controls.
pub open spec fn active() -> Rgba {
    rgb8(0x72, 0x89, 0xDA)
}

/// The dark palette's colour under the pointer.
pub open spec fn hovered() -> Rgba {
    rgb8(0x67, 0x7B, 0xC4)
}

/// The light grey of a control being dragged: 0.85 of full intensity.
pub open spec fn dragged() -> Rgba {
    grey(4335)
}

fn surface_colour() -> (c: Rgba)
    ensures
        c == surface(),
{
    Rgba::from_rgb8(0x40, 0x44, 0x4B)
}

fn accent_colour() -> (c: Rgba)
    ensures
        c == accent(),
{
    Rgba::from_rgb8(0x6F, 0xFF, 0xE9)
}

fn active_colour() -> (c: Rgba)
    ensures
        c == active(),
{
    Rgba::from_rgb8(0x72, 0x89, 0xDA)
}

fn hovered_colour() -> (c: Rgba)
    ensures
        c == hovered(),
{
    Rgba::from_rgb8(0x67, 0x7B, 0xC4)
}

fn dragged_colour() -> (c: Rgba)
    ensures
        c == dragged(),
{
    Rgba::grey(4335)
}

/// Containers of the dark palette.
pub struct Container;

impl Container {
    pub fn style(&self) -> (r: ContainerStyle)
        ensures
            r == (ContainerStyle {
                text_color: Some(white()),
                background: Some(rgb8(0x36, 0x39, 0x3F)),
                border_radius: 0,
                border_width: 0,
                border_color: transparent(),
            }),
    {
        ContainerStyle {
            text_color: Some(Rgba::white()),
            background: Some(Rgba::from_rgb8(0x36, 0x39, 0x3F)),
            border_radius: 0,
            border_width: 0,
            border_color: Rgba::transparent(),
        }
    }
}

/// Radio buttons of the dark palette.
pub struct Radio;

impl Radio {
    pub open spec fn active_spec(&self) -> RadioStyle {
        RadioStyle { background: surface(), dot_color: active(), border_width: 10, border_color: active() }
    }

    pub fn active(&self) -> (r: RadioStyle)
        ensures
            r == self.active_spec(),
    {
        RadioStyle {
            background: surface_colour(),
            dot_color: active_colour(),
            border_width: 10,
            border_color: active_colour(),
        }
    }

    /// The active look on a half-transparent ground.
    pub fn hovered(&self) -> (r: RadioStyle)
        ensures
            r == (RadioStyle { background: with_alpha(surface(), 2550), ..self.active_spec() }),
    {
        RadioStyle { background: surface_colour().faded(2550), ..self.active() }
    }
}

/// Text inputs of the dark palette.
pub struct TextInput;

impl TextInput {
    pub open spec fn active_spec(&self) -> TextInputStyle {
        TextInputStyle {
            background: surface(),
            border_radius: 20,
            border_width: 0,
            border_color: transparent(),
        }
    }

    pub open spec fn focused_spec(&self) -> TextInputStyle {
        TextInputStyle { border_width: 10, border_color: accent(), ..self.active_spec() }
    }

    pub fn active(&self) -> (r: TextInputStyle)
        ensures
            r == self.active_spec(),
    {
        TextInputStyle {
            background: surface_colour(),
            border_radius: 20,
            border_width: 0,
            border_color: Rgba::transparent(),
        }
    }

    /// The active look with an accent border.
    pub fn focused(&self) -> (r: TextInputStyle)
        ensures
            r == self.focused_spec(),
    {
        TextInputStyle { border_width: 10, border_color: accent_colour(), ..self.active() }
    }

    /// The focused look with a faint accent border.
    pub fn hovered(&self) -> (r: TextInputStyle)
        ensures
            r == (TextInputStyle {
                border_width: 10,
                border_color: with_alpha(accent(), 1530),
                ..self.focused_spec()
            }),
    {
        TextInputStyle { border_width: 10, border_color: accent_colour().faded(1530), ..self.focused() }
    }

    /// Grey at 0.4 of full intensity.
    pub fn placeholder_color(&self) -> (c: Rgba)
        ensures
            c == grey(2040),
    {
        Rgba::grey(2040)
    }

    pub fn value_color(&self) -> (c: Rgba)
        ensures
            c == white(),
    {
        Rgba::white()
    }

    pub fn selection_color(&self) -> (c: Rgba)
        ensures
            c == active(),
    {
        active_colour()
    }
}

/// Buttons of the dark palette.
pub struct Button;

impl Button {
    pub open spec fn active_spec(&self) -> ButtonStyle {
        ButtonStyle {
            shadow_offset: (0, 0),
            background: Some(active()),
            border_radius: 60,
            border_width: 0,
            border_color: transparent(),
            text_color: white(),
        }
    }

    pub open spec fn hovered_spec(&self) -> ButtonStyle {
        ButtonStyle { background: Some(hovered()), text_color: white(), ..self.active_spec() }
    }

    pub fn active(&self) -> (r: ButtonStyle)
        ensures
            r == self.active_spec(),
    {
        ButtonStyle {
            shadow_offset: (0, 0),
            background: Some(active_colour()),
            border_radius: 60,
            border_width: 0,
            border_color: Rgba::transparent(),
            text_color: Rgba::white(),
        }
    }

    /// The active look on the hover colour.
    pub fn hovered(&self) -> (r: ButtonStyle)
        ensures
            r == self.hovered_spec(),
    {
        ButtonStyle { background: Some(hovered_colour()), text_color: Rgba::white(), ..self.active() }
    }

    /// The hovered look with a white border.
    pub fn pressed(&self) -> (r: ButtonStyle)
        ensures
            r == (ButtonStyle { border_width: 10, border_color: white(), ..self.hovered_spec() }),
    {
        ButtonStyle { border_width: 10, border_color: Rgba::white(), ..self.hovered() }
    }
}

/// Pick lists of the dark palette.
pub struct PickList;

impl PickList {
    pub fn menu(&self) -> (r: MenuStyle)
        ensures
            r == (MenuStyle {
                text_color: white(),
                background: active(),
                border_width: 10,
                border_color: active(),
                selected_text_color: white(),
                selected_background: hovered(),
            }),
    {
        MenuStyle {
            text_color: Rgba::white(),
            background: active_colour(),
            border_width: 10,
            border_color: active_colour(),
            selected_text_color: Rgba::white(),
            selected_background: hovered_colour(),
        }
    }

    pub fn active(&self) -> (r: PickListStyle)
        ensures
            r == (PickListStyle {
                text_color: white(),
                background: active(),
                border_radius: 60,
                border_width: 10,
                border_color: active(),
                icon_size: 7,
            }),
    {
        PickListStyle {
            text_color: Rgba::white(),
            background: active_colour(),
            border_radius: 60,
            border_width: 10,
            border_color: active_colour(),
            icon_size: 7,
        }
    }

    pub fn hovered(&self) -> (r: PickListStyle)
        ensures
            r == (PickListStyle {
                text_color: white(),
                background: hovered(),
                border_radius: 60,
                border_width: 10,
                border_color: hovered(),
                icon_size: 7,
            }),
    {
        PickListStyle {
            text_color: Rgba::white(),
            background: hovered_colour(),
            border_radius: 60,
            border_width: 10,
            border_color: hovered_colour(),
            icon_size: 7,
        }
    }
}

/// Scroll bars of the dark palette.
pub struct Scrollable;

impl Scrollable {
    pub open spec fn active_spec(&self) -> ScrollbarStyle {
        ScrollbarStyle {
            background: Some(surface()),
            border_radius: 20,
            border_width: 0,
            border_color: transparent(),
            scroller: ScrollerStyle {
                color: active(),
                border_radius: 20,
                border_width: 0,
                border_color: transparent(),
            },
        }
    }

    pub open spec fn hovered_spec(&self) -> ScrollbarStyle {
        let a = self.active_spec();
        ScrollbarStyle {
            background: Some(with_alpha(surface(), 2550)),
            scroller: ScrollerStyle { color: hovered(), ..a.scroller },
            ..a
        }
    }

    pub fn active(&self) -> (r: ScrollbarStyle)
        ensures
            r == self.active_spec(),
    {
        ScrollbarStyle {
            background: Some(surface_colour()),
            border_radius: 20,
            border_width: 0,
            border_color: Rgba::transparent(),
            scroller: ScrollerStyle {
                color: active_colour(),
                border_radius: 20,
                border_width: 0,
                border_color: Rgba::transparent(),
            },
        }
    }

    /// The active look on a half-transparent ground with the thumb in the
    /// hover colour.
    pub fn hovered(&self) -> (r: ScrollbarStyle)
        ensures
            r == self.hovered_spec(),
    {
        let a = self.active();
        ScrollbarStyle {
            background: Some(surface_colour().faded(2550)),
            scroller: ScrollerStyle { color: hovered_colour(), ..a.scroller },
            ..a
        }
    }

    /// The hovered look with a light grey thumb.
    pub fn dragging(&self) -> (r: ScrollbarStyle)
        ensures
            r == (ScrollbarStyle {
                scroller: ScrollerStyle { color: dragged(), ..self.hovered_spec().scroller },
                ..self.hovered_spec()
            }),
    {
        let h = self.hovered();
        ScrollbarStyle { scroller: ScrollerStyle { color: dragged_colour(), ..h.scroller }, ..h }
    }
}

/// Sliders of the dark palette.
pub struct Slider;

impl Slider {
    pub open spec fn active_spec(&self) -> SliderStyle {
        SliderStyle {
            rail_colors: (active(), with_alpha(active(), 510)),
            handle: HandleStyle {
                width: 9,
                shape_radius: 40,
                color: active(),
                border_width: 10,
                border_color: transparent(),
            },
        }
    }

    pub fn active(&self) -> (r: SliderStyle)
        ensures
            r == self.active_spec(),
    {
        SliderStyle {
            rail_colors: (active_colour(), active_colour().faded(510)),
            handle: HandleStyle {
                width: 9,
                shape_radius: 40,
                color: active_colour(),
                border_width: 10,
                border_color: Rgba::transparent(),
            },
        }
    }

    /// The active look with the handle in the hover colour.
    pub fn hovered(&self) -> (r: SliderStyle)
        ensures
            r == (SliderStyle {
                handle: HandleStyle { color: hovered(), ..self.active_spec().handle },
                ..self.active_spec()
            }),
    {
        let a = self.active();
        SliderStyle { handle: HandleStyle { color: hovered_colour(), ..a.handle }, ..a }
    }

    /// The active look with a light grey handle.
    pub fn dragging(&self) -> (r: SliderStyle)
        ensures
            r == (SliderStyle {
                handle: HandleStyle { color: dragged(), ..self.active_spec().handle },
                ..self.active_spec()
            }),
    {
        let a = self.active();
        SliderStyle { handle: HandleStyle { color: dragged_colour(), ..a.handle }, ..a }
    }
}

/// Progress bars of the dark palette.
pub struct ProgressBar;

impl ProgressBar {
    pub fn style(&self) -> (r: ProgressBarStyle)
        ensures
            r == (ProgressBarStyle { background: surface(), bar: active(), border_radius: 100 }),
    {
        ProgressBarStyle { background: surface_colour(), bar: active_colour(), border_radius: 100 }
    }
}

/// Checkboxes of the dark palette.
pub struct Checkbox;

impl Checkbox {
    pub open spec fn active_spec(&self, is_checked: bool) -> CheckboxStyle {
        CheckboxStyle {
            background: if is_checked {
                active()
            } else {
                surface()
            },
            checkmark_color: white(),
            border_radius: 50,
            border_width: 10,
            border_color: active(),
        }
    }

    /// Filled in the active colour when checked, on the input ground otherwise.
    pub fn active(&self, is_checked: bool) -> (r: CheckboxStyle)
        ensures
            r == self.active_spec(is_checked),
    {
        CheckboxStyle {
            background: if is_checked {
                active_colour()
            } else {
                surface_colour()
            },
            checkmark_color: Rgba::white(),
            border_radius: 50,
            border_width: 10,
            border_color: active_colour(),
        }
    }

    /// The active look with its ground at 0.8 opacity.
    pub fn hovered(&self, is_checked: bool) -> (r: CheckboxStyle)
        ensures
            r == (CheckboxStyle {
                background: with_alpha(self.active_spec(is_checked).background, 4080),
                ..self.active_spec(is_checked)
            }),
    {
        let ground = if is_checked {
            active_colour()
        } else {
            surface_colour()
        };
        CheckboxStyle { background: ground.faded(4080), ..self.active(is_checked) }
    }
}

} // verus!
