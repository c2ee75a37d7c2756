use quixel::style::{dark, light, Rgba};
use quixel::{Layout, Theme};

#[test]
fn theme_swaps_both_ways() {
    let mut t = Theme::Dark;
    t.swap();
    assert_eq!(t, Theme::Light);
    t.swap();
    assert_eq!(t, Theme::Dark);
}

#[test]
fn theme_defaults_to_light_and_has_names() {
    assert_eq!(Theme::default(), Theme::Light);
    assert_eq!(Theme::Dark.name(), "Dark");
    assert_eq!(Theme::Light.name(), "Light");
}

#[test]
fn layout_swaps_both_ways() {
    let mut l = Layout::Columns;
    l.swap();
    assert_eq!(l, Layout::Rows);
    l.swap();
    assert_eq!(l, Layout::Columns);
}

#[test]
fn colours_use_twentieths_of_eight_bits() {
    assert_eq!(Rgba::from_rgb8(0x72, 0x89, 0xDA), Rgba { r: 2280, g: 2740, b: 4360, a: 5100 });
    assert_eq!(Rgba::white().faded(2550).a, 2550);
}

#[test]
fn dark_button_pressed_adds_white_border() {
    let pressed = dark::Button.pressed();
    let hovered = dark::Button.hovered();
    assert_eq!(pressed.border_width, 10);
    assert_eq!(pressed.border_color, Rgba::white());
    assert_eq!(pressed.background, hovered.background);
    assert_eq!(hovered.background, Some(Rgba::from_rgb8(0x67, 0x7B, 0xC4)));
}

#[test]
fn light_button_hover_deepens_shadow() {
    let b = light::Button;
    assert_eq!(b.active().shadow_offset, (10, 10));
    assert_eq!(b.hovered().shadow_offset, (10, 20));
    assert_eq!(b.hovered().border_radius, 60);
}

#[test]
fn dark_checkbox_ground_follows_state() {
    let c = dark::Checkbox;
    assert_eq!(c.active(true).background, Rgba::from_rgb8(0x72, 0x89, 0xDA));
    assert_eq!(c.active(false).background, Rgba::from_rgb8(0x40, 0x44, 0x4B));
    assert_eq!(c.hovered(false).background.a, 4080);
}

#[test]
fn dark_scroller_drags_light_grey() {
    let s = dark::Scrollable;
    assert_eq!(s.dragging().scroller.color, Rgba { r: 4335, g: 4335, b: 4335, a: 5100 });
    assert_eq!(s.hovered().scroller.color, Rgba::from_rgb8(0x67, 0x7B, 0xC4));
    assert_eq!(s.dragging().background, s.hovered().background);
}

#[test]
fn dark_slider_and_inputs() {
    assert_eq!(dark::Slider.active().handle.width, 9);
    assert_eq!(dark::Slider.hovered().handle.color, Rgba::from_rgb8(0x67, 0x7B, 0xC4));
    assert_eq!(dark::TextInput.hovered().border_color.a, 1530);
    assert_eq!(dark::TextInput.placeholder_color(), Rgba { r: 2040, g: 2040, b: 2040, a: 5100 });
    assert_eq!(dark::Radio.hovered().background.a, 2550);
    assert_eq!(dark::ProgressBar.style().border_radius, 100);
    assert_eq!(dark::Container.style().background, Some(Rgba::from_rgb8(0x36, 0x39, 0x3F)));
    assert_eq!(dark::PickList.menu().selected_background, Rgba::from_rgb8(0x67, 0x7B, 0xC4));
    assert_eq!(light::PickList.active().icon_size, 7);
}
