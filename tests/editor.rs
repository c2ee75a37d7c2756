use quixel::editor::{Action, Easel, Event};
use quixel::{Layout, Levels, Modulate, Theme};

fn with_source() -> Easel {
    let mut e = Easel::new();
    assert_eq!(e.update(Event::SourcePressed), Action::PickSource);
    assert_eq!(e.source_picked(true), Action::Render);
    e
}

#[test]
fn editor_opens_with_defaults() {
    let e = Easel::new();
    assert_eq!(e.theme, Theme::Dark);
    assert_eq!(e.layout, Layout::Columns);
    assert_eq!((e.pixelize, e.kcolors), (80, 32));
    assert!(e.level_toggle && !e.modulate_toggle);
    assert!(!e.has_source && !e.can_save && !e.has_save_file && !e.saved);
    let p = e.params();
    assert_eq!(p.levels, Some(Levels { black: 10, white: 80 }));
    assert_eq!(p.modulate, None);
}

#[test]
fn moving_a_slider_only_records_it() {
    let mut e = with_source();
    assert_eq!(e.update(Event::SliderPixelizeChanged(42)), Action::Nothing);
    assert_eq!(e.update(Event::SliderKcolorsChanged(7)), Action::Nothing);
    assert_eq!(e.update(Event::SliderLevelBlackChanged(5)), Action::Nothing);
    assert_eq!(e.update(Event::SliderModulateHueChanged(150)), Action::Nothing);
    assert_eq!((e.pixelize, e.kcolors, e.level_black, e.modulate_hue), (42, 7, 5, 150));
}

#[test]
fn releasing_a_slider_renders() {
    let mut e = with_source();
    assert_eq!(e.update(Event::SliderPixelizeReleased), Action::Render);
    assert_eq!(e.update(Event::SliderKcolorsReleased), Action::Render);
    assert_eq!(e.update(Event::SliderLevelWhiteReleased), Action::Render);
    assert_eq!(e.update(Event::SliderModulateHueReleased), Action::Nothing);
    assert_eq!(e.update(Event::ModulateToggled(true)), Action::Render);
    assert_eq!(e.update(Event::SliderModulateSaturationReleased), Action::Render);
    assert_eq!(e.update(Event::LevelToggled(false)), Action::Render);
    assert_eq!(e.update(Event::SliderLevelBlackReleased), Action::Nothing);
}

#[test]
fn nothing_renders_without_a_source() {
    let mut e = Easel::new();
    assert_eq!(e.update(Event::SliderPixelizeReleased), Action::Nothing);
    assert_eq!(e.update(Event::ModulateToggled(true)), Action::Nothing);
    assert_eq!(e.update(Event::SourcePressed), Action::PickSource);
    assert_eq!(e.source_picked(false), Action::Nothing);
    assert!(!e.has_source);
}

#[test]
fn saving_asks_for_a_file_once() {
    let mut e = with_source();
    assert!(e.can_save);
    assert_eq!(e.update(Event::SavePressed), Action::PickSaveFile);
    assert_eq!(e.save_file_picked(true), Action::Save);
    e.written(true);
    assert!(e.saved);
    assert_eq!(e.update(Event::SavePressed), Action::Save);
    assert_eq!(e.update(Event::SaveAsPressed), Action::PickSaveFile);
    assert_eq!(e.save_file_picked(false), Action::Nothing);
    assert!(!e.has_save_file);
    e.rendered();
    assert!(!e.saved);
}

#[test]
fn a_new_source_forgets_the_save_file() {
    let mut e = with_source();
    e.update(Event::SaveAsPressed);
    e.save_file_picked(true);
    assert!(e.has_save_file);
    assert_eq!(e.source_picked(true), Action::Render);
    assert!(!e.has_save_file);
}

#[test]
fn layout_and_theme_buttons_swap() {
    let mut e = Easel::new();
    assert_eq!(e.update(Event::LayoutPressed), Action::Nothing);
    assert_eq!(e.update(Event::ThemePressed), Action::Nothing);
    assert_eq!((e.layout, e.theme), (Layout::Rows, Theme::Light));
}

#[test]
fn params_follow_the_controls() {
    let mut e = Easel::new();
    e.update(Event::ModulateToggled(true));
    e.update(Event::SliderModulateBrightnessChanged(120));
    e.update(Event::LevelToggled(false));
    let p = e.params();
    assert_eq!(p.levels, None);
    assert_eq!(p.modulate, Some(Modulate { brightness: 120, saturation: 100, hue: 100 }));
}
