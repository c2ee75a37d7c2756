use vstd::prelude::*;
use crate::levels::Levels;
use crate::modulate::Modulate;
use crate::pipeline::PixelizationParams;
use crate::style::{Layout, Theme};

verus! {

/// What the user did in the editor.
#[derive(Debug, Clone, Copy, PartialEq, Eq, Structural)]
pub enum Event {
    SourcePressed,
    LayoutPressed,
    ThemePressed,
    SliderPixelizeChanged(u8),
    SliderPixelizeReleased,
    SliderKcolorsChanged(u8),
    SliderKcolorsReleased,
    LevelToggled(bool),
    SliderLevelBlackChanged(u8),
    SliderLevelBlackReleased,
    SliderLevelWhiteChanged(u8),
    SliderLevelWhiteReleased,
    ModulateToggled(bool),
    SliderModulateBrightnessChanged(u8),
    SliderModulateBrightnessReleased,
    SliderModulateSaturationChanged(u8),
    SliderModulateSaturationReleased,
    SliderModulateHueChanged(u8),
    SliderModulateHueReleased,
    SavePressed,
    SaveAsPressed,
}

/// What the shell around the editor has to do next.
#[derive(Debug, Clone, Copy, PartialEq, Eq, Structural)]
pub enum Action {
    Nothing,
    /// Run the pipeline afresh on the source with `params()`.
    Render,
    /// Ask the user for a source image.
    PickSource,
    /// Ask the user where to save.
    PickSaveFile,
    /// Write the current result to the chosen file.
    Save,
}

/// The editor's state: the settings on its controls and where its files stand.
/// A slider that moves only records its value; the pipeline runs when a slider
/// is released or a stage is switched on or off, so that dragging never
/// queues renders.
#[derive(Debug, Clone, Copy, PartialEq, Eq, Structural)]
pub struct Easel {
    pub theme: Theme,
    pub layout: Layout,
    pub pixelize: u8,
    pub kcolors: u8,
    pub level_toggle: bool,
    pub level_black: u8,
    pub level_white: u8,
    pub modulate_toggle: bool,
    pub modulate_brightness: u8,
    pub modulate_saturation: u8,
    pub modulate_hue: u8,
    /// A source image has been chosen.
    pub has_source: bool,
    /// A directory to save into is known, so saving is offered.
    pub can_save: bool,
    /// A file to save into has been chosen.
    pub has_save_file: bool,
    /// The file holds the current result.
    pub saved: bool,
}

impl Easel {
    /// `Render` when there is a source to render, `Nothing` otherwise.
    pub open spec fn render_if_source(self) -> Action {
        if self.has_source {
            Action::Render
        } else {
            Action::Nothing
        }
    }

    /// The state after `evt`, and what has to happen next.
    pub open spec fn handled(self, evt: Event) -> (Easel, Action) {
        match evt {
            Event::SourcePressed => (self, Action::PickSource),
            Event::LayoutPressed => (
                Easel {
                    layout: if self.layout == Layout::Columns {
                        Layout::Rows
                    } else {
                        Layout::Columns
                    },
                    ..self
                },
                Action::Nothing,
            ),
            Event::ThemePressed => (
                Easel {
                    theme: if self.theme == Theme::Dark {
                        Theme::Light
                    } else {
                        Theme::Dark
                    },
                    ..self
                },
                Action::Nothing,
            ),
            Event::SliderPixelizeChanged(v) => (Easel { pixelize: v, ..self }, Action::Nothing),
            Event::SliderKcolorsChanged(v) => (Easel { kcolors: v, ..self }, Action::Nothing),
            Event::SliderPixelizeReleased => (self, self.render_if_source()),
            Event::SliderKcolorsReleased => (self, self.render_if_source()),
            Event::LevelToggled(on) => {
                let s = Easel { level_toggle: on, ..self };
                (s, s.render_if_source())
            },
            Event::SliderLevelBlackChanged(v) => (Easel { level_black: v, ..self }, Action::Nothing),
            Event::SliderLevelWhiteChanged(v) => (Easel { level_white: v, ..self }, Action::Nothing),
            Event::SliderLevelBlackReleased | Event::SliderLevelWhiteReleased => (
                self,
                if self.level_toggle {
                    self.render_if_source()
                } else {
                    Action::Nothing
                },
            ),
            Event::ModulateToggled(on) => {
                let s = Easel { modulate_toggle: on, ..self };
                (s, s.render_if_source())
            },
            Event::SliderModulateBrightnessChanged(v) => (
                Easel { modulate_brightness: v, ..self },
                Action::Nothing,
            ),
            Event::SliderModulateSaturationChanged(v) => (
                Easel { modulate_saturation: v, ..self },
                Action::Nothing,
            ),
            Event::SliderModulateHueChanged(v) => (Easel { modulate_hue: v, ..self }, Action::Nothing),
            Event::SliderModulateBrightnessReleased
            | Event::SliderModulateSaturationReleased
            | Event::SliderModulateHueReleased => (
                self,
                if self.modulate_toggle {
                    self.render_if_source()
                } else {
                    Action::Nothing
                },
            ),
            Event::SavePressed => (
                self,
                if self.has_save_file {
                    Action::Save
                } else {
                    Action::PickSaveFile
                },
            ),
            Event::SaveAsPressed => (self, Action::PickSaveFile),
        }
    }

    /// The editor as it opens: dark, controls beside the preview, a strong
    /// shrink, 32 colours, levels on from 10 % to 80 %, modulation off.
    pub fn new() -> (r: Easel)
        ensures
            r == (Easel {
                theme: Theme::Dark,
                layout: Layout::Columns,
                pixelize: 80,
                kcolors: 32,
                level_toggle: true,
                level_black: 10,
                level_white: 80,
                modulate_toggle: false,
                modulate_brightness: 100,
                modulate_saturation: 100,
                modulate_hue: 100,
                has_source: false,
                can_save: false,
                has_save_file: false,
                saved: false,
            }),
    {
        Easel {
            theme: Theme::Dark,
            layout: Layout::Columns,
            pixelize: 80,
            kcolors: 32,
            level_toggle: true,
            level_black: 10,
            level_white: 80,
            modulate_toggle: false,
            modulate_brightness: 100,
            modulate_saturation: 100,
            modulate_hue: 100,
            has_source: false,
            can_save: false,
            has_save_file: false,
            saved: false,
        }
    }

    fn render_action(&self) -> (a: Action)
        ensures
            a == self.render_if_source(),
    {
        if self.has_source {
            Action::Render
        } else {
            Action::Nothing
        }
    }

    /// Takes in one event and says what has to happen next.
    pub fn update(&mut self, evt: Event) -> (a: Action)
        ensures
            (*final(self), a) == old(self).handled(evt),
    {
        match evt {
            Event::SourcePressed => Action::PickSource,
            Event::LayoutPressed => {
                self.layout.swap();
                Action::Nothing
            },
            Event::ThemePressed => {
                self.theme.swap();
                Action::Nothing
            },
            Event::SliderPixelizeChanged(v) => {
                self.pixelize = v;
                Action::Nothing
            },
            Event::SliderKcolorsChanged(v) => {
                self.kcolors = v;
                Action::Nothing
            },
            Event::SliderPixelizeReleased | Event::SliderKcolorsReleased => self.render_action(),
            Event::LevelToggled(on) => {
                self.level_toggle = on;
                self.render_action()
            },
            Event::SliderLevelBlackChanged(v) => {
                self.level_black = v;
                Action::Nothing
            },
            Event::SliderLevelWhiteChanged(v) => {
                self.level_white = v;
                Action::Nothing
            },
            Event::SliderLevelBlackReleased | Event::SliderLevelWhiteReleased => {
                if self.level_toggle {
                    self.render_action()
                } else {
                    Action::Nothing
                }
            },
            Event::ModulateToggled(on) => {
                self.modulate_toggle = on;
                self.render_action()
            },
            Event::SliderModulateBrightnessChanged(v) => {
                self.modulate_brightness = v;
                Action::Nothing
            },
            Event::SliderModulateSaturationChanged(v) => {
                self.modulate_saturation = v;
                Action::Nothing
            },
            Event::SliderModulateHueChanged(v) => {
                self.modulate_hue = v;
                Action::Nothing
            },
            Event::SliderModulateBrightnessReleased
            | Event::SliderModulateSaturationReleased
            | Event::SliderModulateHueReleased => {
                if self.modulate_toggle {
                    self.render_action()
                } else {
                    Action::Nothing
                }
            },
            Event::SavePressed => {
                if self.has_save_file {
                    Action::Save
                } else {
                    Action::PickSaveFile
                }
            },
            Event::SaveAsPressed => Action::PickSaveFile,
        }
    }

    /// Takes in the answer to `PickSource`. A chosen source forgets the file
    /// saved to before and is rendered; none leaves nothing to render.
    pub fn source_picked(&mut self, picked: bool) -> (a: Action)
        ensures
            *final(self) == (Easel {
                has_source: picked,
                can_save: picked || old(self).can_save,
                has_save_file: !picked && old(self).has_save_file,
                ..*old(self)
            }),
            a == if picked {
                Action::Render
            } else {
                Action::Nothing
            },
    {
        self.has_source = picked;
        if picked {
            self.can_save = true;
            self.has_save_file = false;
            Action::Render
        } else {
            Action::Nothing
        }
    }

    /// Takes in the answer to `PickSaveFile`: a chosen file is written to, and
    /// none leaves no file to write.
    pub fn save_file_picked(&mut self, picked: bool) -> (a: Action)
        ensures
            *final(self) == (Easel {
                has_save_file: picked,
                can_save: old(self).can_save || picked,
                ..*old(self)
            }),
            a == if picked {
                Action::Save
            } else {
                Action::Nothing
            },
    {
        self.has_save_file = picked;
        if picked {
            self.can_save = true;
            Action::Save
        } else {
            Action::Nothing
        }
    }

    /// Records that a new result is on show, which the file does not hold yet.
    pub fn rendered(&mut self)
        ensures
            *final(self) == (Easel { saved: false, ..*old(self) }),
    {
        self.saved = false;
    }

    /// Records how writing the result went.
    pub fn written(&mut self, ok: bool)
        ensures
            *final(self) == (Easel { saved: old(self).saved || ok, ..*old(self) }),
    {
        if ok {
            self.saved = true;
        }
    }

    /// The pipeline settings that the controls stand at.
    pub fn params(&self) -> (p: PixelizationParams)
        ensures
            p.pixelize == self.pixelize,
            p.kcolors == self.kcolors,
            p.levels == if self.level_toggle {
                Some(Levels { black: self.level_black, white: self.level_white })
            } else {
                None
            },
            p.modulate == if self.modulate_toggle {
                Some(
                    Modulate {
                        brightness: self.modulate_brightness,
                        saturation: self.modulate_saturation,
                        hue: self.modulate_hue,
                    },
                )
            } else {
                None
            },
    {
        PixelizationParams {
            pixelize: self.pixelize,
            kcolors: self.kcolors,
            levels: if self.level_toggle {
                Some(Levels { black: self.level_black, white: self.level_white })
            } else {
                None
            },
            modulate: if self.modulate_toggle {
                Some(
                    Modulate {
                        brightness: self.modulate_brightness,
                        saturation: self.modulate_saturation,
                        hue: self.modulate_hue,
                    },
                )
            } else {
                None
            },
        }
    }
}

} // verus!
