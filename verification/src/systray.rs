//! What the tray menu knows and decides.
//!
//! The menu itself, its icon on the screen and its dialogs belong to the
//! program. Here are the flags and settings behind the menu, what a click
//! on each entry does to them, the text of the wheel's status line, and
//! the pixels of the icon.

use crate::settings::AppSettings;
use crate::telemetry::GameType;
use vstd::prelude::*;
use vstd::string::StringExecFns;

verus! {

/// The width and the height of the icon, in pixels.
pub const ICON_SIZE: usize = 16;

/// The number of bytes of the icon: four for each pixel.
pub const ICON_BYTES: usize = 1024;

/// The entries of the tray menu that can be clicked.
#[derive(Clone, Copy, Debug, PartialEq, Eq, Structural)]
pub enum MenuAction {
    Quit,
    About,
    SelectDirtRally,
    SelectForzaHorizon,
    OpenSettings,
    ReloadSettings,
}

/// What is left for the program to do after a click.
#[derive(Clone, Copy, Debug, PartialEq, Eq, Structural)]
pub enum MenuEffect {
    /// Nothing.
    Nothing,
    /// Show the dialog that says what the program is.
    ShowAbout,
    /// Write the settings to disk.
    SaveSettings,
    /// Open the settings file in an editor.
    OpenSettingsFile,
    /// Read the settings from disk and hand them to
    /// [`SystemTray::settings_reloaded`].
    LoadSettings,
}

/// The flags and the settings behind the tray menu.
#[derive(Clone, Copy, Debug, PartialEq, Eq, Structural)]
pub struct SystemTray {
    /// Whether the user asked the program to end.
    pub should_exit: bool,
    /// Whether the settings were changed since that was last asked.
    pub settings_changed: bool,
    /// The settings in force.
    pub settings: AppSettings,
}

/// One pixel of the icon as red, green, blue and opacity.
///
/// The icon shows the LED bar: columns 2 to 13 of rows 6 to 9 are lit,
/// green up to column 7, orange up to column 10 and red from there on. A
/// dark border lies one pixel around the bar, and the rest is transparent.
pub open spec fn icon_pixel(x: int, y: int) -> Seq<u8> {
    if 2 <= x <= 13 && 6 <= y <= 9 {
        if x <= 7 {
            seq![0u8, 255u8, 0u8, 255u8]
        } else if x <= 10 {
            seq![255u8, 165u8, 0u8, 255u8]
        } else {
            seq![255u8, 0u8, 0u8, 255u8]
        }
    } else if 1 <= x <= 14 && 5 <= y <= 10 {
        seq![32u8, 32u8, 32u8, 255u8]
    } else {
        seq![0u8, 0u8, 0u8, 0u8]
    }
}

/// The byte of the icon at an index: the pixels stand row by row, four
/// bytes each.
pub open spec fn icon_byte(index: int) -> u8 {
    icon_pixel((index / 4) % 16, (index / 4) / 16)[index % 4]
}

/// The text of the wheel's status line.
pub open spec fn wheel_status(connected: bool, error_msg: Option<Seq<char>>) -> Seq<char> {
    if connected {
        "Wheel: Connected \u{2713}"@
    } else {
        match error_msg {
            Some(msg) => "Wheel: Error - "@ + msg,
            None => "Wheel: Not Found \u{2717}"@,
        }
    }
}

impl SystemTray {
    /// What a click on a menu entry leaves behind.
    ///
    /// Quitting raises the exit flag. Selecting a simulator puts it into
    /// the settings and marks them changed. Asking for a reload changes
    /// nothing yet: the settings come in through
    /// [`SystemTray::settings_reloaded`]. The other entries change nothing.
    pub open spec fn after(self, action: MenuAction) -> SystemTray {
        match action {
            MenuAction::Quit => SystemTray { should_exit: true, ..self },
            MenuAction::SelectDirtRally => SystemTray {
                settings_changed: true,
                settings: AppSettings { game_type: GameType::DirtRally2, ..self.settings },
                ..self
            },
            MenuAction::SelectForzaHorizon => SystemTray {
                settings_changed: true,
                settings: AppSettings { game_type: GameType::ForzaHorizon5, ..self.settings },
                ..self
            },
            _ => self,
        }
    }

    /// What a click on a menu entry leaves for the program to do.
    pub open spec fn effect(action: MenuAction) -> MenuEffect {
        match action {
            MenuAction::Quit => MenuEffect::Nothing,
            MenuAction::About => MenuEffect::ShowAbout,
            MenuAction::SelectDirtRally => MenuEffect::SaveSettings,
            MenuAction::SelectForzaHorizon => MenuEffect::SaveSettings,
            MenuAction::OpenSettings => MenuEffect::OpenSettingsFile,
            MenuAction::ReloadSettings => MenuEffect::LoadSettings,
        }
    }

    /// The state behind a menu that nobody has clicked on yet.
    pub fn new(settings: AppSettings) -> (tray: SystemTray)
        ensures
            tray == (SystemTray { should_exit: false, settings_changed: false, settings }),
    {
        SystemTray { should_exit: false, settings_changed: false, settings }
    }

    /// Takes a click on a menu entry.
    pub fn handle_menu_action(&mut self, action: MenuAction) -> (effect: MenuEffect)
        ensures
            *final(self) == old(self).after(action),
            effect == SystemTray::effect(action),
    {
        match action {
            MenuAction::Quit => {
                self.should_exit = true;
                MenuEffect::Nothing
            },
            MenuAction::About => MenuEffect::ShowAbout,
            MenuAction::SelectDirtRally => {
                self.settings.set_game_type(GameType::DirtRally2);
                self.settings_changed = true;
                MenuEffect::SaveSettings
            },
            MenuAction::SelectForzaHorizon => {
                self.settings.set_game_type(GameType::ForzaHorizon5);
                self.settings_changed = true;
                MenuEffect::SaveSettings
            },
            MenuAction::OpenSettings => MenuEffect::OpenSettingsFile,
            MenuAction::ReloadSettings => MenuEffect::LoadSettings,
        }
    }

    /// Takes the settings as they were just read from disk, and marks the
    /// settings changed.
    pub fn settings_reloaded(&mut self, loaded: AppSettings)
        ensures
            *final(self) == (SystemTray {
                settings: loaded,
                settings_changed: true,
                ..*old(self)
            }),
    {
        self.settings = loaded;
        self.settings_changed = true;
    }

    /// Whether the user asked the program to end.
    pub fn should_exit(&self) -> (r: bool)
        ensures
            r == self.should_exit,
    {
        self.should_exit
    }

    /// Whether the settings were changed since this was last asked. Asking
    /// lowers the flag.
    pub fn settings_changed(&mut self) -> (r: bool)
        ensures
            r == old(self).settings_changed,
            *final(self) == (SystemTray { settings_changed: false, ..*old(self) }),
    {
        let result = self.settings_changed;
        self.settings_changed = false;
        result
    }

    /// The settings in force.
    pub fn get_current_settings(&self) -> (r: AppSettings)
        ensures
            r == self.settings,
    {
        self.settings
    }
}

/// The text of the wheel's status line: connected, the error that was
/// reported, or not found.
pub fn wheel_status_text(connected: bool, error_msg: Option<&str>) -> (text: String)
    ensures
        text@ == wheel_status(
            connected,
            match error_msg {
                Some(msg) => Some(msg@),
                None => None,
            },
        ),
{
    if connected {
        String::from_str("Wheel: Connected \u{2713}")
    } else {
        match error_msg {
            Some(msg) => String::from_str("Wheel: Error - ").concat(msg),
            None => String::from_str("Wheel: Not Found \u{2717}"),
        }
    }
}

/// The icon as 16 rows of 16 pixels, four bytes to the pixel.
pub fn create_icon_data() -> (data: Vec<u8>)
    ensures
        data@ == Seq::new(ICON_BYTES as nat, |i: int| icon_byte(i)),
{
    let mut data: Vec<u8> = Vec::with_capacity(ICON_BYTES);
    let mut y: usize = 0;
    while y < ICON_SIZE
        invariant
            y <= ICON_SIZE,
            data@ == Seq::new((64 * y) as nat, |i: int| icon_byte(i)),
        decreases ICON_SIZE - y,
    {
        let mut x: usize = 0;
        while x < ICON_SIZE
            invariant
                y < ICON_SIZE,
                x <= ICON_SIZE,
                data@ == Seq::new((64 * y + 4 * x) as nat, |i: int| icon_byte(i)),
            decreases ICON_SIZE - x,
        {
            let (r, g, b, a): (u8, u8, u8, u8) = if 2 <= x && x <= 13 && 6 <= y && y <= 9 {
                if x <= 7 {
                    (0, 255, 0, 255)
                } else if x <= 10 {
                    (255, 165, 0, 255)
                } else {
                    (255, 0, 0, 255)
                }
            } else if 1 <= x && x <= 14 && 5 <= y && y <= 10 {
                (32, 32, 32, 255)
            } else {
                (0, 0, 0, 0)
            };
            data.push(r);
            data.push(g);
            data.push(b);
            data.push(a);
            proof {
                let base: int = 64 * y + 4 * x;
                assert(icon_byte(base) == r);
                assert(icon_byte(base + 1) == g);
                assert(icon_byte(base + 2) == b);
                assert(icon_byte(base + 3) == a);
                assert(data@ =~= Seq::new((base + 4) as nat, |i: int| icon_byte(i)));
            }
            x += 1;
        }
        y += 1;
    }
    data
}

} // verus!
