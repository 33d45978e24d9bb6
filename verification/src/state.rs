//! The modes of the application, the input devices and the actions of the
//! menu buttons.

use vstd::prelude::*;

verus! {

/// The mode that the application is in.
#[derive(Clone, Copy, Debug, PartialEq, Eq, Hash, Structural)]
pub enum AppState {
    Uninitialized,
    Menu,
    InGame,
    Paused,
    GameOver,
}

/// The input device that last gave a signal.
#[derive(Clone, Copy, Debug, PartialEq, Eq, Hash, Structural)]
pub enum ControlDevice {
    Keyboard,
    Gamepad,
    Mouse,
}

/// What a menu button does when it is pressed.
#[derive(Clone, Copy, Debug, PartialEq, Eq, Hash, Structural)]
pub enum MenuButtonAction {
    Play,
    Quit,
    Resume,
    ToMenu,
}

impl Default for AppState {
    /// The mode before the first frame.
    fn default() -> (s: AppState)
        ensures
            s == AppState::Uninitialized,
    {
        AppState::Uninitialized
    }
}

impl Default for ControlDevice {
    /// The device that counts as primary before any signal: the mouse.
    fn default() -> (d: ControlDevice)
        ensures
            d == ControlDevice::Mouse,
    {
        ControlDevice::Mouse
    }
}

impl AppState {
    /// The virtual clock stands still in this mode.
    pub open spec fn holds_time(self) -> bool {
        self == AppState::Paused || self == AppState::GameOver
    }

    /// A round is under way in this mode: the player exists.
    pub open spec fn in_round(self) -> bool {
        self == AppState::InGame || self == AppState::Paused || self == AppState::GameOver
    }

    /// The pointer is shown in this mode: everywhere but in the game.
    pub open spec fn shows_cursor(self) -> bool {
        self != AppState::InGame
    }

    /// The menu systems run in this mode.
    pub open spec fn shows_menu(self) -> bool {
        self == AppState::Menu || self == AppState::Paused
    }

    /// The mode after the pause control was used: the game pauses, a
    /// paused game goes on, every other mode stays.
    pub open spec fn toggled(self) -> AppState {
        match self {
            AppState::InGame => AppState::Paused,
            AppState::Paused => AppState::InGame,
            _ => self,
        }
    }

    /// The mode after a menu button was pressed. `Quit` changes no mode; a
    /// button that the current mode does not offer does nothing.
    pub open spec fn after_action(self, action: MenuButtonAction) -> AppState {
        match (self, action) {
            (AppState::Menu, MenuButtonAction::Play) => AppState::InGame,
            (AppState::Paused, MenuButtonAction::Resume) => AppState::InGame,
            (AppState::Paused, MenuButtonAction::ToMenu) => AppState::Menu,
            _ => self,
        }
    }

    /// The mode after the end of a round was acknowledged.
    pub open spec fn acknowledged(self) -> AppState {
        if self == AppState::GameOver {
            AppState::Menu
        } else {
            self
        }
    }

    /// Whether the pointer is shown.
    pub fn cursor_visible(self) -> (v: bool)
        ensures
            v == self.shows_cursor(),
    {
        !matches!(self, AppState::InGame)
    }

    /// Whether the menu systems run.
    pub fn menu_active(self) -> (v: bool)
        ensures
            v == self.shows_menu(),
    {
        matches!(self, AppState::Menu | AppState::Paused)
    }
}

} // verus!
