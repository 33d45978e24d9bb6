//! A group of menu buttons with its marked option, and what keyboard,
//! gamepad and pointer do to it.

use vstd::prelude::*;
use crate::state::{ControlDevice, MenuButtonAction};

verus! {

/// What the pointer does to a button.
#[derive(Clone, Copy, Debug, PartialEq, Eq, Structural)]
pub enum Interaction {
    Pressed,
    Hovered,
    Untouched,
}

/// How a button is drawn.
#[derive(Clone, Copy, Debug, PartialEq, Eq, Structural)]
pub enum ButtonDisplay {
    Idle,
    Hovered,
    Pressed,
}

/// What keyboard and gamepads report for the menu in one frame: whether an
/// up, down or confirm key went down, and on how many gamepads the matching
/// button went down.
#[derive(Clone, Copy, Debug, PartialEq, Eq, Structural)]
pub struct MenuInput {
    pub key_up: bool,
    pub key_down: bool,
    pub key_confirm: bool,
    pub pad_up: u32,
    pub pad_down: u32,
    pub pad_confirm: u32,
}

/// A group of buttons in their order on the screen, one of them marked.
pub struct ButtonsHolder {
    pub buttons: Vec<MenuButtonAction>,
    pub selected: usize,
}

/// How a button is drawn: a marked button shows as pressed while it is
/// pressed and as hovered otherwise; an unmarked button is idle.
pub open spec fn display_of(interaction: Interaction, selected: bool) -> ButtonDisplay {
    if !selected {
        ButtonDisplay::Idle
    } else if interaction == Interaction::Pressed {
        ButtonDisplay::Pressed
    } else {
        ButtonDisplay::Hovered
    }
}

/// The option before `selected` among `len`, the last one before the first.
pub open spec fn previous_option(selected: int, len: int) -> int {
    if selected == 0 {
        len - 1
    } else {
        selected - 1
    }
}

/// The option after `selected` among `len`, the first one after the last.
pub open spec fn next_option(selected: int, len: int) -> int {
    if selected == len - 1 {
        0
    } else {
        selected + 1
    }
}

impl MenuInput {
    /// Up signals less down signals.
    pub open spec fn movement(self) -> int {
        (if self.key_up {
            1int
        } else {
            0int
        }) - (if self.key_down {
            1int
        } else {
            0int
        }) + self.pad_up - self.pad_down
    }

    /// A confirm signal was given.
    pub open spec fn confirms(self) -> bool {
        self.key_confirm || self.pad_confirm > 0
    }

    /// The device that the input makes the primary one: the gamepad if any
    /// gamepad gave a signal, else the keyboard if it gave one, else `held`.
    pub open spec fn device_after(self, held: ControlDevice) -> ControlDevice {
        if self.pad_up > 0 || self.pad_down > 0 || self.pad_confirm > 0 {
            ControlDevice::Gamepad
        } else if self.key_up || self.key_down || self.key_confirm {
            ControlDevice::Keyboard
        } else {
            held
        }
    }
}

impl ButtonsHolder {
    /// The marked option is one of the buttons, if there are any.
    pub open spec fn wf(&self) -> bool {
        self.buttons@.len() == 0 || self.selected < self.buttons@.len()
    }

    /// The marked option after the input moved the mark.
    pub open spec fn selected_after(&self, input: MenuInput) -> int {
        let len = self.buttons@.len() as int;
        if len == 0 {
            self.selected as int
        } else if input.movement() > 0 {
            previous_option(self.selected as int, len)
        } else if input.movement() < 0 {
            next_option(self.selected as int, len)
        } else {
            self.selected as int
        }
    }

    /// The action that the input confirms: that of the option marked before
    /// the input moved the mark.
    pub open spec fn confirmed(&self, input: MenuInput) -> Option<MenuButtonAction> {
        if input.confirms() && self.buttons@.len() > 0 {
            Some(self.buttons@[self.selected as int])
        } else {
            None
        }
    }

    /// The buttons of the main menu, the first one marked.
    pub fn main_menu() -> (m: ButtonsHolder)
        ensures
            m.buttons@ == seq![MenuButtonAction::Play, MenuButtonAction::Quit],
            m.selected == 0,
            m.wf(),
    {
        let mut buttons: Vec<MenuButtonAction> = Vec::new();
        buttons.push(MenuButtonAction::Play);
        buttons.push(MenuButtonAction::Quit);
        assert(buttons@ =~= seq![MenuButtonAction::Play, MenuButtonAction::Quit]);
        ButtonsHolder { buttons, selected: 0 }
    }

    /// The buttons of the pause menu, the first one marked.
    pub fn pause_menu() -> (m: ButtonsHolder)
        ensures
            m.buttons@ == seq![
                MenuButtonAction::Resume,
                MenuButtonAction::ToMenu,
                MenuButtonAction::Quit,
            ],
            m.selected == 0,
            m.wf(),
    {
        let mut buttons: Vec<MenuButtonAction> = Vec::new();
        buttons.push(MenuButtonAction::Resume);
        buttons.push(MenuButtonAction::ToMenu);
        buttons.push(MenuButtonAction::Quit);
        assert(buttons@ =~= seq![
            MenuButtonAction::Resume,
            MenuButtonAction::ToMenu,
            MenuButtonAction::Quit,
        ]);
        ButtonsHolder { buttons, selected: 0 }
    }

    /// A screen without buttons.
    pub fn no_buttons() -> (m: ButtonsHolder)
        ensures
            m.buttons@.len() == 0,
            m.selected == 0,
            m.wf(),
    {
        ButtonsHolder { buttons: Vec::new(), selected: 0 }
    }

    /// Moves the mark to the button under the pointer, if the pointer is
    /// the primary device and rests on a button of the group.
    pub fn button_react_to_mouse_system(&mut self, hovered: Option<usize>, device: ControlDevice)
        requires
            old(self).wf(),
        ensures
            final(self).wf(),
            final(self).buttons@ == old(self).buttons@,
            final(self).selected == match hovered {
                Some(i) if device == ControlDevice::Mouse && i < old(self).buttons@.len() => i,
                _ => old(self).selected,
            },
    {
        if let Some(i) = hovered {
            if matches!(device, ControlDevice::Mouse) && i < self.buttons.len() {
                self.selected = i;
            }
        }
    }

    /// Applies what keyboard and gamepads report: an upward signal moves
    /// the mark to the option before, a downward one to the option after,
    /// around the ends; a confirm signal presses the option that was marked.
    /// Any signal makes its device the primary one. Returns the action of
    /// the pressed option.
    pub fn button_react_to_keyboard_or_gamepad_system(
        &mut self,
        input: MenuInput,
        device: &mut ControlDevice,
    ) -> (pressed: Option<MenuButtonAction>)
        requires
            old(self).wf(),
        ensures
            final(self).wf(),
            final(self).buttons@ == old(self).buttons@,
            final(self).selected == old(self).selected_after(input),
            pressed == old(self).confirmed(input),
            *final(device) == input.device_after(*old(device)),
    {
        if input.key_up || input.key_down || input.key_confirm {
            *device = ControlDevice::Keyboard;
        }
        if input.pad_up > 0 || input.pad_down > 0 || input.pad_confirm > 0 {
            *device = ControlDevice::Gamepad;
        }
        let len: usize = self.buttons.len();
        if len == 0 {
            return None;
        }
        let pressed: Option<MenuButtonAction> = if input.key_confirm || input.pad_confirm > 0 {
            Some(self.buttons[self.selected])
        } else {
            None
        };
        let ups: u64 = input.pad_up as u64 + if input.key_up {
            1u64
        } else {
            0u64
        };
        let downs: u64 = input.pad_down as u64 + if input.key_down {
            1u64
        } else {
            0u64
        };
        if ups > downs {
            self.selected = if self.selected == 0 {
                len - 1
            } else {
                self.selected - 1
            };
        } else if ups < downs {
            self.selected = if self.selected == len - 1 {
                0
            } else {
                self.selected + 1
            };
        }
        pressed
    }

    /// The action of the button that the pointer pressed.
    pub fn button_pressed(&self, index: usize) -> (action: Option<MenuButtonAction>)
        ensures
            action == if index < self.buttons@.len() {
                Some(self.buttons@[index as int])
            } else {
                None
            },
    {
        if index < self.buttons.len() {
            Some(self.buttons[index])
        } else {
            None
        }
    }
}

/// How a button is drawn.
pub fn button_handle_display(interaction: Interaction, selected: bool) -> (display: ButtonDisplay)
    ensures
        display == display_of(interaction, selected),
{
    if !selected {
        ButtonDisplay::Idle
    } else if matches!(interaction, Interaction::Pressed) {
        ButtonDisplay::Pressed
    } else {
        ButtonDisplay::Hovered
    }
}

} // verus!
