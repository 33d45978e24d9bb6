//! The simulation as a whole: every resource and entity in one context,
//! the transitions between the modes, and the phases of a frame.

use vstd::prelude::*;
use crate::bullets::FIRST_SHOT_DELAY;
use crate::display::{metrics_of, DisplayProperties, PLAYER_SIZE};
use crate::entities::{
    bounce_wf, bullets_wf, trail_wf, BounceParticle, Bullet, Player, TrailParticle,
};
use crate::menu::ButtonsHolder;
use crate::player::{spawn_player, spawn_player_aim};
use crate::random::{chacha8_word, RandomSource};
use crate::score::reset_score;
use crate::screenshake::SCREENSHAKE_MAX;
use crate::state::{AppState, ControlDevice, MenuButtonAction};
use crate::vector::Vec2;

verus! {

/// Everything that the simulation keeps.
pub struct Simulation {
    pub state: AppState,
    pub time_paused: bool,
    pub score: u64,
    pub screenshake: i64,
    pub primary_device: ControlDevice,
    pub display: DisplayProperties,
    pub player: Option<Player>,
    pub aim: Option<Vec2>,
    pub bullets: Vec<Bullet>,
    pub trail_particles: Vec<TrailParticle>,
    pub bounce_particles: Vec<BounceParticle>,
    pub random: RandomSource,
    pub menu: ButtonsHolder,
}

/// The simulation as a value: the collections as sequences.
pub struct SimulationView {
    pub state: AppState,
    pub time_paused: bool,
    pub score: u64,
    pub screenshake: i64,
    pub primary_device: ControlDevice,
    pub display: DisplayProperties,
    pub player: Option<Player>,
    pub aim: Option<Vec2>,
    pub bullets: Seq<Bullet>,
    pub trail_particles: Seq<TrailParticle>,
    pub bounce_particles: Seq<BounceParticle>,
    pub random: RandomSource,
    pub menu_buttons: Seq<MenuButtonAction>,
    pub menu_selected: usize,
}

/// What the pause controls report in one frame: whether a pause key went
/// down, and whether a pause button went down on a gamepad.
#[derive(Clone, Copy, Debug, PartialEq, Eq, Structural)]
pub struct PauseInput {
    pub key: bool,
    pub pad: bool,
}

/// What the controls report that acknowledge the end of a round: a key, a
/// gamepad button, a mouse button.
#[derive(Clone, Copy, Debug, PartialEq, Eq, Structural)]
pub struct ContinueInput {
    pub key: bool,
    pub pad: bool,
    pub mouse: bool,
}

/// The buttons that a mode shows.
pub open spec fn menu_of(state: AppState) -> Seq<MenuButtonAction> {
    match state {
        AppState::Menu => seq![MenuButtonAction::Play, MenuButtonAction::Quit],
        AppState::Paused => seq![
            MenuButtonAction::Resume,
            MenuButtonAction::ToMenu,
            MenuButtonAction::Quit,
        ],
        _ => Seq::empty(),
    }
}

/// The player at the start of a round.
pub open spec fn fresh_player() -> Player {
    Player { position: Vec2 { x: 0, y: 0 }, bullet_timer: FIRST_SHOT_DELAY }
}

/// The aim at the start of a round.
pub open spec fn fresh_aim() -> Vec2 {
    Vec2 { x: PLAYER_SIZE, y: PLAYER_SIZE }
}

impl PauseInput {
    /// A pause control was used.
    pub open spec fn given(self) -> bool {
        self.key || self.pad
    }

    /// The primary device after the input: a key makes it the keyboard,
    /// else a button the gamepad.
    pub open spec fn device_after(self, held: ControlDevice) -> ControlDevice {
        if self.key {
            ControlDevice::Keyboard
        } else if self.pad {
            ControlDevice::Gamepad
        } else {
            held
        }
    }
}

impl ContinueInput {
    /// One of the controls was used.
    pub open spec fn given(self) -> bool {
        self.key || self.pad || self.mouse
    }

    /// The primary device after the input: a mouse button makes it the
    /// mouse, else a key the keyboard, else a button the gamepad.
    pub open spec fn device_after(self, held: ControlDevice) -> ControlDevice {
        if self.mouse {
            ControlDevice::Mouse
        } else if self.key {
            ControlDevice::Keyboard
        } else if self.pad {
            ControlDevice::Gamepad
        } else {
            held
        }
    }
}

impl SimulationView {
    /// The invariant of the simulation: the virtual clock stands still in
    /// the modes that hold it and in no other; player and aim exist during
    /// a round and at no other time; outside a round there is no projectile
    /// and no score; the menu is that of the mode; every entity is well
    /// formed.
    pub open spec fn wf(self) -> bool {
        &&& self.display.wf()
        &&& 0 <= self.screenshake <= SCREENSHAKE_MAX
        &&& self.time_paused == self.state.holds_time()
        &&& self.state.in_round() ==> self.player is Some && self.aim is Some
        &&& !self.state.in_round() ==> self.player is None && self.aim is None
            && self.bullets.len() == 0 && self.score == 0
        &&& self.player matches Some(p) ==> p.wf()
        &&& self.aim matches Some(a) ==> a.in_world()
        &&& bullets_wf(self.bullets)
        &&& trail_wf(self.trail_particles)
        &&& bounce_wf(self.bounce_particles)
        &&& self.menu_buttons == menu_of(self.state)
        &&& self.menu_buttons.len() == 0 || self.menu_selected < self.menu_buttons.len()
    }

    /// In the menu: no player, no aim, no projectile, the score at zero,
    /// the virtual clock running, the first button of the main menu marked.
    pub open spec fn in_menu(self) -> SimulationView {
        SimulationView {
            state: AppState::Menu,
            time_paused: false,
            score: 0,
            player: None,
            aim: None,
            bullets: Seq::empty(),
            menu_buttons: menu_of(AppState::Menu),
            menu_selected: 0,
            ..self
        }
    }

    /// At the start of a round: a fresh player and a fresh aim.
    pub open spec fn in_new_round(self) -> SimulationView {
        SimulationView {
            state: AppState::InGame,
            time_paused: false,
            player: Some(fresh_player()),
            aim: Some(fresh_aim()),
            menu_buttons: Seq::empty(),
            menu_selected: 0,
            ..self
        }
    }

    /// Paused: the virtual clock stands still, and the first button of the
    /// pause menu is marked.
    pub open spec fn in_pause(self) -> SimulationView {
        SimulationView {
            state: AppState::Paused,
            time_paused: true,
            menu_buttons: menu_of(AppState::Paused),
            menu_selected: 0,
            ..self
        }
    }

    /// Back in the round after a pause: the virtual clock runs again.
    pub open spec fn in_resumed_round(self) -> SimulationView {
        SimulationView {
            state: AppState::InGame,
            time_paused: false,
            menu_buttons: Seq::empty(),
            menu_selected: 0,
            ..self
        }
    }

    /// After the player was hit: the virtual clock stands still.
    pub open spec fn in_game_over(self) -> SimulationView {
        SimulationView {
            state: AppState::GameOver,
            time_paused: true,
            menu_buttons: Seq::empty(),
            menu_selected: 0,
            ..self
        }
    }

    /// The simulation in the mode `next`, with what entering it brings
    /// about. A change that the modes do not allow leaves it as it is.
    pub open spec fn moved_to(self, next: AppState) -> SimulationView {
        match (self.state, next) {
            (AppState::Uninitialized, AppState::Menu) => self.in_menu(),
            (AppState::Paused, AppState::Menu) => self.in_menu(),
            (AppState::GameOver, AppState::Menu) => self.in_menu(),
            (AppState::Menu, AppState::InGame) => self.in_new_round(),
            (AppState::Paused, AppState::InGame) => self.in_resumed_round(),
            (AppState::InGame, AppState::Paused) => self.in_pause(),
            (AppState::InGame, AppState::GameOver) => self.in_game_over(),
            _ => self,
        }
    }

    /// After the pause controls: the device is noted, and the mode is
    /// toggled if a control was used.
    pub open spec fn after_pausing(self, input: PauseInput) -> SimulationView {
        let noted = SimulationView {
            primary_device: input.device_after(self.primary_device),
            ..self
        };
        if input.given() {
            noted.moved_to(self.state.toggled())
        } else {
            noted
        }
    }

    /// After the controls that acknowledge the end of a round; they count
    /// in that mode only.
    pub open spec fn after_continue(self, input: ContinueInput) -> SimulationView {
        if self.state != AppState::GameOver {
            self
        } else {
            let noted = SimulationView {
                primary_device: input.device_after(self.primary_device),
                ..self
            };
            if input.given() {
                noted.moved_to(AppState::Menu)
            } else {
                noted
            }
        }
    }

    /// After a menu button was pressed.
    pub open spec fn after_action(self, action: MenuButtonAction) -> SimulationView {
        self.moved_to(self.state.after_action(action))
    }

    /// A pressed button ends the application: `Quit`, where a menu shows.
    pub open spec fn quits(self, action: MenuButtonAction) -> bool {
        action == MenuButtonAction::Quit && self.state.shows_menu()
    }
}

impl View for Simulation {
    type V = SimulationView;

    /// The simulation with its collections as sequences.
    open spec fn view(&self) -> SimulationView {
        SimulationView {
            state: self.state,
            time_paused: self.time_paused,
            score: self.score,
            screenshake: self.screenshake,
            primary_device: self.primary_device,
            display: self.display,
            player: self.player,
            aim: self.aim,
            bullets: self.bullets@,
            trail_particles: self.trail_particles@,
            bounce_particles: self.bounce_particles@,
            random: self.random,
            menu_buttons: self.menu.buttons@,
            menu_selected: self.menu.selected,
        }
    }
}

impl Simulation {
    /// The invariant of the simulation.
    pub open spec fn wf(&self) -> bool {
        self@.wf()
    }

    /// The simulation before its first frame: nothing in it, the viewport
    /// at its default size, the random words those of `seed`.
    pub fn new(seed: u64) -> (sim: Simulation)
        ensures
            sim.wf(),
            sim.state == AppState::Uninitialized,
            !sim.time_paused,
            sim.score == 0,
            sim.screenshake == 0,
            sim.primary_device == ControlDevice::Mouse,
            sim.display == metrics_of(640, 480),
            sim.player is None,
            sim.aim is None,
            sim.bullets@.len() == 0,
            sim.trail_particles@.len() == 0,
            sim.bounce_particles@.len() == 0,
            forall|k: nat| #[trigger] sim.random.word(k) == chacha8_word(seed, k),
    {
        let sim = Simulation {
            state: AppState::Uninitialized,
            time_paused: false,
            score: 0,
            screenshake: 0,
            primary_device: ControlDevice::Mouse,
            display: DisplayProperties::from_pixels(640, 480),
            player: None,
            aim: None,
            bullets: Vec::new(),
            trail_particles: Vec::new(),
            bounce_particles: Vec::new(),
            random: RandomSource::new(seed),
            menu: ButtonsHolder::no_buttons(),
        };
        assert(sim@.menu_buttons =~= menu_of(AppState::Uninitialized));
        sim
    }

    /// Changes the mode and brings about what entering the new mode asks
    /// for.
    pub(crate) fn set_state(&mut self, next: AppState)
        requires
            old(self).wf(),
        ensures
            final(self)@ == old(self)@.moved_to(next),
            final(self).wf(),
    {
        match (self.state, next) {
            (AppState::Uninitialized, AppState::Menu)
            | (AppState::Paused, AppState::Menu)
            | (AppState::GameOver, AppState::Menu) => {
                self.state = AppState::Menu;
                self.time_paused = false;
                reset_score(&mut self.score);
                self.player = None;
                self.aim = None;
                self.bullets = Vec::new();
                self.menu = ButtonsHolder::main_menu();
            },
            (AppState::Menu, AppState::InGame) => {
                self.state = AppState::InGame;
                self.time_paused = false;
                self.player = Some(spawn_player());
                self.aim = Some(spawn_player_aim());
                self.menu = ButtonsHolder::no_buttons();
            },
            (AppState::Paused, AppState::InGame) => {
                self.state = AppState::InGame;
                self.time_paused = false;
                self.menu = ButtonsHolder::no_buttons();
            },
            (AppState::InGame, AppState::Paused) => {
                self.state = AppState::Paused;
                self.time_paused = true;
                self.menu = ButtonsHolder::pause_menu();
            },
            (AppState::InGame, AppState::GameOver) => {
                self.state = AppState::GameOver;
                self.time_paused = true;
                self.menu = ButtonsHolder::no_buttons();
            },
            _ => {},
        }
        assert(self@.menu_buttons =~= old(self)@.moved_to(next).menu_buttons);
        assert(self@.bullets =~= old(self)@.moved_to(next).bullets);
    }

    /// Ends the start-up: the application enters the menu.
    pub fn app_init(&mut self)
        requires
            old(self).wf(),
        ensures
            final(self).wf(),
            final(self)@ == if old(self).state == AppState::Uninitialized {
                old(self)@.in_menu()
            } else {
                old(self)@
            },
    {
        if matches!(self.state, AppState::Uninitialized) {
            self.set_state(AppState::Menu);
        }
    }

    /// Applies the pause controls: the game pauses, a paused game goes on,
    /// and in every other mode nothing changes but the primary device.
    pub fn handle_game_pausing(&mut self, input: PauseInput)
        requires
            old(self).wf(),
        ensures
            final(self).wf(),
            final(self)@ == old(self)@.after_pausing(input),
    {
        if input.key {
            self.primary_device = ControlDevice::Keyboard;
        } else if input.pad {
            self.primary_device = ControlDevice::Gamepad;
        }
        if input.key || input.pad {
            match self.state {
                AppState::InGame => {
                    self.set_state(AppState::Paused);
                },
                AppState::Paused => {
                    self.set_state(AppState::InGame);
                },
                _ => {},
            }
        }
    }

    /// Applies the controls that acknowledge the end of a round: the
    /// application goes back to the menu.
    pub fn handle_game_over_continue(&mut self, input: ContinueInput)
        requires
            old(self).wf(),
        ensures
            final(self).wf(),
            final(self)@ == old(self)@.after_continue(input),
    {
        if !matches!(self.state, AppState::GameOver) {
            return ;
        }
        if input.mouse {
            self.primary_device = ControlDevice::Mouse;
        } else if input.key {
            self.primary_device = ControlDevice::Keyboard;
        } else if input.pad {
            self.primary_device = ControlDevice::Gamepad;
        }
        if input.key || input.pad || input.mouse {
            self.set_state(AppState::Menu);
        }
    }

    /// Carries out the action of a pressed menu button. Returns whether the
    /// application is to end.
    pub fn menu_action(&mut self, action: MenuButtonAction) -> (quit: bool)
        requires
            old(self).wf(),
        ensures
            final(self).wf(),
            final(self)@ == old(self)@.after_action(action),
            quit == old(self)@.quits(action),
    {
        match (self.state, action) {
            (AppState::Menu, MenuButtonAction::Play) => {
                self.set_state(AppState::InGame);
                false
            },
            (AppState::Paused, MenuButtonAction::Resume) => {
                self.set_state(AppState::InGame);
                false
            },
            (AppState::Paused, MenuButtonAction::ToMenu) => {
                self.set_state(AppState::Menu);
                false
            },
            (AppState::Menu, MenuButtonAction::Quit) | (AppState::Paused, MenuButtonAction::Quit) => {
                true
            },
            _ => false,
        }
    }
}

} // verus!
