//! The phases of a frame: which systems run in which mode, and in which
//! order.

use vstd::prelude::*;
use crate::bullets::{
    fired_bullet, fires, move_bouncers, moved_bouncers, player_after_shot, spawn_bullet,
};
use crate::clock::{virtual_delta, virtual_time};
use crate::collision::{
    all_bursts, bounce_bullets, bounce_count, bounced, count_kills, kill_count,
};
use crate::display::metrics_of;
use crate::fixed::abs_spec;
use crate::entities::Player;
use crate::feedback::{push_cues, repeated, SoundCue};
use crate::menu::{next_option, previous_option, MenuInput};
use crate::particles::{
    aged_bursts, aged_trail, handle_bounce_particles, handle_trail_particles,
    spawn_bullet_trail, trail_spawned, trail_ticked,
};
use crate::player::{
    any_aiming, clamp_player, clamp_player_aim, clamped_into, move_player, move_player_aim,
    moved_aim, moved_player, mover_device, MoveInput,
};
use crate::score::{handle_score, score_after};
use crate::screenshake::{
    add_screenshake, dampened, handle_screenshake, shake_offset, shaken, SCREENSHAKE_ON_BOUNCE,
    SCREENSHAKE_ON_DEATH, SCREENSHAKE_ON_SHOOT,
};
use crate::simulation::{Simulation, SimulationView};
use crate::state::{AppState, ControlDevice, MenuButtonAction};
use crate::tracker::{any_pointer_moved, check_for_mouse_input};
use crate::vector::Vec2;

verus! {

impl SimulationView {
    /// The distance below which two bodies touch.
    pub open spec fn reach(self) -> int {
        self.display.collision_distance()
    }

    /// The number of projectiles that touch the player.
    pub open spec fn kills(self) -> nat {
        match self.player {
            Some(p) => kill_count(self.bullets, p.position, self.reach()),
            None => 0,
        }
    }

    /// After the contacts of one step were resolved, in the game: every
    /// projectile that touches the player adds to the shake and ends the
    /// round; every pair of projectiles that bounces flies apart, adds to
    /// the shake and throws out a burst. The random source of the result is
    /// left open here.
    pub open spec fn after_collision(self) -> SimulationView {
        if self.state != AppState::InGame {
            self
        } else {
            let hit = SimulationView {
                bullets: bounced(self.bullets, self.reach()),
                bounce_particles: self.bounce_particles + all_bursts(
                    self.bullets,
                    self.reach(),
                    self.random,
                ),
                screenshake: shaken(
                    shaken(self.screenshake as int, SCREENSHAKE_ON_DEATH as int, self.kills() as int),
                    SCREENSHAKE_ON_BOUNCE as int,
                    bounce_count(self.bullets, self.reach()) as int,
                ) as i64,
                ..self
            };
            if self.kills() > 0 {
                hit.in_game_over()
            } else {
                hit
            }
        }
    }

    /// The number of random words that the contacts of one step use up.
    pub open spec fn words_drawn(self) -> nat {
        if self.state != AppState::InGame {
            0
        } else {
            all_bursts(self.bullets, self.reach(), self.random).len()
        }
    }

    /// The sounds that the contacts of one step ask for.
    pub open spec fn collision_cues(self) -> Seq<SoundCue> {
        if self.state != AppState::InGame {
            Seq::empty()
        } else {
            repeated(SoundCue::Death, self.kills()) + repeated(
                SoundCue::Bounce,
                bounce_count(self.bullets, self.reach()),
            )
        }
    }
}

impl Simulation {
    /// Resolves the contacts of one step, in the game only: the player
    /// against every projectile, and every pair of projectiles. Returns the
    /// sounds that are to be played.
    pub fn handle_bullet_collision(&mut self) -> (cues: Vec<SoundCue>)
        requires
            old(self).wf(),
        ensures
            final(self).wf(),
            final(self)@ == (SimulationView {
                random: final(self).random,
                ..old(self)@.after_collision()
            }),
            forall|k: nat| #[trigger]
                final(self).random.word(k) == old(self).random.word(k + old(self)@.words_drawn()),
            cues@ == old(self)@.collision_cues(),
            old(self).state == AppState::InGame && old(self)@.kills() > 0 ==> final(self).state
                == AppState::GameOver && final(self).time_paused,
    {
        let mut cues: Vec<SoundCue> = Vec::new();
        if !matches!(self.state, AppState::InGame) {
            assert(cues@ =~= old(self)@.collision_cues());
            assert forall|k: nat| #[trigger]
                self.random.word(k) == old(self).random.word(k + old(self)@.words_drawn()) by {
                assert(k + 0 == k);
            }
            return cues;
        }
        let reach: i64 = self.display.touch_distance();
        let player: Player = self.player.unwrap();
        let kills: usize = count_kills(&self.bullets, player.position, reach);
        let bounces: usize = bounce_bullets(
            &mut self.bullets,
            reach,
            &mut self.random,
            &mut self.bounce_particles,
        );
        add_screenshake(&mut self.screenshake, SCREENSHAKE_ON_DEATH, kills);
        add_screenshake(&mut self.screenshake, SCREENSHAKE_ON_BOUNCE, bounces);
        push_cues(&mut cues, SoundCue::Death, kills);
        push_cues(&mut cues, SoundCue::Bounce, bounces);
        if kills > 0 {
            self.set_state(AppState::GameOver);
        }
        assert(cues@ =~= old(self)@.collision_cues());
        assert(self@.menu_buttons =~= old(self)@.after_collision().menu_buttons);
        cues
    }
}

/// What the controls report for one fixed step: the direction keys and the
/// movement stick of every gamepad.
pub struct FixedInput {
    pub keys: MoveInput,
    pub move_sticks: Vec<Vec2>,
}

/// What the controls report for one frame: the motion of the pointer since
/// the last frame and the aim stick of every gamepad.
pub struct FrameInput {
    pub pointer: Vec2,
    pub aim_sticks: Vec<Vec2>,
}

impl SimulationView {
    /// After the player was moved and player and aim were kept inside the
    /// viewport, in the game only.
    pub open spec fn after_steering(
        self,
        keys: MoveInput,
        move_sticks: Seq<Vec2>,
        dt: u32,
    ) -> SimulationView {
        match (self.state, self.player, self.aim) {
            (AppState::InGame, Some(p), Some(a)) => SimulationView {
                player: Some(
                    Player {
                        position: clamped_into(
                            moved_player(p.position, keys, move_sticks, self.display, dt),
                            self.display,
                            self.display.radius(),
                        ),
                        bullet_timer: p.bullet_timer,
                    },
                ),
                aim: Some(clamped_into(a, self.display, 0)),
                primary_device: mover_device(keys, move_sticks, self.primary_device),
                ..self
            },
            _ => self,
        }
    }

    /// After pointer and aim sticks moved the aim, in the game only. An aim
    /// stick beyond its dead zone makes the gamepad the primary device.
    pub open spec fn after_aiming(
        self,
        pointer: Vec2,
        aim_sticks: Seq<Vec2>,
        dt: u32,
    ) -> SimulationView {
        match (self.state, self.player, self.aim) {
            (AppState::InGame, Some(p), Some(a)) => SimulationView {
                aim: Some(moved_aim(a, p.position, pointer, aim_sticks, self.display, dt)),
                primary_device: if any_aiming(aim_sticks, aim_sticks.len() as int) {
                    ControlDevice::Gamepad
                } else {
                    self.primary_device
                },
                ..self
            },
            _ => self,
        }
    }

    /// After every projectile flew one step.
    pub open spec fn after_flight(self, dt: u32) -> SimulationView {
        SimulationView { bullets: moved_bouncers(self.bullets, self.display, dt), ..self }
    }

    /// After every burst particle aged and flew one step.
    pub open spec fn after_burst_flight(self, dt: u32) -> SimulationView {
        SimulationView {
            bounce_particles: aged_bursts(
                self.bounce_particles,
                self.bounce_particles.len() as int,
                self.display,
                dt,
            ),
            ..self
        }
    }

    /// The simulation as the contacts of a fixed step find it: steered and
    /// flown.
    pub open spec fn before_collision(
        self,
        keys: MoveInput,
        move_sticks: Seq<Vec2>,
        dt: u32,
    ) -> SimulationView {
        self.after_steering(keys, move_sticks, dt).after_flight(dt)
    }

    /// After one fixed step of `dt` microseconds. While the virtual clock
    /// stands still nothing moves. Else the systems run in this order: the
    /// player, the bounds of player and aim, the flight of the projectiles,
    /// the contacts, the flight of the burst particles. The random source of the result is
    /// left open here.
    pub open spec fn after_fixed_update(
        self,
        keys: MoveInput,
        move_sticks: Seq<Vec2>,
        dt: u32,
    ) -> SimulationView {
        if self.time_paused {
            self
        } else {
            self.before_collision(keys, move_sticks, dt).after_collision().after_burst_flight(dt)
        }
    }

    /// The time that the virtual clock moves on while the real clock moves
    /// on by `dt`.
    pub open spec fn virtual_delta(self, dt: u32) -> u32 {
        virtual_time(self.time_paused, dt)
    }

    /// A shot is fired within the next `dt` microseconds of the game.
    pub open spec fn shoots(self, dt: u32) -> bool {
        match (self.state, self.player, self.aim) {
            (AppState::InGame, Some(p), Some(a)) => fires(p, a, dt),
            _ => false,
        }
    }

    /// After the shot and the score of one frame, in the game only: the
    /// cooldown runs on, a shot that is fired adds its projectile and its
    /// shake, and the time is added to the score.
    pub open spec fn after_shot(self, dt: u32) -> SimulationView {
        match (self.state, self.player, self.aim) {
            (AppState::InGame, Some(p), Some(a)) => SimulationView {
                player: Some(player_after_shot(p, a, self.score, dt)),
                bullets: if fires(p, a, dt) {
                    self.bullets.push(fired_bullet(p, a, self.display))
                } else {
                    self.bullets
                },
                screenshake: if fires(p, a, dt) {
                    shaken(self.screenshake as int, SCREENSHAKE_ON_SHOOT as int, 1) as i64
                } else {
                    self.screenshake
                },
                score: score_after(self.score, dt) as u64,
                ..self
            },
            _ => self,
        }
    }

    /// After the trails of one frame: the trail particles age and the
    /// spent ones go, the trail timers run on, and the projectiles whose
    /// interval ended leave new particles.
    pub open spec fn after_trails(self, dt: u32) -> SimulationView {
        SimulationView {
            bullets: trail_ticked(self.bullets, dt),
            trail_particles: aged_trail(
                self.trail_particles,
                self.trail_particles.len() as int,
                dt,
            ) + trail_spawned(self.bullets, self.bullets.len() as int, dt),
            ..self
        }
    }

    /// After the shake died away for `dt` microseconds.
    pub open spec fn after_shake(self, dt: u32) -> SimulationView {
        SimulationView { screenshake: dampened(self.screenshake as int, dt) as i64, ..self }
    }

    /// After the systems of one frame that go by the clocks, `dt`
    /// microseconds of real time on: the aim, the shot and the score, then
    /// the trails, all by the virtual clock, then the shake by the real one.
    pub open spec fn after_update(
        self,
        pointer: Vec2,
        aim_sticks: Seq<Vec2>,
        dt: u32,
    ) -> SimulationView {
        let v = self.virtual_delta(dt);
        self.after_aiming(pointer, aim_sticks, v).after_shot(v).after_trails(v).after_shake(dt)
    }

    /// After the menu systems of one frame, where a menu shows: the
    /// pointer moves the mark, then keyboard and gamepads move it, then the
    /// button that the pointer pressed and the one that was confirmed are
    /// carried out.
    pub open spec fn after_menu(
        self,
        input: MenuInput,
        hovered: Option<usize>,
        clicked: Option<usize>,
    ) -> SimulationView {
        if !self.state.shows_menu() {
            self
        } else {
            let pointed = match hovered {
                Some(i) if self.primary_device == ControlDevice::Mouse && i
                    < self.menu_buttons.len() => i,
                _ => self.menu_selected,
            };
            let len = self.menu_buttons.len() as int;
            let marked = SimulationView {
                menu_selected: (if input.movement() > 0 {
                    previous_option(pointed as int, len)
                } else if input.movement() < 0 {
                    next_option(pointed as int, len)
                } else {
                    pointed as int
                }) as usize,
                primary_device: input.device_after(self.primary_device),
                ..self
            };
            let first = match clicked {
                Some(i) if i < self.menu_buttons.len() => marked.after_action(self.menu_buttons[i as int]),
                _ => marked,
            };
            if input.confirms() {
                first.after_action(self.menu_buttons[pointed as int])
            } else {
                first
            }
        }
    }

    /// The menu systems of one frame end the application.
    pub open spec fn menu_quits(
        self,
        input: MenuInput,
        hovered: Option<usize>,
        clicked: Option<usize>,
    ) -> bool {
        if !self.state.shows_menu() {
            false
        } else {
            let pointed = match hovered {
                Some(i) if self.primary_device == ControlDevice::Mouse && i
                    < self.menu_buttons.len() => i,
                _ => self.menu_selected,
            };
            let by_click = match clicked {
                Some(i) if i < self.menu_buttons.len() => self.menu_buttons[i as int]
                    == MenuButtonAction::Quit,
                _ => false,
            };
            let after_click = match clicked {
                Some(i) if i < self.menu_buttons.len() => self.state.after_action(
                    self.menu_buttons[i as int],
                ),
                _ => self.state,
            };
            by_click || (input.confirms() && after_click.shows_menu()
                && self.menu_buttons[pointed as int] == MenuButtonAction::Quit)
        }
    }
}

impl Simulation {
    /// Takes over the size of the window if a resize was observed.
    pub fn resize_screen_bounds(&mut self, resize_events: usize, width: u32, height: u32)
        requires
            old(self).wf(),
        ensures
            final(self).wf(),
            final(self)@ == (SimulationView {
                display: if resize_events > 0 {
                    metrics_of(width, height)
                } else {
                    old(self).display
                },
                ..old(self)@
            }),
    {
        self.display.resize_screen_bounds(resize_events, width, height);
    }

    /// Makes the pointer the primary device if it moved enough in this
    /// frame.
    pub fn check_for_mouse_input(&mut self, motions: &Vec<Vec2>, dt: u32)
        requires
            old(self).wf(),
        ensures
            final(self).wf(),
            final(self)@ == (SimulationView {
                primary_device: if any_pointer_moved(motions@, motions@.len() as int, dt) {
                    ControlDevice::Mouse
                } else {
                    old(self).primary_device
                },
                ..old(self)@
            }),
    {
        check_for_mouse_input(&mut self.primary_device, motions, dt);
    }

    /// Runs the menu systems of one frame. Returns whether the application
    /// is to end.
    pub fn menu_systems(
        &mut self,
        input: MenuInput,
        hovered: Option<usize>,
        clicked: Option<usize>,
    ) -> (quit: bool)
        requires
            old(self).wf(),
        ensures
            final(self).wf(),
            final(self)@ == old(self)@.after_menu(input, hovered, clicked),
            quit == old(self)@.menu_quits(input, hovered, clicked),
    {
        if !self.state.menu_active() {
            return false;
        }
        self.menu.button_react_to_mouse_system(hovered, self.primary_device);
        let pressed: Option<MenuButtonAction> = match clicked {
            Some(i) => self.menu.button_pressed(i),
            None => None,
        };
        let confirmed: Option<MenuButtonAction> =
            self.menu.button_react_to_keyboard_or_gamepad_system(input, &mut self.primary_device);
        let mut quit: bool = false;
        if let Some(action) = pressed {
            if self.menu_action(action) {
                quit = true;
            }
        }
        if let Some(action) = confirmed {
            if self.menu_action(action) {
                quit = true;
            }
        }
        quit
    }

    /// Runs one fixed step of `dt` microseconds. Returns the sounds that
    /// are to be played.
    pub fn fixed_update(&mut self, input: &FixedInput, dt: u32) -> (cues: Vec<SoundCue>)
        requires
            old(self).wf(),
        ensures
            final(self).wf(),
            final(self)@ == (SimulationView {
                random: final(self).random,
                ..old(self)@.after_fixed_update(input.keys, input.move_sticks@, dt)
            }),
            old(self).time_paused ==> cues@.len() == 0 && final(self).random == old(self).random,
            !old(self).time_paused ==> cues@ == old(self)@.before_collision(
                input.keys,
                input.move_sticks@,
                dt,
            ).collision_cues(),
            !old(self).time_paused ==> forall|k: nat| #[trigger]
                final(self).random.word(k) == old(self).random.word(
                    k + old(self)@.before_collision(
                        input.keys,
                        input.move_sticks@,
                        dt,
                    ).words_drawn(),
                ),
            !old(self).time_paused && old(self).state == AppState::InGame ==> ({
                &&& final(self).player matches Some(p)
                &&& abs_spec(p.position.x as int) <= old(self).display.half_w - old(
                    self,
                ).display.radius()
                &&& abs_spec(p.position.y as int) <= old(self).display.half_h - old(
                    self,
                ).display.radius()
            }),
    {
        if self.time_paused {
            return Vec::new();
        }
        if matches!(self.state, AppState::InGame) {
            let mut player: Player = self.player.unwrap();
            let mut aim: Vec2 = self.aim.unwrap();
            move_player(
                &mut player,
                input.keys,
                &input.move_sticks,
                &mut self.primary_device,
                &self.display,
                dt,
            );
            clamp_player(&mut player, &self.display);
            clamp_player_aim(&mut aim, &self.display);
            self.player = Some(player);
            self.aim = Some(aim);
        }
        move_bouncers(&mut self.bullets, &self.display, dt);
        assert(self@ == old(self)@.before_collision(input.keys, input.move_sticks@, dt));
        let cues: Vec<SoundCue> = self.handle_bullet_collision();
        handle_bounce_particles(&mut self.bounce_particles, &self.display, dt);
        cues
    }

    /// Runs the systems of one frame that go by the clocks: `dt`
    /// microseconds of real time have passed, `elapsed` in all. Returns the
    /// sounds that are to be played and the offset of the camera.
    pub fn update(&mut self, input: &FrameInput, dt: u32, elapsed: u64) -> (out: (
        Vec<SoundCue>,
        Vec2,
    ))
        requires
            old(self).wf(),
        ensures
            final(self).wf(),
            final(self)@ == old(self)@.after_update(input.pointer, input.aim_sticks@, dt),
            out.0@ == if old(self)@.after_aiming(
                input.pointer,
                input.aim_sticks@,
                old(self)@.virtual_delta(dt),
            ).shoots(old(self)@.virtual_delta(dt)) {
                seq![SoundCue::Shoot]
            } else {
                Seq::empty()
            },
            out.1 == shake_offset(final(self).screenshake as int, elapsed, final(self).display),
    {
        let mut cues: Vec<SoundCue> = Vec::new();
        let virtual_dt: u32 = virtual_delta(self.time_paused, dt);
        if matches!(self.state, AppState::InGame) {
            let mut player: Player = self.player.unwrap();
            let mut aim: Vec2 = self.aim.unwrap();
            let aimed: bool = move_player_aim(
                &mut aim,
                player.position,
                input.pointer,
                &input.aim_sticks,
                &self.display,
                virtual_dt,
            );
            if aimed {
                self.primary_device = ControlDevice::Gamepad;
            }
            self.aim = Some(aim);
            let fired: bool = spawn_bullet(
                &mut player,
                aim,
                &self.display,
                self.score,
                virtual_dt,
                &mut self.bullets,
            );
            self.player = Some(player);
            if fired {
                add_screenshake(&mut self.screenshake, SCREENSHAKE_ON_SHOOT, 1);
                cues.push(SoundCue::Shoot);
            }
            handle_score(&mut self.score, virtual_dt);
        }
        handle_trail_particles(&mut self.trail_particles, virtual_dt);
        spawn_bullet_trail(&mut self.bullets, &mut self.trail_particles, virtual_dt);
        let offset: Vec2 = handle_screenshake(&mut self.screenshake, dt, elapsed, &self.display);
        assert(cues@ =~= if old(self)@.after_aiming(
            input.pointer,
            input.aim_sticks@,
            old(self)@.virtual_delta(dt),
        ).shoots(old(self)@.virtual_delta(dt)) {
            seq![SoundCue::Shoot]
        } else {
            Seq::empty()
        });
        (cues, offset)
    }
}

} // verus!
