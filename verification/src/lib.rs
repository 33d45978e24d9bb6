//! Deterministic fixed-step simulation core of a "dodge the bouncing balls"
//! arcade game: a player dodges projectiles that it keeps firing itself,
//! that bounce off the edges of the viewport and off each other, and that
//! end the round when one of them touches the player.
//!
//! Every quantity is an integer in millionths of its unit: positions in
//! millionths of a pixel, times in microseconds, factors in millionths.
//! Sums and products saturate, quotients round toward zero, and the sine is
//! a rational approximation, so that the same inputs give the same state on
//! every machine.
//!
//! The modules, from the numbers up: `fixed`, `vector` and `wave` hold the
//! arithmetic; `display`, `clock`, `random`, `score`, `screenshake` and
//! `tracker` the resources; `entities`, `motion`, `player`, `bullets`,
//! `collision` and `particles` the entities and the systems that move
//! them; `state`, `menu`, `feedback`, `simulation` and `phases` the modes,
//! the menus and the frame; `laws` what holds of all of it.

pub mod bullets;
pub mod clock;
pub mod collision;
pub mod display;
pub mod entities;
pub mod feedback;
pub mod fixed;
pub mod laws;
pub mod menu;
pub mod motion;
pub mod particles;
pub mod phases;
pub mod player;
pub mod random;
pub mod score;
pub mod screenshake;
pub mod simulation;
pub mod state;
pub mod tracker;
pub mod vector;
pub mod wave;
