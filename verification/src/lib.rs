//! Verified game logic for a small cartridge-style retro arcade.
//!
//! The library holds the discrete rules of the console and its five carts:
//! the deterministic XorShift generator, the home-screen text and menu
//! navigation, the console's scene routing, and the grid, scoring, spawning
//! and state-machine rules of Snake, Pong, Breakout, SkiFree and the sketch
//! pad. Continuous quantities (positions, velocities, timers) and drawing are
//! left to the host that embeds the library.

pub mod breakout;
pub mod config;
pub mod console;
pub mod etch;
pub mod modes;
pub mod pong;
pub mod rng;
pub mod skifree;
pub mod snake;

