//! A headless description of a small sprite game: the configuration of its
//! player, the routine that spawns the player at startup, and the application
//! that the routine is registered in.
//!
//! Nothing here touches a window, a GPU or a file. The library decides what is
//! registered and what is spawned; a game engine carries the decisions out.
//!
//! - [`game_parameters`]: the configuration and its defaults.
//! - [`math`]: coordinates, held by bit pattern.
//! - [`assets`]: images and the handles to them.
//! - [`world`]: the bundles that are spawned, and the player among them.
//! - [`app`]: plugins, startup routines, the update cycle, and the questions
//!   that can be put to an application.
//! - [`game`]: what holds of the game's application throughout its life.

pub mod app;
pub mod assets;
pub mod game;
pub mod game_parameters;
pub mod math;
pub mod world;
