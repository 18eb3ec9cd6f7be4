//! A turn-based text adventure: an intent parser for free-form player input,
//! the shared game state, and the location state machine that a front end drives.

pub mod flags;
pub mod game;
pub mod grammar;
pub mod input;
pub mod inventory;
pub mod parser;
pub mod pattern;
pub mod rooms;
pub mod text;
