//! Character model and skill-check resolution for a tabletop role-playing
//! game.
//!
//! The library builds a [`Hero`] from plain attribute and skill entries,
//! derives the secondary attributes (health, stamina, astral reserve), and
//! resolves skill checks against three attributes with modifiers and three
//! twenty-sided dice.

pub mod commands;
pub mod error;
pub mod hero;
pub mod output;
pub mod roll;
pub mod text;
pub mod tracker;

pub use hero::Hero;
pub use hero::Quality;
