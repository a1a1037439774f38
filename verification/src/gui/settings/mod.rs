//! The player's settings.
pub mod keybinds;
pub mod lang;
