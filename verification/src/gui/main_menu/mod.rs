//! The main menu's pages.
use vstd::prelude::*;

pub mod load_world;
pub mod new_world;

verus! {

/// The page of the main menu that shows.
#[derive(Debug, Clone, Copy, PartialEq, Eq, Structural)]
pub enum MainMenuState {
    Default,
    NewWorld,
    LoadWorld,
}

impl Default for MainMenuState {
    fn default() -> (s: MainMenuState)
        ensures
            s == MainMenuState::Default,
    {
        MainMenuState::Default
    }
}

} // verus!
