//! Things in the world the player can interact with.
use vstd::prelude::*;
use crate::text::owned;

verus! {

/// Something the player can interact with: the translation key of the
/// prompt shown near it, and whether it was activated this frame.
pub struct Interactable {
    pub message: String,
    pub just_pressed: bool,
}

impl Default for Interactable {
    /// The generic prompt, not activated.
    fn default() -> (i: Interactable)
        ensures
            i.message@ == "player.actions.interact"@,
            !i.just_pressed,
    {
        Interactable { message: owned("player.actions.interact"), just_pressed: false }
    }
}

impl Interactable {
    /// An interactable with the prompt `message`, not activated.
    pub fn new(message: &str) -> (i: Interactable)
        ensures
            i.message@ == message@,
            !i.just_pressed,
    {
        Interactable { message: owned(message), just_pressed: false }
    }

    /// Whether it was activated this frame.
    pub fn just_pressed(&self) -> (r: bool)
        ensures
            r == self.just_pressed,
    {
        self.just_pressed
    }

    /// Records whether it is activated this frame.
    pub fn set_just_pressed(&mut self, pressed: bool)
        ensures
            final(self).just_pressed == pressed,
            final(self).message == old(self).message,
    {
        self.just_pressed = pressed;
    }
}

} // verus!
