use vstd::prelude::*;

verus! {

/// The stages of one update: reading the input, detecting a crate in the
/// player's way, moving crates and moving the player.
#[derive(Debug, Hash, PartialEq, Eq, Clone, Copy, Structural)]
pub enum SokobanStages {
    Input,
    MovementPushable,
    MovementPlayer,
    PushableDetection,
}

} // verus!
