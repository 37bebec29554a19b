//! Tags that single out the entities the controllers act on.
use vstd::prelude::*;

verus! {

/// Tags the camera-boom pivot, whose rotation the camera rig owns.
#[derive(PartialEq, Eq, Structural, Clone, Copy, Debug, Default)]
pub struct CameraBoomHandle;

/// Tags the avatar's body, which the locomotion controller drives.
#[derive(PartialEq, Eq, Structural, Clone, Copy, Debug, Default)]
pub struct CharacterBody;

} // verus!
