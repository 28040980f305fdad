//! The game proper: the avatar, the obstacles, the world that holds them and
//! the lifecycle around it.

use vstd::prelude::*;

pub mod obstacles;
pub mod red_hat_boy;
pub mod red_hat_boy_states;
pub mod scene;
pub mod state_machine;
pub mod walk;
pub mod walk_the_dog;

verus! {

/// Height of the playing field in pixels.
pub const HEIGHT: i16 = 600;

} // verus!
