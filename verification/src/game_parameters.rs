//! The configuration of the player.

use crate::math::{Vec3, ONE_BITS, ZERO_BITS};
use vstd::prelude::*;

verus! {

/// Where the player starts, how large it is drawn, and whether it is drawn
/// with an image.
///
/// A value is made once, adjusted field by field where the defaults do not
/// suit, and handed to [`crate::app::create_app`].
#[derive(Clone, Copy, Debug, PartialEq, Eq, Structural)]
pub struct GameParameters {
    pub initial_player_position: Vec3,
    pub initial_player_scale: Vec3,
    pub use_texture: bool,
}

/// The default configuration: the player at the origin, at unit scale,
/// without an image.
pub open spec fn default_game_parameters() -> GameParameters {
    GameParameters {
        initial_player_position: Vec3::splat(ZERO_BITS),
        initial_player_scale: Vec3::splat(ONE_BITS),
        use_texture: false,
    }
}

/// Makes the default configuration.
pub fn create_default_game_parameters() -> (parameters: GameParameters)
    ensures
        parameters == default_game_parameters(),
{
    GameParameters {
        initial_player_position: Vec3::splat(ZERO_BITS),
        initial_player_scale: Vec3::splat(ONE_BITS),
        use_texture: false,
    }
}

} // verus!
