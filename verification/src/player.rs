//! The marker of the entity that the player steers.

use vstd::prelude::*;

verus! {

/// Marks the entity that the player steers. It carries no data.
#[derive(Clone, Copy, Debug, PartialEq, Eq, Structural)]
pub struct Player {}

impl Player {
    pub fn new() -> (player: Player)
        ensures
            player == (Player {  }),
    {
        Player {  }
    }
}

} // verus!
