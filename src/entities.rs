use vstd::prelude::*;
use crate::circle::Circle;
use crate::direction::DirectionalState;

verus! {

/// The keys that steer the player.
pub type PlayerState = DirectionalState;

/// The player: a circle steered by the keys it holds.
#[derive(Clone, Copy, Debug, PartialEq, Eq)]
pub struct Player {
    pub circle: Circle,
    pub state: PlayerState,
}

/// Food carries no control state of its own.
#[derive(Clone, Copy, Debug, PartialEq, Eq)]
pub struct FoodState {}

/// A food circle: placed at random, it only cycles its colours.
#[derive(Clone, Copy, Debug, PartialEq, Eq)]
pub struct Food {
    pub circle: Circle,
    pub state: FoodState,
}

/// Access to the player's control state.
pub trait ControllablePlayer {
    fn mut_state(&mut self) -> &mut PlayerState;
}

/// Access to a food's control state.
pub trait ControllableFood {
    fn mut_state(&mut self) -> &mut FoodState;
}

impl Player {
    /// A player at the origin holding no key, with a circle of the default
    /// radius cycling from black to white.
    pub open spec fn initial() -> Player {
        Player { circle: Circle::initial(), state: DirectionalState::released() }
    }

    pub fn new() -> (r: Player)
        ensures
            r == Player::initial(),
    {
        Player { circle: Circle::new(), state: DirectionalState::new() }
    }

}

impl ControllablePlayer for Player {
    fn mut_state(&mut self) -> (r: &mut PlayerState)
        ensures
            *r == old(self).state,
            *final(self) == (Player { state: *final(r), ..*old(self) }),
    {
        &mut self.state
    }
}

impl Food {
    /// A food circle drawn at random within the spawn bounds.
    pub fn new() -> (r: Food)
        ensures
            r.circle.spawned(),
    {
        Food { circle: Circle::new_randomized(), state: FoodState {} }
    }
}

impl ControllableFood for Food {
    fn mut_state(&mut self) -> (r: &mut FoodState)
        ensures
            *r == old(self).state,
            *final(self) == (Food { state: *final(r), ..*old(self) }),
    {
        &mut self.state
    }
}

} // verus!
