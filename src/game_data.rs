use vstd::prelude::*;
use crate::camera::Camera;
use crate::entities::{Food, Player};

verus! {

/// Number of food circles in a session.
pub const FOOD_DENSITY: u32 = 6;

/// Everything that the simulation moves: the player, the camera and the food.
#[derive(Debug)]
pub struct GameData {
    pub player: Player,
    pub food: Vec<Food>,
    pub camera: Camera,
    pub circle_density: u32,
}

impl GameData {
    /// A fresh session: the player and the camera at the origin holding no
    /// key, and `FOOD_DENSITY` food circles placed at random.
    pub open spec fn fresh(self) -> bool {
        &&& self.player == Player::initial()
        &&& self.camera == Camera::initial()
        &&& self.circle_density == FOOD_DENSITY
        &&& self.food@.len() == FOOD_DENSITY
        &&& forall|i: int| 0 <= i < self.food@.len() ==> (#[trigger] self.food@[i]).circle.spawned()
    }

    pub fn new() -> (r: GameData)
        ensures
            r.fresh(),
    {
        let mut food: Vec<Food> = Vec::new();
        let mut i: u32 = 0;
        while i < FOOD_DENSITY
            invariant
                i <= FOOD_DENSITY,
                food@.len() == i,
                forall|k: int| 0 <= k < food@.len() ==> (#[trigger] food@[k]).circle.spawned(),
            decreases FOOD_DENSITY - i,
        {
            food.push(Food::new());
            i = i + 1;
        }
        GameData { player: Player::new(), food, camera: Camera::new(), circle_density: FOOD_DENSITY }
    }
}

} // verus!
