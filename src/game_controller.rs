use vstd::prelude::*;
use crate::circle::cycled;
use crate::entities::Food;
use crate::game_data::GameData;

verus! {

/// `after` is `before` with every food's colour cycle advanced by `dt`.
pub open spec fn food_cycled(after: Seq<Food>, before: Seq<Food>, dt: int) -> bool {
    &&& after.len() == before.len()
    &&& forall|i: int|
        0 <= i < before.len() ==> #[trigger] after[i] == (Food { circle: cycled(before[i].circle, dt), ..before[i] })
}

/// Advances the colour cycle of every food circle by `time_delta`.
pub fn update(game_data: &mut GameData, time_delta: u64)
    ensures
        food_cycled(final(game_data).food@, old(game_data).food@, time_delta as int),
        final(game_data).player == old(game_data).player,
        final(game_data).camera == old(game_data).camera,
        final(game_data).circle_density == old(game_data).circle_density,
{
    let ghost before = game_data.food@;
    let mut i: usize = 0;
    while i < game_data.food.len()
        invariant
            i <= game_data.food@.len(),
            game_data.food@.len() == before.len(),
            game_data.player == old(game_data).player,
            game_data.camera == old(game_data).camera,
            game_data.circle_density == old(game_data).circle_density,
            before == old(game_data).food@,
            forall|k: int|
                0 <= k < i ==> #[trigger] game_data.food@[k] == (Food {
                    circle: cycled(before[k].circle, time_delta as int),
                    ..before[k]
                }),
            forall|k: int| i <= k < before.len() ==> #[trigger] game_data.food@[k] == before[k],
        decreases game_data.food@.len() - i,
    {
        let mut food = game_data.food[i];
        food.circle.update(time_delta);
        game_data.food.set(i, food);
        i = i + 1;
    }
}

} // verus!
