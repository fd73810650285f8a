use vstd::prelude::*;
use crate::circle::{cycled, Circle};
use crate::direction::{applied, heading_of, lemma_opposed_keys_hold_still, velocity_for, InputEvent};
use crate::entities::{ControllablePlayer, Player, PlayerState};
use crate::geometry::{lemma_integration_linear, Vector2};

verus! {

/// Speed of the player, in units per second.
pub const PLAYER_SPEED: u32 = 200;

/// The player after one key event.
pub open spec fn player_after_event(p: Player, e: InputEvent) -> Player {
    Player { state: applied(p.state, e), ..p }
}

/// The player after moving for `dt` microseconds at the velocity its keys
/// ask for.
pub open spec fn player_moved(p: Player, dt: int) -> Player {
    Player {
        circle: Circle {
            position: p.circle.position.advanced(velocity_for(heading_of(p.state), PLAYER_SPEED as int), dt),
            ..p.circle
        },
        ..p
    }
}

/// The player after one frame of `dt` microseconds: it moves, then its
/// colour cycle advances.
pub open spec fn player_updated(p: Player, dt: int) -> Player {
    let moved = player_moved(p, dt);
    Player { circle: cycled(moved.circle, dt), ..moved }
}

/// Applies one key event to the player's keys.
pub fn process_event(player: &mut Player, event: InputEvent)
    ensures
        *final(player) == player_after_event(*old(player), event),
{
    player.mut_state().apply(event);
}

/// Advances the player by one frame of `time_delta` microseconds.
pub fn update(player: &mut Player, time_delta: u64)
    ensures
        *final(player) == player_updated(*old(player), time_delta as int),
{
    update_position(player, time_delta);
    player.circle.update(time_delta);
}

fn update_position(player: &mut Player, time_delta: u64)
    ensures
        *final(player) == player_moved(*old(player), time_delta as int),
{
    let velocity = player_speed(&player.state);
    player.circle.position = player.circle.position.integrate(velocity, time_delta);
}

/// The player's velocity for the keys it holds.
pub fn player_speed(player_state: &PlayerState) -> (r: Vector2)
    ensures
        r == velocity_for(heading_of(*player_state), PLAYER_SPEED as int),
{
    player_state.velocity(PLAYER_SPEED)
}

/// Moving the player for `dt1` and then for `dt2` with the same keys lands
/// where moving it for `dt1 + dt2` does, as long as neither position leaves
/// the representable range.
pub proof fn lemma_player_motion_linear(p: Player, dt1: u64, dt2: u64)
    requires
        dt1 + dt2 <= u64::MAX,
        p.circle.position.fits_after(velocity_for(heading_of(p.state), PLAYER_SPEED as int), dt1 as int),
        p.circle.position.fits_after(velocity_for(heading_of(p.state), PLAYER_SPEED as int), dt1 + dt2),
    ensures
        player_moved(player_moved(p, dt1 as int), dt2 as int) == player_moved(p, dt1 + dt2),
{
    let v = velocity_for(heading_of(p.state), PLAYER_SPEED as int);
    lemma_integration_linear(p.circle.position, v, dt1, dt2);
}

/// A player holding both vertical keys and no horizontal one stays where it
/// is, whatever the elapsed time.
pub proof fn lemma_player_opposed_keys_hold_still(p: Player, dt: u64)
    requires
        p.state.moving_up && p.state.moving_down && !p.state.moving_right && !p.state.moving_left,
    ensures
        player_moved(p, dt as int) == p,
{
    lemma_opposed_keys_hold_still(p.state, PLAYER_SPEED, p.circle.position, dt);
}

} // verus!
