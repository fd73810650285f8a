use vstd::prelude::*;
use crate::camera::{camera_moved, Camera, MovableCamera};
use crate::clock::GameClock;
use crate::direction::{applied, applied_all, InputEvent};
use crate::entities::{Food, Player};
use crate::game_controller::{self, food_cycled};
use crate::game_data::GameData;
use crate::geometry::Vector2;
use crate::player_controller::{self, player_updated};

verus! {

/// `after` is `before` with one key event applied to both the player's and
/// the camera's keys.
pub open spec fn event_applied(after: GameData, before: GameData, e: InputEvent) -> bool {
    &&& after.player == (Player { state: applied(before.player.state, e), ..before.player })
    &&& after.camera == (Camera { state: applied(before.camera.state, e), ..before.camera })
    &&& after.food@ == before.food@
    &&& after.circle_density == before.circle_density
}

/// `after` is `before` with a batch of key events applied in order to both
/// the player's and the camera's keys.
pub open spec fn events_applied(after: GameData, before: GameData, events: Seq<InputEvent>) -> bool {
    &&& after.player == (Player { state: applied_all(before.player.state, events), ..before.player })
    &&& after.camera == (Camera { state: applied_all(before.camera.state, events), ..before.camera })
    &&& after.food@ == before.food@
    &&& after.circle_density == before.circle_density
}

/// `after` is `before` one frame of `dt` microseconds later: the player and
/// the camera have moved, and the player and every food have advanced their
/// colour cycles.
pub open spec fn frame_played(after: GameData, before: GameData, dt: int) -> bool {
    &&& after.player == player_updated(before.player, dt)
    &&& after.camera == camera_moved(before.camera, dt)
    &&& food_cycled(after.food@, before.food@, dt)
    &&& after.circle_density == before.circle_density
}

/// A game session: the simulated world and the clock that paces it.
///
/// One frame is `update_time`, then the frame's key events through
/// `process_event` or `process_events`, then `play`.
pub struct Game {
    game_data: GameData,
    clock: GameClock,
}

impl Game {
    pub closed spec fn data(self) -> GameData {
        self.game_data
    }

    pub closed spec fn timer(self) -> GameClock {
        self.clock
    }

    /// A fresh session whose clock starts now.
    pub fn new() -> (r: Game)
        ensures
            r.data().fresh(),
            r.timer().total() == 0,
            r.timer().frame() == 0,
    {
        Game { game_data: GameData::new(), clock: GameClock::new() }
    }

    /// Reads the clock for a new frame; the world is left as it is.
    pub fn update_time(&mut self)
        ensures
            final(self).data() == old(self).data(),
            final(self).timer().total() >= old(self).timer().total(),
            final(self).timer().frame() == final(self).timer().total() - old(self).timer().total(),
    {
        self.clock.tick();
    }

    /// Applies one key event to the player's and the camera's keys.
    pub fn process_event(&mut self, event: InputEvent)
        ensures
            event_applied(final(self).data(), old(self).data(), event),
            final(self).timer() == old(self).timer(),
    {
        player_controller::process_event(&mut self.game_data.player, event);
        self.game_data.camera.mut_state().apply(event);
    }

    /// Applies a batch of key events in arrival order.
    pub fn process_events(&mut self, events: &Vec<InputEvent>)
        ensures
            events_applied(final(self).data(), old(self).data(), events@),
            final(self).timer() == old(self).timer(),
    {
        self.game_data.player.state.apply_all(events);
        self.game_data.camera.state.apply_all(events);
    }

    /// Moves the player and the camera and advances every colour cycle by
    /// the time of the last frame.
    pub fn play(&mut self)
        ensures
            frame_played(final(self).data(), old(self).data(), old(self).timer().frame() as int),
            final(self).timer() == old(self).timer(),
    {
        let dt = self.clock.elapsed_since_last();
        player_controller::update(&mut self.game_data.player, dt);
        self.game_data.camera.compute(dt);
        game_controller::update(&mut self.game_data, dt);
    }

    pub fn player(&self) -> (r: &Player)
        ensures
            *r == self.data().player,
    {
        &self.game_data.player
    }

    pub fn food(&self) -> (r: &Vec<Food>)
        ensures
            r@ == self.data().food@,
    {
        &self.game_data.food
    }

    pub fn camera_position(&self) -> (r: Vector2)
        ensures
            r == self.data().camera.position,
    {
        self.game_data.camera.position()
    }

    /// Microseconds that the last frame took.
    pub fn last_frame_elapsed(&self) -> (r: u64)
        ensures
            r == self.timer().frame(),
    {
        self.clock.elapsed_since_last()
    }

    /// Microseconds since the session started, as of the last frame.
    pub fn time_played(&self) -> (r: u64)
        ensures
            r == self.timer().total(),
    {
        self.clock.elapsed_since_start()
    }
}

} // verus!
