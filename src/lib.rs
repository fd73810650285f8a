//! Simulation core of a small arena game: a player circle steered by eight-way
//! keyboard input, a camera driven by the same input scheme, and a field of
//! food circles whose colours cycle over time.
//!
//! All quantities are exact integers. Lengths are measured in micro-units and
//! time in microseconds; a coordinate is held as `axial + diagonal * sqrt(1/2)`
//! so that diagonal motion stays exact.

pub mod camera;
pub mod circle;
pub mod clock;
pub mod direction;
pub mod entities;
pub mod game;
pub mod geometry;

pub mod game_controller;
pub mod game_data;
pub mod player_controller;

pub use camera::{Camera, CameraState, MovableCamera, CAMERA_SPEED};
pub use circle::{
    Circle, Rgba, DEFAULT_RADIUS, MAX_RANDOM_RADIUS, MIN_RANDOM_RADIUS, PHASE_PERIOD, SPAWN_EXTENT,
};
pub use clock::GameClock;
pub use direction::{heading_rules, Direction, DirectionalState, Guard, Heading, InputEvent};
pub use entities::{ControllableFood, ControllablePlayer, Food, FoodState, Player, PlayerState};
pub use game::Game;
pub use geometry::{Coord, Vector2, UNIT};
