use vstd::prelude::*;
use rand::Rng;
use crate::geometry::{Coord, Vector2};

verus! {

/// Length of one colour cycle, in millionths: a phase runs from `0` up to
/// this value, which stands for `1.0`. A cycle lasts one second, so a step of
/// the phase is the elapsed time in microseconds.
pub const PHASE_PERIOD: u64 = 1_000_000;

/// Radius of a freshly made circle, in micro-units.
pub const DEFAULT_RADIUS: u64 = 50_000_000;

/// Random circles are placed with both coordinates in `[-SPAWN_EXTENT,
/// SPAWN_EXTENT)` micro-units.
pub const SPAWN_EXTENT: i64 = 300_000_000;

/// Random radii lie in `[MIN_RANDOM_RADIUS, MAX_RANDOM_RADIUS)` micro-units.
pub const MIN_RANDOM_RADIUS: i64 = 10_000_000;

pub const MAX_RANDOM_RADIUS: i64 = 100_000_000;

/// A colour with 8-bit red, green, blue and alpha channels.
#[derive(Clone, Copy, Debug, PartialEq, Eq)]
pub struct Rgba {
    pub r: u8,
    pub g: u8,
    pub b: u8,
    pub a: u8,
}

/// A circular entity: where it is, how large, and where it stands in its
/// colour cycle between `base_color` and `new_color`.
#[derive(Clone, Copy, Debug, PartialEq, Eq)]
pub struct Circle {
    pub position: Vector2,
    /// Radius in micro-units.
    pub radius: u64,
    /// Phase of the colour cycle, in millionths of a period.
    pub time: u64,
    pub base_color: Rgba,
    pub new_color: Rgba,
}

/// The circle after its colour cycle has advanced by `dt`: the phase grows by
/// `dt`; once it reaches a whole period it keeps only its remainder and the
/// two colours trade places, once, however many periods were passed.
pub open spec fn cycled(c: Circle, dt: int) -> Circle {
    let t = c.time + dt;
    if t >= PHASE_PERIOD {
        Circle {
            time: (t % PHASE_PERIOD as int) as u64,
            base_color: c.new_color,
            new_color: c.base_color,
            ..c
        }
    } else {
        Circle { time: t as u64, ..c }
    }
}

/// Relies on `rand::random`: a value drawn from the thread-local generator;
/// nothing is assumed of it. Used for colour channels, where every `u8` is
/// a valid value.
pub assume_specification<T>[ rand::random::<T> ]() -> (r: T)
    where
        rand::distributions::Standard: rand::distributions::Distribution<T>,
;

/// Relies on rand's `Rng::gen_range` on `thread_rng()`: a value in
/// `[low, high)`; it panics when `low >= high`, which `requires` rules out.
#[verifier::external_body]
fn random_in_range(low: i64, high: i64) -> (r: i64)
    requires
        low < high,
    ensures
        low <= r < high,
{
    rand::thread_rng().gen_range(low, high)
}

impl Circle {
    /// What a random circle satisfies: inside the spawn square, a radius
    /// within bounds, a phase within one period, opaque colours.
    pub open spec fn spawned(self) -> bool {
        &&& -SPAWN_EXTENT <= self.position.x.axial < SPAWN_EXTENT
        &&& -SPAWN_EXTENT <= self.position.y.axial < SPAWN_EXTENT
        &&& self.position.x.diagonal == 0
        &&& self.position.y.diagonal == 0
        &&& MIN_RANDOM_RADIUS <= self.radius < MAX_RANDOM_RADIUS
        &&& self.time < PHASE_PERIOD
        &&& self.base_color.a == 255
        &&& self.new_color.a == 255
    }

    /// A circle at the origin with the default radius, at the start of a
    /// cycle from black to white.
    pub open spec fn initial() -> Circle {
        Circle {
            position: Vector2::zero_spec(),
            radius: DEFAULT_RADIUS,
            time: 0,
            base_color: Rgba { r: 0, g: 0, b: 0, a: 255 },
            new_color: Rgba { r: 255, g: 255, b: 255, a: 255 },
        }
    }

    pub fn new() -> (r: Circle)
        ensures
            r == Circle::initial(),
    {
        Circle {
            position: Vector2::zero(),
            radius: DEFAULT_RADIUS,
            time: 0,
            base_color: Rgba { r: 0, g: 0, b: 0, a: 255 },
            new_color: Rgba { r: 255, g: 255, b: 255, a: 255 },
        }
    }

    /// A circle with random position, radius, phase and opaque colours, each
    /// drawn uniformly within the spawn bounds.
    pub fn new_randomized() -> (r: Circle)
        ensures
            r.spawned(),
    {
        let x = random_in_range(-SPAWN_EXTENT, SPAWN_EXTENT);
        let y = random_in_range(-SPAWN_EXTENT, SPAWN_EXTENT);
        let radius = random_in_range(MIN_RANDOM_RADIUS, MAX_RANDOM_RADIUS) as u64;
        let time = random_in_range(0, PHASE_PERIOD as i64) as u64;
        let base_color = Rgba { r: rand::random::<u8>(), g: rand::random::<u8>(), b: rand::random::<u8>(), a: 255 };
        let new_color = Rgba { r: rand::random::<u8>(), g: rand::random::<u8>(), b: rand::random::<u8>(), a: 255 };
        Circle::spawned_at(x, y, radius, time, base_color, new_color)
    }

    /// The circle that a spawn with these drawn values makes: centred at
    /// `(x, y)` micro-units with the given radius, phase and colours.
    pub fn spawned_at(x: i64, y: i64, radius: u64, time: u64, base_color: Rgba, new_color: Rgba) -> (r: Circle)
        requires
            -SPAWN_EXTENT <= x < SPAWN_EXTENT,
            -SPAWN_EXTENT <= y < SPAWN_EXTENT,
            MIN_RANDOM_RADIUS <= radius < MAX_RANDOM_RADIUS,
            time < PHASE_PERIOD,
            base_color.a == 255,
            new_color.a == 255,
        ensures
            r == (Circle {
                position: Vector2 { x: Coord { axial: x, diagonal: 0 }, y: Coord { axial: y, diagonal: 0 } },
                radius,
                time,
                base_color,
                new_color,
            }),
            r.spawned(),
    {
        Circle { position: Vector2::from_axial(x, y), radius, time, base_color, new_color }
    }

    /// Trades the two colour endpoints.
    pub fn swap_colors(&mut self)
        ensures
            *final(self) == (Circle { base_color: old(self).new_color, new_color: old(self).base_color, ..*old(self) }),
    {
        let temp = self.base_color;
        self.base_color = self.new_color;
        self.new_color = temp;
    }

    /// Advances the colour cycle by `time_delta` millionths of a period.
    pub fn update(&mut self, time_delta: u64)
        ensures
            *final(self) == cycled(*old(self), time_delta as int),
    {
        let t: u128 = self.time as u128 + time_delta as u128;
        if t >= PHASE_PERIOD as u128 {
            self.time = (t % PHASE_PERIOD as u128) as u64;
            self.swap_colors();
        } else {
            self.time = t as u64;
        }
    }
}

/// A cycle that reaches the end of its period swaps the colours exactly once
/// and keeps the fractional remainder of the phase, however large the step:
/// from phase `0`, a step of exactly one period leaves phase `0` and a step
/// of two and a half periods leaves phase one half, each with the colours
/// swapped a single time.
pub proof fn lemma_one_swap_per_wrap(c: Circle, dt: u64)
    requires
        c.time + dt >= PHASE_PERIOD,
    ensures
        cycled(c, dt as int).time == (c.time + dt) % (PHASE_PERIOD as int),
        cycled(c, dt as int).base_color == c.new_color,
        cycled(c, dt as int).new_color == c.base_color,
        cycled(c, dt as int).position == c.position,
        cycled(c, dt as int).radius == c.radius,
{
}

/// The phase stays normalized: a phase within one period is still within
/// one period after any step.
pub proof fn lemma_phase_stays_normalized(c: Circle, dt: u64)
    requires
        c.time < PHASE_PERIOD,
    ensures
        cycled(c, dt as int).time < PHASE_PERIOD,
{
}

} // verus!
