use vstd::prelude::*;
use crate::geometry::{Coord, Vector2};

verus! {

/// One of the four movement bindings.
#[derive(Clone, Copy, Debug, PartialEq, Eq)]
pub enum Direction {
    Up,
    Right,
    Down,
    Left,
}

/// A discrete key event for one binding.
#[derive(Clone, Copy, Debug, PartialEq, Eq)]
pub enum InputEvent {
    KeyPressed(Direction),
    KeyReleased(Direction),
}

/// One of the eight compass headings; East is the +x axis and angles grow
/// counter-clockwise, so North is +y.
#[derive(Clone, Copy, Debug, PartialEq, Eq)]
pub enum Heading {
    East,
    NorthEast,
    North,
    NorthWest,
    West,
    SouthWest,
    South,
    SouthEast,
}

/// The movement keys currently held. Opposite keys may be held together.
#[derive(Clone, Copy, Debug, PartialEq, Eq)]
pub struct DirectionalState {
    pub moving_up: bool,
    pub moving_right: bool,
    pub moving_down: bool,
    pub moving_left: bool,
}

/// Condition on the four keys: `Some(b)` asks the key to be `b`, `None` takes
/// either.
#[derive(Clone, Copy, Debug, PartialEq, Eq)]
pub struct Guard {
    pub up: Option<bool>,
    pub right: Option<bool>,
    pub down: Option<bool>,
    pub left: Option<bool>,
}

pub open spec fn flag_admits(want: Option<bool>, held: bool) -> bool {
    match want {
        Some(b) => b == held,
        None => true,
    }
}

impl Guard {
    pub open spec fn admits(self, s: DirectionalState) -> bool {
        &&& flag_admits(self.up, s.moving_up)
        &&& flag_admits(self.right, s.moving_right)
        &&& flag_admits(self.down, s.moving_down)
        &&& flag_admits(self.left, s.moving_left)
    }

    pub fn matches(&self, s: &DirectionalState) -> (r: bool)
        ensures
            r == self.admits(*s),
    {
        flag_matches(self.up, s.moving_up) && flag_matches(self.right, s.moving_right)
            && flag_matches(self.down, s.moving_down) && flag_matches(self.left, s.moving_left)
    }
}

fn flag_matches(want: Option<bool>, held: bool) -> (r: bool)
    ensures
        r == flag_admits(want, held),
{
    match want {
        Some(b) => b == held,
        None => true,
    }
}

/// The heading that the held keys ask for: the first matching row of this
/// table, diagonals before single axes; `None` where the keys cancel out or
/// none is held.
pub open spec fn heading_of(s: DirectionalState) -> Option<Heading> {
    match (s.moving_up, s.moving_right, s.moving_down, s.moving_left) {
        (true, true, false, false) => Some(Heading::NorthEast),
        (true, false, false, true) => Some(Heading::NorthWest),
        (false, false, true, true) => Some(Heading::SouthWest),
        (false, true, true, false) => Some(Heading::SouthEast),
        (_, true, _, false) => Some(Heading::East),
        (true, _, false, _) => Some(Heading::North),
        (_, false, _, true) => Some(Heading::West),
        (false, _, true, _) => Some(Heading::South),
        _ => None,
    }
}

/// The signs `(dx, dy)` of a heading's components.
pub open spec fn heading_signs(h: Heading) -> (int, int) {
    match h {
        Heading::East => (1, 0),
        Heading::NorthEast => (1, 1),
        Heading::North => (0, 1),
        Heading::NorthWest => (-1, 1),
        Heading::West => (-1, 0),
        Heading::SouthWest => (-1, -1),
        Heading::South => (0, -1),
        Heading::SouthEast => (1, -1),
    }
}

/// `speed * cos` (or `sin`) for a component of sign `sign` on a heading that
/// is diagonal or not: `speed * sqrt(1/2)` on a diagonal, `speed` on an axis.
pub open spec fn component(sign: int, diagonal: bool, speed: int) -> Coord {
    if diagonal {
        Coord { axial: 0, diagonal: (sign * speed) as i64 }
    } else {
        Coord { axial: (sign * speed) as i64, diagonal: 0 }
    }
}

/// The velocity of magnitude `speed` along `h`, or zero without a heading.
pub open spec fn velocity_for(h: Option<Heading>, speed: int) -> Vector2 {
    match h {
        Some(h) => {
            let (dx, dy) = heading_signs(h);
            let diagonal = dx != 0 && dy != 0;
            Vector2 { x: component(dx, diagonal, speed), y: component(dy, diagonal, speed) }
        },
        None => Vector2::zero_spec(),
    }
}

/// The state after one key event: a press sets its flag, a release clears it.
pub open spec fn applied(s: DirectionalState, e: InputEvent) -> DirectionalState {
    let (d, held) = match e {
        InputEvent::KeyPressed(d) => (d, true),
        InputEvent::KeyReleased(d) => (d, false),
    };
    match d {
        Direction::Up => DirectionalState { moving_up: held, ..s },
        Direction::Right => DirectionalState { moving_right: held, ..s },
        Direction::Down => DirectionalState { moving_down: held, ..s },
        Direction::Left => DirectionalState { moving_left: held, ..s },
    }
}

/// The state after a batch of events, applied in arrival order.
pub open spec fn applied_all(s: DirectionalState, events: Seq<InputEvent>) -> DirectionalState
    decreases events.len(),
{
    if events.len() == 0 {
        s
    } else {
        applied(applied_all(s, events.drop_last()), events.last())
    }
}

/// The rows of the heading table, in the order in which they are tried.
pub open spec fn heading_rules_spec() -> Seq<(Guard, Heading)> {
    seq![
        (Guard { up: Some(true), right: Some(true), down: Some(false), left: Some(false) }, Heading::NorthEast),
        (Guard { up: Some(true), right: Some(false), down: Some(false), left: Some(true) }, Heading::NorthWest),
        (Guard { up: Some(false), right: Some(false), down: Some(true), left: Some(true) }, Heading::SouthWest),
        (Guard { up: Some(false), right: Some(true), down: Some(true), left: Some(false) }, Heading::SouthEast),
        (Guard { up: None, right: Some(true), down: None, left: Some(false) }, Heading::East),
        (Guard { up: Some(true), right: None, down: Some(false), left: None }, Heading::North),
        (Guard { up: None, right: Some(false), down: None, left: Some(true) }, Heading::West),
        (Guard { up: Some(false), right: None, down: Some(true), left: None }, Heading::South),
    ]
}

/// The heading of the first row from `i` on whose guard admits `s`.
pub open spec fn first_match(rules: Seq<(Guard, Heading)>, s: DirectionalState, i: int) -> Option<Heading>
    decreases rules.len() - i,
{
    if i < 0 || i >= rules.len() {
        None
    } else if rules[i].0.admits(s) {
        Some(rules[i].1)
    } else {
        first_match(rules, s, i + 1)
    }
}

/// The heading table as an ordered list of (guard, heading) rows.
pub fn heading_rules() -> (r: [(Guard, Heading); 8])
    ensures
        r@ == heading_rules_spec(),
{
    let r = [
        (Guard { up: Some(true), right: Some(true), down: Some(false), left: Some(false) }, Heading::NorthEast),
        (Guard { up: Some(true), right: Some(false), down: Some(false), left: Some(true) }, Heading::NorthWest),
        (Guard { up: Some(false), right: Some(false), down: Some(true), left: Some(true) }, Heading::SouthWest),
        (Guard { up: Some(false), right: Some(true), down: Some(true), left: Some(false) }, Heading::SouthEast),
        (Guard { up: None, right: Some(true), down: None, left: Some(false) }, Heading::East),
        (Guard { up: Some(true), right: None, down: Some(false), left: None }, Heading::North),
        (Guard { up: None, right: Some(false), down: None, left: Some(true) }, Heading::West),
        (Guard { up: Some(false), right: None, down: Some(true), left: None }, Heading::South),
    ];
    assert(r@ =~= heading_rules_spec());
    r
}

/// The ordered table and the heading table agree on every state.
proof fn lemma_rules_match_table(s: DirectionalState)
    ensures
        first_match(heading_rules_spec(), s, 0) == heading_of(s),
{
    reveal_with_fuel(first_match, 9);
}

impl DirectionalState {
    pub open spec fn released() -> DirectionalState {
        DirectionalState { moving_up: false, moving_right: false, moving_down: false, moving_left: false }
    }

    /// No key held.
    pub fn new() -> (r: DirectionalState)
        ensures
            r == DirectionalState::released(),
    {
        DirectionalState { moving_up: false, moving_right: false, moving_down: false, moving_left: false }
    }

    /// Applies one key event.
    pub fn apply(&mut self, event: InputEvent)
        ensures
            *final(self) == applied(*old(self), event),
    {
        let held = match event {
            InputEvent::KeyPressed(_) => true,
            InputEvent::KeyReleased(_) => false,
        };
        let d = match event {
            InputEvent::KeyPressed(d) => d,
            InputEvent::KeyReleased(d) => d,
        };
        match d {
            Direction::Up => self.moving_up = held,
            Direction::Right => self.moving_right = held,
            Direction::Down => self.moving_down = held,
            Direction::Left => self.moving_left = held,
        }
    }

    /// Applies a batch of events in arrival order, so a later event for a key
    /// wins over an earlier one.
    pub fn apply_all(&mut self, events: &Vec<InputEvent>)
        ensures
            *final(self) == applied_all(*old(self), events@),
    {
        let ghost start = *self;
        let mut i: usize = 0;
        while i < events.len()
            invariant
                i <= events.len(),
                *self == applied_all(start, events@.take(i as int)),
            decreases events.len() - i,
        {
            assert(events@.take(i as int + 1).drop_last() =~= events@.take(i as int));
            self.apply(events[i]);
            i = i + 1;
        }
        assert(events@.take(events.len() as int) =~= events@);
    }

    /// Looks the held keys up in the heading table, row by row.
    pub fn heading(&self) -> (r: Option<Heading>)
        ensures
            r == heading_of(*self),
    {
        let rules = heading_rules();
        proof {
            lemma_rules_match_table(*self);
        }
        let mut i: usize = 0;
        while i < 8
            invariant
                i <= 8,
                rules@ == heading_rules_spec(),
                first_match(rules@, *self, i as int) == heading_of(*self),
            decreases 8 - i,
        {
            let (guard, heading) = rules[i];
            if guard.matches(self) {
                return Some(heading);
            }
            i = i + 1;
        }
        None
    }

    /// The velocity of magnitude `speed` (units per second) along the
    /// heading of the held keys, or zero.
    pub fn velocity(&self, speed: u32) -> (r: Vector2)
        ensures
            r == velocity_for(heading_of(*self), speed as int),
    {
        let s = speed as i64;
        let zero = Coord { axial: 0, diagonal: 0 };
        let axis = Coord { axial: s, diagonal: 0 };
        let back = Coord { axial: -s, diagonal: 0 };
        let diag = Coord { axial: 0, diagonal: s };
        let diag_back = Coord { axial: 0, diagonal: -s };
        match self.heading() {
            Some(Heading::East) => Vector2 { x: axis, y: zero },
            Some(Heading::NorthEast) => Vector2 { x: diag, y: diag },
            Some(Heading::North) => Vector2 { x: zero, y: axis },
            Some(Heading::NorthWest) => Vector2 { x: diag_back, y: diag },
            Some(Heading::West) => Vector2 { x: back, y: zero },
            Some(Heading::SouthWest) => Vector2 { x: diag_back, y: diag_back },
            Some(Heading::South) => Vector2 { x: zero, y: back },
            Some(Heading::SouthEast) => Vector2 { x: diag, y: diag_back },
            None => Vector2 { x: zero, y: zero },
        }
    }
}

/// `1`, `0` or `-1`: the net input along one axis from its two opposite keys.
pub open spec fn net(toward: bool, away: bool) -> int {
    (if toward { 1int } else { 0int }) - (if away { 1int } else { 0int })
}

/// The velocity of size `speed` whose components have the signs `dx` and `dy`:
/// `speed` on an axis, `speed * sqrt(1/2)` per component on a diagonal, zero
/// for `(0, 0)`.
pub open spec fn net_velocity(dx: int, dy: int, speed: int) -> Vector2 {
    let diagonal = dx != 0 && dy != 0;
    Vector2 { x: component(dx, diagonal, speed), y: component(dy, diagonal, speed) }
}

/// The heading table is complete and follows the net input: for each of the
/// sixteen key combinations the velocity points along `(right - left, up -
/// down)` with magnitude `speed`, and is zero exactly where both axes cancel
/// or no key is held.
pub proof fn lemma_direction_table(s: DirectionalState, speed: u32)
    ensures
        velocity_for(heading_of(s), speed as int) == net_velocity(
            net(s.moving_right, s.moving_left),
            net(s.moving_up, s.moving_down),
            speed as int,
        ),
        heading_of(s) is None <==> (s.moving_right == s.moving_left && s.moving_up == s.moving_down),
{
}

/// Every non-zero velocity has magnitude exactly `speed`: its squared length
/// has rational part `speed^2` (twice that is `2 speed^2`) and no `sqrt(2)`
/// part.
pub proof fn lemma_speed_magnitude(s: DirectionalState, speed: u32)
    requires
        heading_of(s) is Some,
    ensures
        velocity_for(heading_of(s), speed as int).norm_sq_parts() == (2 * speed * speed, 0int),
{
    let v = speed as int;
    let vel = velocity_for(heading_of(s), v);
    let a = Coord { axial: v as i64, diagonal: 0 };
    let b = Coord { axial: -v as i64, diagonal: 0 };
    let c = Coord { axial: 0, diagonal: v as i64 };
    let d = Coord { axial: 0, diagonal: -v as i64 };
    assert(a.twice_square_rational() == 2 * v * v && a.square_irrational() == 0);
    assert(b.twice_square_rational() == 2 * v * v && b.square_irrational() == 0) by (nonlinear_arith)
        requires b == (Coord { axial: -v as i64, diagonal: 0 }), 0 <= v <= u32::MAX;
    assert(c.twice_square_rational() == v * v && c.square_irrational() == 0);
    assert(d.twice_square_rational() == v * v && d.square_irrational() == 0) by (nonlinear_arith)
        requires d == (Coord { axial: 0, diagonal: -v as i64 }), 0 <= v <= u32::MAX;
    assert(Coord::zero_spec().twice_square_rational() == 0);
    assert(2 * v * v == v * v + v * v) by (nonlinear_arith);
    match heading_of(s).unwrap() {
        Heading::East => assert(vel.x == a && vel.y == Coord::zero_spec()),
        Heading::NorthEast => assert(vel.x == c && vel.y == c),
        Heading::North => assert(vel.x == Coord::zero_spec() && vel.y == a),
        Heading::NorthWest => assert(vel.x == d && vel.y == c),
        Heading::West => assert(vel.x == b && vel.y == Coord::zero_spec()),
        Heading::SouthWest => assert(vel.x == d && vel.y == d),
        Heading::South => assert(vel.x == Coord::zero_spec() && vel.y == b),
        Heading::SouthEast => assert(vel.x == c && vel.y == d),
    }
}

/// Key events are idempotent: applying the same event twice leaves the state
/// that applying it once does.
pub proof fn lemma_event_idempotent(s: DirectionalState, e: InputEvent)
    ensures
        applied(applied(s, e), e) == applied(s, e),
        e == InputEvent::KeyPressed(Direction::Up) ==> applied(s, e).moving_up,
{
}

/// Holding both vertical keys and no horizontal one gives the zero velocity,
/// so the position stays put whatever the elapsed time.
pub proof fn lemma_opposed_keys_hold_still(s: DirectionalState, speed: u32, p: Vector2, dt: u64)
    requires
        s.moving_up && s.moving_down && !s.moving_right && !s.moving_left,
    ensures
        velocity_for(heading_of(s), speed as int) == Vector2::zero_spec(),
        p.advanced(velocity_for(heading_of(s), speed as int), dt as int) == p,
{
}

} // verus!
