use vstd::prelude::*;

verus! {

/// Number of micro-units in one world unit.
pub const UNIT: i64 = 1_000_000;

/// The value `v` saturated to the range of `i64`.
pub open spec fn saturate(v: int) -> int {
    if v < i64::MIN {
        i64::MIN as int
    } else if v > i64::MAX {
        i64::MAX as int
    } else {
        v
    }
}

/// One coordinate, exactly `axial + diagonal * sqrt(1/2)`.
///
/// Components along the eight compass headings are integers in this form: a
/// heading at 45 degrees has `cos = sin = sqrt(1/2)`, which is carried in the
/// `diagonal` part instead of being rounded.
#[derive(Clone, Copy, Debug, PartialEq, Eq)]
pub struct Coord {
    pub axial: i64,
    pub diagonal: i64,
}

/// A 2D vector: a position in micro-units, or a velocity in units per second.
#[derive(Clone, Copy, Debug, PartialEq, Eq)]
pub struct Vector2 {
    pub x: Coord,
    pub y: Coord,
}

impl Coord {
    pub open spec fn zero_spec() -> Coord {
        Coord { axial: 0, diagonal: 0 }
    }

    /// `self + rate * dt`, each part saturated to `i64`.
    pub open spec fn advanced(self, rate: Coord, dt: int) -> Coord {
        Coord {
            axial: saturate(self.axial + rate.axial * dt) as i64,
            diagonal: saturate(self.diagonal + rate.diagonal * dt) as i64,
        }
    }

    /// Whether `self + rate * dt` is representable without saturation.
    pub open spec fn fits_after(self, rate: Coord, dt: int) -> bool {
        &&& i64::MIN <= self.axial + rate.axial * dt <= i64::MAX
        &&& i64::MIN <= self.diagonal + rate.diagonal * dt <= i64::MAX
    }

    /// Twice the rational part of the square of this coordinate.
    ///
    /// `(a + b sqrt(1/2))^2 = (2a^2 + b^2) / 2 + a b sqrt(2)`.
    pub open spec fn twice_square_rational(self) -> int {
        2 * self.axial * self.axial + self.diagonal * self.diagonal
    }

    /// The coefficient of `sqrt(2)` in the square of this coordinate.
    pub open spec fn square_irrational(self) -> int {
        self.axial * self.diagonal
    }

    pub fn zero() -> (r: Coord)
        ensures
            r == Coord::zero_spec(),
    {
        Coord { axial: 0, diagonal: 0 }
    }

    /// Moves this coordinate at `rate` (per second) for `dt` microseconds,
    /// saturating at the representable range.
    pub fn advance(self, rate: Coord, dt: u64) -> (r: Coord)
        ensures
            r == self.advanced(rate, dt as int),
    {
        Coord {
            axial: advance_part(self.axial, rate.axial, dt),
            diagonal: advance_part(self.diagonal, rate.diagonal, dt),
        }
    }
}

proof fn lemma_product_bounds(v: i64, dt: u64)
    ensures
        -0x8000_0000_0000_0000_0000_0000_0000_0000 + 0x8000_0000_0000_0000 <= v as int * dt as int,
        v as int * dt as int <= 0x7fff_ffff_ffff_ffff_ffff_ffff_ffff_ffff - 0x8000_0000_0000_0000,
{
    let a = v as int;
    let b = dt as int;
    if a >= 0 {
        assert(0 <= a * b <= 0x7fff_ffff_ffff_ffff * 0xffff_ffff_ffff_ffff) by (nonlinear_arith)
            requires
                0 <= a <= 0x7fff_ffff_ffff_ffff,
                0 <= b <= 0xffff_ffff_ffff_ffff,
        ;
    } else {
        assert(-0x8000_0000_0000_0000 * 0xffff_ffff_ffff_ffff <= a * b <= 0) by (nonlinear_arith)
            requires
                -0x8000_0000_0000_0000 <= a < 0,
                0 <= b <= 0xffff_ffff_ffff_ffff,
        ;
    }
}

/// `p + v * dt` saturated to `i64`, computed without overflow in `i128`.
fn advance_part(p: i64, v: i64, dt: u64) -> (r: i64)
    ensures
        r == saturate(p + v * dt),
{
    proof {
        lemma_product_bounds(v, dt);
    }
    let moved: i128 = p as i128 + (v as i128) * (dt as i128);
    if moved < i64::MIN as i128 {
        i64::MIN
    } else if moved > i64::MAX as i128 {
        i64::MAX
    } else {
        moved as i64
    }
}

impl Vector2 {
    pub open spec fn zero_spec() -> Vector2 {
        Vector2 { x: Coord::zero_spec(), y: Coord::zero_spec() }
    }

    /// `self + velocity * dt` (`dt` in microseconds), saturated per part.
    pub open spec fn advanced(self, velocity: Vector2, dt: int) -> Vector2 {
        Vector2 { x: self.x.advanced(velocity.x, dt), y: self.y.advanced(velocity.y, dt) }
    }

    pub open spec fn fits_after(self, velocity: Vector2, dt: int) -> bool {
        self.x.fits_after(velocity.x, dt) && self.y.fits_after(velocity.y, dt)
    }

    /// The squared length `x^2 + y^2`, as the pair (twice its rational part,
    /// its coefficient of `sqrt(2)`).
    pub open spec fn norm_sq_parts(self) -> (int, int) {
        (
            self.x.twice_square_rational() + self.y.twice_square_rational(),
            self.x.square_irrational() + self.y.square_irrational(),
        )
    }

    pub fn zero() -> (r: Vector2)
        ensures
            r == Vector2::zero_spec(),
    {
        Vector2 { x: Coord::zero(), y: Coord::zero() }
    }

    /// Builds a vector of whole micro-units with no diagonal part.
    pub fn from_axial(x: i64, y: i64) -> (r: Vector2)
        ensures
            r == (Vector2 { x: Coord { axial: x, diagonal: 0 }, y: Coord { axial: y, diagonal: 0 } }),
    {
        Vector2 { x: Coord { axial: x, diagonal: 0 }, y: Coord { axial: y, diagonal: 0 } }
    }

    /// Integrates a position: `self + velocity * dt`, `dt` in microseconds.
    ///
    /// The velocity is in units per second and the position in micro-units,
    /// so the product is exact; only the representable range saturates.
    pub fn integrate(self, velocity: Vector2, dt: u64) -> (r: Vector2)
        ensures
            r == self.advanced(velocity, dt as int),
            self.fits_after(velocity, dt as int) ==> r.x.axial == self.x.axial + velocity.x.axial * dt
                && r.x.diagonal == self.x.diagonal + velocity.x.diagonal * dt
                && r.y.axial == self.y.axial + velocity.y.axial * dt
                && r.y.diagonal == self.y.diagonal + velocity.y.diagonal * dt,
    {
        Vector2 { x: self.x.advance(velocity.x, dt), y: self.y.advance(velocity.y, dt) }
    }
}

/// Integration is linear in time: moving at a constant velocity for `dt1`
/// and then for `dt2` lands where moving for `dt1 + dt2` does, as long as
/// neither position leaves the representable range.
pub proof fn lemma_integration_linear(p: Vector2, v: Vector2, dt1: u64, dt2: u64)
    requires
        dt1 + dt2 <= u64::MAX,
        p.fits_after(v, dt1 as int),
        p.fits_after(v, dt1 + dt2),
    ensures
        p.advanced(v, dt1 as int).advanced(v, dt2 as int) == p.advanced(v, dt1 + dt2),
{
    let (a, b) = (dt1 as int, dt2 as int);
    assert(v.x.axial * (a + b) == v.x.axial * a + v.x.axial * b) by (nonlinear_arith);
    assert(v.x.diagonal * (a + b) == v.x.diagonal * a + v.x.diagonal * b) by (nonlinear_arith);
    assert(v.y.axial * (a + b) == v.y.axial * a + v.y.axial * b) by (nonlinear_arith);
    assert(v.y.diagonal * (a + b) == v.y.diagonal * a + v.y.diagonal * b) by (nonlinear_arith);
}

} // verus!
