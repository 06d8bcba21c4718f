use vstd::prelude::*;

verus! {

/// Bound on the magnitude of logical coordinates and transform entries.
/// Keeping both below this bound lets every product in a transform
/// application or composition fit comfortably in an `i64`.
pub const COORD_BOUND: i64 = 1_048_576;

/// Bound on the magnitude of a point handed to a transform. It leaves room
/// for a point assembled from a few bounded coordinates (a region corner,
/// an origin and a placement offset) while keeping the products of a
/// transform application inside an `i64`.
pub const POINT_BOUND: i64 = 8_388_608;

/// A 2D point or displacement in logical coordinates.
///
/// Coordinates are held as plain integers: the engine core treats positions
/// exactly, and leaves sub-pixel precision to the unit the caller picks.
#[derive(Debug, Clone, Copy, PartialEq, Eq, Structural, Hash)]
pub struct Vector {
    pub x: i64,
    pub y: i64,
}

pub type Position = Vector;

impl Vector {
    /// Within the point bound, so a transform can be applied to it.
    pub open spec fn wf(&self) -> bool {
        -POINT_BOUND <= self.x <= POINT_BOUND && -POINT_BOUND <= self.y <= POINT_BOUND
    }

    /// Within the tighter coordinate bound, so it can stand as a building
    /// block of a point (an origin or a placement offset).
    pub open spec fn bounded(&self) -> bool {
        -COORD_BOUND <= self.x <= COORD_BOUND && -COORD_BOUND <= self.y <= COORD_BOUND
    }

    pub fn new(x: i64, y: i64) -> (r: Self)
        ensures
            r.x == x,
            r.y == y,
    {
        Self { x, y }
    }

    pub fn zero() -> (r: Self)
        ensures
            r.x == 0,
            r.y == 0,
    {
        Self { x: 0, y: 0 }
    }

    pub fn none() -> (r: Option<Self>)
        ensures
            r.is_none(),
    {
        None
    }
}

/// A width/height pair in logical coordinates.
#[derive(Debug, Clone, Copy, PartialEq, Eq, Structural, Hash)]
pub struct Size {
    pub width: i64,
    pub height: i64,
}

impl Size {
    pub fn new(width: i64, height: i64) -> (r: Self)
        ensures
            r.width == width,
            r.height == height,
    {
        Self { width, height }
    }
}

/// An axis-aligned rectangle: position of one corner plus extent.
#[derive(Debug, Clone, Copy, PartialEq, Eq, Structural, Hash)]
pub struct Region {
    pub x: i64,
    pub y: i64,
    pub width: i64,
    pub height: i64,
}

impl Region {
    pub open spec fn wf(&self) -> bool {
        &&& 0 <= self.width <= COORD_BOUND
        &&& 0 <= self.height <= COORD_BOUND
        &&& -COORD_BOUND <= self.x <= COORD_BOUND
        &&& -COORD_BOUND <= self.y <= COORD_BOUND
    }

    pub fn new(x: i64, y: i64, width: i64, height: i64) -> (r: Self)
        ensures
            r == (Region { x, y, width, height }),
    {
        Self { x, y, width, height }
    }
}

/// A 2D affine transform over integer coordinates:
/// `x' = a*x + c*y + tx`, `y' = b*x + d*y + ty`.
#[derive(Debug, Clone, Copy, PartialEq, Eq, Structural, Hash)]
pub struct Transform {
    pub a: i64,
    pub b: i64,
    pub c: i64,
    pub d: i64,
    pub tx: i64,
    pub ty: i64,
}

/// The x coordinate of a point mapped through a transform, as exact math.
pub open spec fn apply_x(t: Transform, x: int, y: int) -> int {
    t.a * x + t.c * y + t.tx
}

/// The y coordinate of a point mapped through a transform, as exact math.
pub open spec fn apply_y(t: Transform, x: int, y: int) -> int {
    t.b * x + t.d * y + t.ty
}

/// Entry-wise composition: `r` holds the transform that applies `first`,
/// then `second`.
pub open spec fn is_then_of(r: Transform, first: Transform, second: Transform) -> bool {
    &&& r.a == second.a * first.a + second.c * first.b
    &&& r.b == second.b * first.a + second.d * first.b
    &&& r.c == second.a * first.c + second.c * first.d
    &&& r.d == second.b * first.c + second.d * first.d
    &&& r.tx == second.a * first.tx + second.c * first.ty + second.tx
    &&& r.ty == second.b * first.tx + second.d * first.ty + second.ty
}

impl Transform {
    /// Every entry lies within the coordinate bound, so that applying the
    /// transform to a bounded point cannot overflow.
    pub open spec fn wf(&self) -> bool {
        &&& -COORD_BOUND <= self.a <= COORD_BOUND
        &&& -COORD_BOUND <= self.b <= COORD_BOUND
        &&& -COORD_BOUND <= self.c <= COORD_BOUND
        &&& -COORD_BOUND <= self.d <= COORD_BOUND
        &&& -COORD_BOUND <= self.tx <= COORD_BOUND
        &&& -COORD_BOUND <= self.ty <= COORD_BOUND
    }

    pub open spec fn spec_identity() -> Transform {
        Transform { a: 1, b: 0, c: 0, d: 1, tx: 0, ty: 0 }
    }

    pub fn identity() -> (r: Self)
        ensures
            r == Self::spec_identity(),
            r.wf(),
    {
        Self { a: 1, b: 0, c: 0, d: 1, tx: 0, ty: 0 }
    }

    pub fn translation(dx: i64, dy: i64) -> (r: Self)
        ensures
            r == (Transform { a: 1, b: 0, c: 0, d: 1, tx: dx, ty: dy }),
            -COORD_BOUND <= dx <= COORD_BOUND && -COORD_BOUND <= dy <= COORD_BOUND ==> r.wf(),
    {
        Self { a: 1, b: 0, c: 0, d: 1, tx: dx, ty: dy }
    }

    pub fn scaling(sx: i64, sy: i64) -> (r: Self)
        ensures
            r == (Transform { a: sx, b: 0, c: 0, d: sy, tx: 0, ty: 0 }),
            -COORD_BOUND <= sx <= COORD_BOUND && -COORD_BOUND <= sy <= COORD_BOUND ==> r.wf(),
    {
        Self { a: sx, b: 0, c: 0, d: sy, tx: 0, ty: 0 }
    }

    /// Whether every entry lies within the coordinate bound.
    pub fn is_wf(&self) -> (r: bool)
        ensures
            r == self.wf(),
    {
        -COORD_BOUND <= self.a && self.a <= COORD_BOUND
            && -COORD_BOUND <= self.b && self.b <= COORD_BOUND
            && -COORD_BOUND <= self.c && self.c <= COORD_BOUND
            && -COORD_BOUND <= self.d && self.d <= COORD_BOUND
            && -COORD_BOUND <= self.tx && self.tx <= COORD_BOUND
            && -COORD_BOUND <= self.ty && self.ty <= COORD_BOUND
    }

    /// Map a point through this transform, exactly.
    pub fn apply(&self, p: Vector) -> (r: Vector)
        requires
            self.wf(),
            p.wf(),
        ensures
            r.x == apply_x(*self, p.x as int, p.y as int),
            r.y == apply_y(*self, p.x as int, p.y as int),
    {
        proof {
            lemma_mul_bound(self.a as int, COORD_BOUND as int, p.x as int, POINT_BOUND as int);
            lemma_mul_bound(self.c as int, COORD_BOUND as int, p.y as int, POINT_BOUND as int);
            lemma_mul_bound(self.b as int, COORD_BOUND as int, p.x as int, POINT_BOUND as int);
            lemma_mul_bound(self.d as int, COORD_BOUND as int, p.y as int, POINT_BOUND as int);
        }
        Vector { x: self.a * p.x + self.c * p.y + self.tx, y: self.b * p.x + self.d * p.y + self.ty }
    }

    /// The transform that applies `self` first, then `other`.
    ///
    /// Entries of the result can exceed the coordinate bound, so the result
    /// is not always well formed; callers that feed it back into the engine
    /// check `is_wf` first.
    pub fn then(&self, other: &Transform) -> (r: Transform)
        requires
            self.wf(),
            other.wf(),
        ensures
            is_then_of(r, *self, *other),
    {
        proof {
            lemma_mul_bound(other.a as int, COORD_BOUND as int, self.a as int, COORD_BOUND as int);
            lemma_mul_bound(other.c as int, COORD_BOUND as int, self.b as int, COORD_BOUND as int);
            lemma_mul_bound(other.b as int, COORD_BOUND as int, self.a as int, COORD_BOUND as int);
            lemma_mul_bound(other.d as int, COORD_BOUND as int, self.b as int, COORD_BOUND as int);
            lemma_mul_bound(other.a as int, COORD_BOUND as int, self.c as int, COORD_BOUND as int);
            lemma_mul_bound(other.c as int, COORD_BOUND as int, self.d as int, COORD_BOUND as int);
            lemma_mul_bound(other.b as int, COORD_BOUND as int, self.c as int, COORD_BOUND as int);
            lemma_mul_bound(other.d as int, COORD_BOUND as int, self.d as int, COORD_BOUND as int);
            lemma_mul_bound(other.a as int, COORD_BOUND as int, self.tx as int, COORD_BOUND as int);
            lemma_mul_bound(other.c as int, COORD_BOUND as int, self.ty as int, COORD_BOUND as int);
            lemma_mul_bound(other.b as int, COORD_BOUND as int, self.tx as int, COORD_BOUND as int);
            lemma_mul_bound(other.d as int, COORD_BOUND as int, self.ty as int, COORD_BOUND as int);
        }
        Transform {
            a: other.a * self.a + other.c * self.b,
            b: other.b * self.a + other.d * self.b,
            c: other.a * self.c + other.c * self.d,
            d: other.b * self.c + other.d * self.d,
            tx: other.a * self.tx + other.c * self.ty + other.tx,
            ty: other.b * self.tx + other.d * self.ty + other.ty,
        }
    }
}

/// |a| <= b1 and |x| <= b2 imply |a*x| <= b1*b2.
proof fn lemma_mul_bound(a: int, b1: int, x: int, b2: int) by (nonlinear_arith)
    requires
        0 <= b1,
        0 <= b2,
        -b1 <= a <= b1,
        -b2 <= x <= b2,
    ensures
        -b1 * b2 <= a * x <= b1 * b2,
{
}

/// Law: composition applies left to right. Mapping a point through the
/// composition of `t1` with `t2` gives the same point as mapping it through
/// `t1` and then through `t2`.
pub proof fn lemma_then_applies_in_order(t1: Transform, t2: Transform, r: Transform, x: int, y: int)
    requires
        is_then_of(r, t1, t2),
    ensures
        apply_x(r, x, y) == apply_x(t2, apply_x(t1, x, y), apply_y(t1, x, y)),
        apply_y(r, x, y) == apply_y(t2, apply_x(t1, x, y), apply_y(t1, x, y)),
{
    lemma_affine_compose_entry(t2.a as int, t2.c as int, t2.tx as int, t1.a as int, t1.b as int,
        t1.c as int, t1.d as int, t1.tx as int, t1.ty as int, x, y);
    lemma_affine_compose_entry(t2.b as int, t2.d as int, t2.ty as int, t1.a as int, t1.b as int,
        t1.c as int, t1.d as int, t1.tx as int, t1.ty as int, x, y);
}

/// One row of an affine composition, written out: mapping a point through
/// the composed coefficients equals mapping it through the two transforms
/// in turn.
proof fn lemma_affine_compose_entry(
    p: int,
    q: int,
    t: int,
    a1: int,
    b1: int,
    c1: int,
    d1: int,
    tx1: int,
    ty1: int,
    x: int,
    y: int,
)
    ensures
        (p * a1 + q * b1) * x + (p * c1 + q * d1) * y + (p * tx1 + q * ty1 + t) == p * (a1 * x + c1
            * y + tx1) + q * (b1 * x + d1 * y + ty1) + t,
{
    vstd::arithmetic::mul::lemma_mul_is_distributive_add_other_way(x, p * a1, q * b1);
    vstd::arithmetic::mul::lemma_mul_is_distributive_add_other_way(y, p * c1, q * d1);
    vstd::arithmetic::mul::lemma_mul_is_associative(p, a1, x);
    vstd::arithmetic::mul::lemma_mul_is_associative(q, b1, x);
    vstd::arithmetic::mul::lemma_mul_is_associative(p, c1, y);
    vstd::arithmetic::mul::lemma_mul_is_associative(q, d1, y);
    vstd::arithmetic::mul::lemma_mul_is_distributive_add(p, a1 * x + c1 * y, tx1);
    vstd::arithmetic::mul::lemma_mul_is_distributive_add(p, a1 * x, c1 * y);
    vstd::arithmetic::mul::lemma_mul_is_distributive_add(q, b1 * x + d1 * y, ty1);
    vstd::arithmetic::mul::lemma_mul_is_distributive_add(q, b1 * x, d1 * y);
}

} // verus!
