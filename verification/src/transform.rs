//! Transforms: a fixed-point position + rotation record, the affine matrix it
//! induces, and the shared cell that serializes access to it.
//!
//! Coordinates are fixed-point integers: one world unit is `FX_ONE` steps.
//! A rotation is carried as its cosine/sine pair in the same fixed-point
//! scale, so matrix entries are exact integers and every statement about the
//! matrix is exact. Applying a matrix yields coordinates scaled by one more
//! factor of `FX_ONE` (products of two fixed-point values), which keeps the
//! arithmetic division-free.

use vstd::prelude::*;

verus! {

/// Fixed-point scale: one world unit.
pub const FX_ONE: i64 = 1000;

/// Bound on world coordinates, in fixed-point steps. Keeps every matrix
/// product comfortably inside `i64`.
pub const COORD_LIMIT: i64 = 1_000_000_000_000;

/// A world position, in fixed-point steps.
#[derive(Clone, Copy, PartialEq, Eq, Structural, Debug)]
pub struct Position {
    pub x: i64,
    pub y: i64,
}

/// A rotation about the origin, carried as its fixed-point cosine and sine.
#[derive(Clone, Copy, PartialEq, Eq, Structural, Debug)]
pub struct Rotation {
    pub cos: i64,
    pub sin: i64,
}

/// Position and rotation of one entity.
#[derive(Clone, Copy, PartialEq, Eq, Structural, Debug)]
pub struct Transform {
    pub position: Position,
    pub rotation: Rotation,
}

impl Position {
    pub open spec fn wf(self) -> bool {
        &&& -COORD_LIMIT <= self.x <= COORD_LIMIT
        &&& -COORD_LIMIT <= self.y <= COORD_LIMIT
    }

    /// The pure-translation matrix for this position.
    pub fn to_mat(&self) -> (m: Affine2)
        requires
            self.wf(),
        ensures
            m == translation_mat(*self),
    {
        Affine2 { xx: FX_ONE, xy: 0, yx: 0, yy: FX_ONE, tx: self.x, ty: self.y }
    }
}

impl Rotation {
    /// Cosine and sine never leave the unit range.
    pub open spec fn wf(self) -> bool {
        &&& -FX_ONE <= self.cos <= FX_ONE
        &&& -FX_ONE <= self.sin <= FX_ONE
    }

    /// No rotation.
    pub fn identity() -> (r: Rotation)
        ensures
            r.wf(),
            r == (Rotation { cos: FX_ONE, sin: 0 }),
    {
        Rotation { cos: FX_ONE, sin: 0 }
    }

    /// A counter-clockwise quarter turn.
    pub fn quarter_turn() -> (r: Rotation)
        ensures
            r.wf(),
            r == (Rotation { cos: 0, sin: FX_ONE }),
    {
        Rotation { cos: 0, sin: FX_ONE }
    }

    /// The pure-rotation matrix for this rotation.
    pub fn to_mat(&self) -> (m: Affine2)
        requires
            self.wf(),
        ensures
            m == rotation_mat(*self),
    {
        Affine2 { xx: self.cos, xy: -self.sin, yx: self.sin, yy: self.cos, tx: 0, ty: 0 }
    }
}

/// A 2D affine map: linear part (`xx xy / yx yy`, fixed-point) and a
/// translation (`tx ty`, fixed-point world coordinates).
#[derive(Clone, Copy, PartialEq, Eq, Structural, Debug)]
pub struct Affine2 {
    pub xx: i64,
    pub xy: i64,
    pub yx: i64,
    pub yy: i64,
    pub tx: i64,
    pub ty: i64,
}

pub open spec fn translation_mat(p: Position) -> Affine2 {
    Affine2 { xx: FX_ONE, xy: 0, yx: 0, yy: FX_ONE, tx: p.x, ty: p.y }
}

pub open spec fn rotation_mat(r: Rotation) -> Affine2 {
    Affine2 { xx: r.cos, xy: (0 - r.sin) as i64, yx: r.sin, yy: r.cos, tx: 0, ty: 0 }
}

impl Affine2 {
    /// Linear entries within the unit range, translation within world bounds.
    pub open spec fn bounded(self) -> bool {
        &&& -FX_ONE <= self.xx <= FX_ONE
        &&& -FX_ONE <= self.xy <= FX_ONE
        &&& -FX_ONE <= self.yx <= FX_ONE
        &&& -FX_ONE <= self.yy <= FX_ONE
        &&& -COORD_LIMIT <= self.tx <= COORD_LIMIT
        &&& -COORD_LIMIT <= self.ty <= COORD_LIMIT
    }

    /// First coordinate of the image of `(px, py)`, scaled by `FX_ONE`
    /// relative to its arguments.
    pub open spec fn apply_x(self, px: int, py: int) -> int {
        self.xx * px + self.xy * py + self.tx * FX_ONE
    }

    /// Second coordinate of the image of `(px, py)`, same scale.
    pub open spec fn apply_y(self, px: int, py: int) -> int {
        self.yx * px + self.yy * py + self.ty * FX_ONE
    }

    /// Applies the map to a point (both in fixed-point steps); the result is
    /// scaled by one more factor of `FX_ONE`.
    pub fn apply_point(&self, px: i64, py: i64) -> (r: (i64, i64))
        requires
            self.bounded(),
            -COORD_LIMIT <= px <= COORD_LIMIT,
            -COORD_LIMIT <= py <= COORD_LIMIT,
        ensures
            r.0 == self.apply_x(px as int, py as int),
            r.1 == self.apply_y(px as int, py as int),
    {
        proof {
            lemma_mul_bound(self.xx as int, px as int, FX_ONE as int, COORD_LIMIT as int);
            lemma_mul_bound(self.xy as int, py as int, FX_ONE as int, COORD_LIMIT as int);
            lemma_mul_bound(self.yx as int, px as int, FX_ONE as int, COORD_LIMIT as int);
            lemma_mul_bound(self.yy as int, py as int, FX_ONE as int, COORD_LIMIT as int);
            lemma_mul_bound(self.tx as int, FX_ONE as int, COORD_LIMIT as int, FX_ONE as int);
            lemma_mul_bound(self.ty as int, FX_ONE as int, COORD_LIMIT as int, FX_ONE as int);
        }
        let x = self.xx * px + self.xy * py + self.tx * FX_ONE;
        let y = self.yx * px + self.yy * py + self.ty * FX_ONE;
        (x, y)
    }
}

/// `|a| <= abound && |b| <= bbound` bounds the product by the product of the
/// bounds.
pub proof fn lemma_mul_bound(a: int, b: int, abound: int, bbound: int)
    requires
        -abound <= a <= abound,
        -bbound <= b <= bbound,
        0 <= abound,
        0 <= bbound,
    ensures
        -(abound * bbound) <= a * b <= abound * bbound,
{
    assert(-(abound * bbound) <= a * b <= abound * bbound) by (nonlinear_arith)
        requires
            -abound <= a <= abound,
            -bbound <= b <= bbound,
            0 <= abound,
            0 <= bbound,
    ;
}

/// First coordinate of rotating `(px, py)` about the origin (result scaled by
/// `FX_ONE` relative to its arguments).
pub open spec fn rotate_x(r: Rotation, px: int, py: int) -> int {
    r.cos * px - r.sin * py
}

/// Second coordinate of the same rotation.
pub open spec fn rotate_y(r: Rotation, px: int, py: int) -> int {
    r.sin * px + r.cos * py
}

impl Transform {
    pub open spec fn wf(self) -> bool {
        &&& self.position.wf()
        &&& self.rotation.wf()
    }

    /// The matrix this transform induces: the rotation's linear part with the
    /// position as translation, i.e. translation composed after rotation.
    pub open spec fn mat_spec(self) -> Affine2 {
        Affine2 {
            xx: self.rotation.cos,
            xy: (0 - self.rotation.sin) as i64,
            yx: self.rotation.sin,
            yy: self.rotation.cos,
            tx: self.position.x,
            ty: self.position.y,
        }
    }

    /// Builds a fresh shared cell holding this transform. Mirrors the
    /// construction contract: `(x, y, rotation)` in, a shareable cell out.
    pub fn new(x: i64, y: i64, rotation: Rotation) -> (c: TransformComponent)
        requires
            -COORD_LIMIT <= x <= COORD_LIMIT,
            -COORD_LIMIT <= y <= COORD_LIMIT,
            rotation.wf(),
        ensures
            c@ == (Transform { position: Position { x, y }, rotation }),
    {
        TransformCell::new(Transform { position: Position { x, y }, rotation })
    }

    /// The model matrix used by both render passes.
    pub fn to_mat(&self) -> (m: Affine2)
        requires
            self.wf(),
        ensures
            m == self.mat_spec(),
            m.bounded(),
    {
        Affine2 {
            xx: self.rotation.cos,
            xy: -self.rotation.sin,
            yx: self.rotation.sin,
            yy: self.rotation.cos,
            tx: self.position.x,
            ty: self.position.y,
        }
    }
}

/// A transform's matrix maps the origin exactly to the transform's position
/// (scaled by `FX_ONE`, the scale of every applied point): translation is
/// unaffected by the rotation.
pub proof fn lemma_mat_maps_origin_to_position(t: Transform)
    ensures
        t.mat_spec().apply_x(0, 0) == t.position.x * FX_ONE,
        t.mat_spec().apply_y(0, 0) == t.position.y * FX_ONE,
{
}

/// Applying a transform's matrix rotates about the origin first and
/// translates after: the image of any point is its rotation image plus the
/// translation, never the rotation of the translated point.
pub proof fn lemma_rotation_applied_before_translation(t: Transform, px: int, py: int)
    requires
        t.rotation.wf(),
    ensures
        t.mat_spec().apply_x(px, py) == rotate_x(t.rotation, px, py) + t.position.x * FX_ONE,
        t.mat_spec().apply_y(px, py) == rotate_y(t.rotation, px, py) + t.position.y * FX_ONE,
{
    let s = t.rotation.sin as int;
    assert(t.mat_spec().xy == -s);
    assert((-s) * py == -(s * py)) by (nonlinear_arith);
}

/// Under a quarter turn the unit x-axis point maps to the unit y-axis point:
/// with zero translation, a point is genuinely rotated, not translated first.
pub proof fn lemma_quarter_turn(r: Rotation, px: int, py: int)
    requires
        r.cos == 0,
        r.sin == FX_ONE,
    ensures
        rotate_x(r, px, py) == -(FX_ONE * py),
        rotate_y(r, px, py) == FX_ONE * px,
{
}

/// The shared, mutual-exclusion cell around one entity's transform. The world
/// entry, an in-flight script call and an in-flight render iteration all reach
/// the transform only through this cell, and only as a complete record: a
/// reader observes every write whole, never half-applied.
pub struct TransformCell {
    inner: Transform,
}

/// The component stored in the world for an entity's transform.
pub type TransformComponent = TransformCell;

impl View for TransformCell {
    type V = Transform;

    closed spec fn view(&self) -> Transform {
        self.inner
    }
}

impl TransformCell {
    #[verifier::type_invariant]
    spec fn inv(self) -> bool {
        self.inner.wf()
    }

    pub fn new(t: Transform) -> (c: TransformCell)
        requires
            t.wf(),
        ensures
            c@ == t,
    {
        TransformCell { inner: t }
    }

    /// Acquires the cell and reads the complete record.
    pub fn lock_read(&self) -> (t: Transform)
        ensures
            t == self@,
            t.wf(),
    {
        proof {
            use_type_invariant(&*self);
        }
        self.inner
    }

    /// Acquires the cell and replaces the record as a whole.
    pub fn store(&mut self, t: Transform)
        requires
            t.wf(),
        ensures
            final(self)@ == t,
    {
        proof {
            use_type_invariant(&*self);
        }
        self.inner = t;
    }

    /// Replaces the position, keeping the rotation: still a whole-record
    /// write, with the rotation carried over unchanged.
    pub fn set_position(&mut self, x: i64, y: i64)
        requires
            -COORD_LIMIT <= x <= COORD_LIMIT,
            -COORD_LIMIT <= y <= COORD_LIMIT,
        ensures
            final(self)@ == (Transform {
                position: Position { x, y },
                rotation: old(self)@.rotation,
            }),
    {
        proof {
            use_type_invariant(&*self);
        }
        let rotation = self.inner.rotation;
        self.inner = Transform { position: Position { x, y }, rotation };
    }
}

} // verus!
