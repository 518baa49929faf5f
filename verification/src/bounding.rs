//! Bounding-volume engine: derives an axis-aligned bounding box from a
//! shape and a pose, and tests pairwise box intersection.
//!
//! Coordinates are integers. A pose's translation is in plain world
//! units; rotations are a cosine/sine pair scaled by `SCALE`. Bounding
//! volumes therefore live in "scaled space": every volume coordinate is
//! `SCALE` times a world coordinate, which keeps the transformed extreme
//! points exact integers.

use vstd::prelude::*;
use vstd::math::abs;
use crate::motion::{isqrt, lemma_component_le_isqrt, lemma_sqrt_floor_is_isqrt, sqrt_floor};

verus! {

/// Fixed-point scale of rotations and direction vectors.
pub const SCALE: i64 = 1024;

/// Largest admissible magnitude of a pose translation component.
pub const POS_LIMIT: i64 = 1_000_000_000;

/// Largest admissible magnitude of a shape-local coordinate.
pub const EXTENT_LIMIT: i64 = 1_000_000;

/// A point (or vector) in world units.
#[derive(Debug, Clone, Copy, PartialEq, Eq, Structural)]
pub struct Point {
    pub x: i64,
    pub y: i64,
}

/// A rotation about the view axis, stored as its cosine and sine scaled
/// by `SCALE`.
#[derive(Debug, Clone, Copy, PartialEq, Eq, Structural)]
pub struct Rot {
    pub c: i64,
    pub s: i64,
}

impl Rot {
    pub open spec fn wf(self) -> bool {
        -(SCALE as int) <= self.c <= SCALE as int
        && -(SCALE as int) <= self.s <= SCALE as int
    }

    /// The identity rotation.
    pub fn identity() -> (r: Rot)
        ensures
            r.wf(),
            r.c == SCALE,
            r.s == 0,
    {
        Rot { c: SCALE, s: 0 }
    }
}

/// World position and rotation of an entity.
#[derive(Debug, Clone, Copy, PartialEq, Eq, Structural)]
pub struct Pose {
    pub tx: i64,
    pub ty: i64,
    pub rot: Rot,
}

impl Pose {
    pub open spec fn wf(self) -> bool {
        self.rot.wf()
        && -(POS_LIMIT as int) <= self.tx <= POS_LIMIT as int
        && -(POS_LIMIT as int) <= self.ty <= POS_LIMIT as int
    }
}

/// Geometric footprint of an entity, in entity-local coordinates.
/// Rectangles and ellipses are centred on the origin and described by
/// half-extents; triangles and lines carry their vertices.
#[derive(Debug, Clone, Copy, PartialEq, Eq, Structural)]
pub enum Shape {
    Rectangle { hw: i64, hh: i64 },
    Ellipse { rx: i64, ry: i64 },
    Triangle { p0: Point, p1: Point, p2: Point },
    Line { a: Point, b: Point },
}

pub open spec fn point_wf(p: Point) -> bool {
    -(EXTENT_LIMIT as int) <= p.x <= EXTENT_LIMIT as int
    && -(EXTENT_LIMIT as int) <= p.y <= EXTENT_LIMIT as int
}

impl Shape {
    pub open spec fn wf(self) -> bool {
        match self {
            Shape::Rectangle { hw, hh } =>
                0 <= hw <= EXTENT_LIMIT as int && 0 <= hh <= EXTENT_LIMIT as int,
            Shape::Ellipse { rx, ry } =>
                0 <= rx <= EXTENT_LIMIT as int && 0 <= ry <= EXTENT_LIMIT as int,
            Shape::Triangle { p0, p1, p2 } =>
                point_wf(p0) && point_wf(p1) && point_wf(p2),
            Shape::Line { a, b } => point_wf(a) && point_wf(b),
        }
    }

    /// The shape's extreme local points: the corners of a rectangle, the
    /// vertices of a triangle, the endpoints of a line, and the four
    /// axis endpoints of an ellipse.
    pub open spec fn local_vertices(self) -> Seq<(int, int)> {
        match self {
            Shape::Rectangle { hw, hh } => seq![
                (hw as int, hh as int),
                (-hw as int, hh as int),
                (hw as int, -hh as int),
                (-hw as int, -hh as int),
            ],
            Shape::Ellipse { rx, ry } => seq![
                (rx as int, 0int),
                (-rx as int, 0int),
                (0int, ry as int),
                (0int, -ry as int),
            ],
            Shape::Triangle { p0, p1, p2 } => seq![
                (p0.x as int, p0.y as int),
                (p1.x as int, p1.y as int),
                (p2.x as int, p2.y as int),
            ],
            Shape::Line { a, b } => seq![
                (a.x as int, a.y as int),
                (b.x as int, b.y as int),
            ],
        }
    }
}

/// A local point transformed by a pose, in scaled space: rotate, then
/// translate.
pub open spec fn xf_x(pose: Pose, px: int, py: int) -> int {
    pose.rot.c * px - pose.rot.s * py + SCALE * pose.tx
}

pub open spec fn xf_y(pose: Pose, px: int, py: int) -> int {
    pose.rot.s * px + pose.rot.c * py + SCALE * pose.ty
}

/// An axis-aligned bounding box in scaled space.
#[derive(Debug, Clone, Copy, PartialEq, Eq, Structural)]
pub struct Volume {
    pub min_x: i64,
    pub min_y: i64,
    pub max_x: i64,
    pub max_y: i64,
}

/// Whether a collision pair's volumes overlapped in the last scan.
/// Purely informational, for a rendering collaborator.
#[derive(Debug, Clone, Copy, PartialEq, Eq, Structural)]
pub struct Intersects(pub bool);

impl Default for Intersects {
    fn default() -> (r: Self)
        ensures
            r == Intersects(false),
    {
        Intersects(false)
    }
}

pub open spec fn non_degenerate(v: Volume) -> bool {
    v.min_x <= v.max_x && v.min_y <= v.max_y
}

pub open spec fn vol_contains(v: Volume, px: int, py: int) -> bool {
    v.min_x <= px <= v.max_x as int && v.min_y <= py <= v.max_y as int
}

/// The bounding box of a shape under a pose, in scaled space.
///
/// A rectangle, being centred, gets the rotated-extent form
/// `|c|*hw + |s|*hh` about the translated centre; an ellipse gets its
/// true rotated extent, the square root of `(c*rx)^2 + (s*ry)^2` per
/// axis; triangles and lines get the componentwise min/max of their
/// transformed vertices. The result is `(min_x, min_y, max_x, max_y)`.
pub open spec fn aabb_spec(shape: Shape, pose: Pose) -> (int, int, int, int) {
    let cx = SCALE * pose.tx;
    let cy = SCALE * pose.ty;
    let c = pose.rot.c as int;
    let s = pose.rot.s as int;
    match shape {
        Shape::Rectangle { hw, hh } => {
            let ex = abs(c) * hw + abs(s) * hh;
            let ey = abs(s) * hw + abs(c) * hh;
            (cx - ex, cy - ey, cx + ex, cy + ey)
        },
        Shape::Ellipse { rx, ry } => {
            let ex = sqrt_floor((c * rx) * (c * rx) + (s * ry) * (s * ry));
            let ey = sqrt_floor((s * rx) * (s * rx) + (c * ry) * (c * ry));
            (cx - ex, cy - ey, cx + ex, cy + ey)
        },
        Shape::Triangle { p0, p1, p2 } => {
            let x0 = xf_x(pose, p0.x as int, p0.y as int);
            let x1 = xf_x(pose, p1.x as int, p1.y as int);
            let x2 = xf_x(pose, p2.x as int, p2.y as int);
            let y0 = xf_y(pose, p0.x as int, p0.y as int);
            let y1 = xf_y(pose, p1.x as int, p1.y as int);
            let y2 = xf_y(pose, p2.x as int, p2.y as int);
            (
                vstd::math::min(vstd::math::min(x0, x1), x2),
                vstd::math::min(vstd::math::min(y0, y1), y2),
                vstd::math::max(vstd::math::max(x0, x1), x2),
                vstd::math::max(vstd::math::max(y0, y1), y2),
            )
        },
        Shape::Line { a, b } => {
            let xa = xf_x(pose, a.x as int, a.y as int);
            let xb = xf_x(pose, b.x as int, b.y as int);
            let ya = xf_y(pose, a.x as int, a.y as int);
            let yb = xf_y(pose, b.x as int, b.y as int);
            (
                vstd::math::min(xa, xb),
                vstd::math::min(ya, yb),
                vstd::math::max(xa, xb),
                vstd::math::max(ya, yb),
            )
        },
    }
}

pub open spec fn vol_matches(v: Volume, shape: Shape, pose: Pose) -> bool {
    (v.min_x as int, v.min_y as int, v.max_x as int, v.max_y as int)
        == aabb_spec(shape, pose)
}

fn abs_i64(v: i64) -> (r: i64)
    requires
        v > i64::MIN,
    ensures
        r as int == abs(v as int),
{
    if v < 0 { -v } else { v }
}

fn imin(a: i64, b: i64) -> (r: i64)
    ensures
        r as int == vstd::math::min(a as int, b as int),
{
    if a <= b { a } else { b }
}

fn imax(a: i64, b: i64) -> (r: i64)
    ensures
        r as int == vstd::math::max(a as int, b as int),
{
    if a >= b { a } else { b }
}

pub(crate) proof fn lemma_mul_range(a: int, b: int, ab: int, bb: int)
    requires
        -ab <= a <= ab,
        -bb <= b <= bb,
        0 <= ab,
        0 <= bb,
    ensures
        -(ab * bb) <= a * b <= ab * bb,
{
    assert(-(ab * bb) <= a * b <= ab * bb) by (nonlinear_arith)
        requires -ab <= a <= ab, -bb <= b <= bb, 0 <= ab, 0 <= bb,
    {}
}

fn xf_point(pose: &Pose, p: Point) -> (r: (i64, i64))
    requires
        pose.wf(),
        point_wf(p),
    ensures
        r.0 as int == xf_x(*pose, p.x as int, p.y as int),
        r.1 as int == xf_y(*pose, p.x as int, p.y as int),
{
    proof {
        lemma_mul_range(pose.rot.c as int, p.x as int, SCALE as int, EXTENT_LIMIT as int);
        lemma_mul_range(pose.rot.s as int, p.x as int, SCALE as int, EXTENT_LIMIT as int);
        lemma_mul_range(pose.rot.c as int, p.y as int, SCALE as int, EXTENT_LIMIT as int);
        lemma_mul_range(pose.rot.s as int, p.y as int, SCALE as int, EXTENT_LIMIT as int);
    }
    (
        pose.rot.c * p.x - pose.rot.s * p.y + SCALE * pose.tx,
        pose.rot.s * p.x + pose.rot.c * p.y + SCALE * pose.ty,
    )
}

proof fn lemma_isqrt_below(n: int, r: int)
    requires
        crate::motion::is_isqrt(n, r),
        n <= 3_000_000_000_000_000_000,
    ensures
        0 <= r <= 2_000_000_000,
{
    if r > 2_000_000_000 {
        assert(r * r > 3_000_000_000_000_000_000int) by (nonlinear_arith)
            requires r > 2_000_000_000int,
        {}
    }
}

/// Compute the bounding volume of `shape` under `pose`: project the
/// shape's extreme points through the rotation and translation, and take
/// the componentwise minimum and maximum.
pub fn compute_volume(shape: &Shape, pose: &Pose) -> (v: Volume)
    requires
        shape.wf(),
        pose.wf(),
    ensures
        vol_matches(v, *shape, *pose),
        non_degenerate(v),
{
    let cx = SCALE * pose.tx;
    let cy = SCALE * pose.ty;
    match *shape {
        Shape::Rectangle { hw, hh } => {
            let ac = abs_i64(pose.rot.c);
            let asn = abs_i64(pose.rot.s);
            proof {
                lemma_mul_range(ac as int, hw as int, SCALE as int, EXTENT_LIMIT as int);
                lemma_mul_range(asn as int, hh as int, SCALE as int, EXTENT_LIMIT as int);
                lemma_mul_range(asn as int, hw as int, SCALE as int, EXTENT_LIMIT as int);
                lemma_mul_range(ac as int, hh as int, SCALE as int, EXTENT_LIMIT as int);
            }
            let ex = ac * hw + asn * hh;
            let ey = asn * hw + ac * hh;
            Volume { min_x: cx - ex, min_y: cy - ey, max_x: cx + ex, max_y: cy + ey }
        },
        Shape::Ellipse { rx, ry } => {
            proof {
                lemma_mul_range(pose.rot.c as int, rx as int, SCALE as int, EXTENT_LIMIT as int);
                lemma_mul_range(pose.rot.s as int, ry as int, SCALE as int, EXTENT_LIMIT as int);
                lemma_mul_range(pose.rot.s as int, rx as int, SCALE as int, EXTENT_LIMIT as int);
                lemma_mul_range(pose.rot.c as int, ry as int, SCALE as int, EXTENT_LIMIT as int);
            }
            let crx = pose.rot.c * rx;
            let sry = pose.rot.s * ry;
            let srx = pose.rot.s * rx;
            let cry = pose.rot.c * ry;
            proof {
                let b: int = SCALE as int * EXTENT_LIMIT as int;
                lemma_mul_range(crx as int, crx as int, b, b);
                lemma_mul_range(sry as int, sry as int, b, b);
                lemma_mul_range(srx as int, srx as int, b, b);
                lemma_mul_range(cry as int, cry as int, b, b);
                assert(crx * crx >= 0 && sry * sry >= 0 && srx * srx >= 0 && cry * cry >= 0)
                    by (nonlinear_arith) {}
            }
            let ex = isqrt(crx * crx + sry * sry);
            let ey = isqrt(srx * srx + cry * cry);
            proof {
                lemma_isqrt_below(crx as int * crx as int + sry as int * sry as int, ex as int);
                lemma_isqrt_below(srx as int * srx as int + cry as int * cry as int, ey as int);
            }
            Volume { min_x: cx - ex, min_y: cy - ey, max_x: cx + ex, max_y: cy + ey }
        },
        Shape::Triangle { p0, p1, p2 } => {
            let v0 = xf_point(pose, p0);
            let v1 = xf_point(pose, p1);
            let v2 = xf_point(pose, p2);
            Volume {
                min_x: imin(imin(v0.0, v1.0), v2.0),
                min_y: imin(imin(v0.1, v1.1), v2.1),
                max_x: imax(imax(v0.0, v1.0), v2.0),
                max_y: imax(imax(v0.1, v1.1), v2.1),
            }
        },
        Shape::Line { a, b } => {
            let va = xf_point(pose, a);
            let vb = xf_point(pose, b);
            Volume {
                min_x: imin(va.0, vb.0),
                min_y: imin(va.1, vb.1),
                max_x: imax(va.0, vb.0),
                max_y: imax(va.1, vb.1),
            }
        },
    }
}

pub open spec fn spec_intersects(a: Volume, b: Volume) -> bool {
    a.min_x <= b.max_x && b.min_x <= a.max_x
    && a.min_y <= b.max_y && b.min_y <= a.max_y
}

impl Volume {
    /// Standard inclusive AABB overlap test: the boxes intersect iff
    /// they overlap on both axes.
    pub fn intersects(&self, other: &Volume) -> (r: bool)
        ensures
            r == spec_intersects(*self, *other),
    {
        self.min_x <= other.max_x && other.min_x <= self.max_x
        && self.min_y <= other.max_y && other.min_y <= self.max_y
    }
}

/// Intersection is symmetric on every pair of volumes.
pub proof fn lemma_intersects_symmetric(a: Volume, b: Volume)
    ensures
        spec_intersects(a, b) == spec_intersects(b, a),
{
}

/// Intersection is reflexive on non-degenerate volumes.
pub proof fn lemma_intersects_reflexive(a: Volume)
    requires
        non_degenerate(a),
    ensures
        spec_intersects(a, a),
{
}

/// Volumes whose projections on either axis are disjoint never report
/// intersecting.
pub proof fn lemma_disjoint_projection_no_intersect(a: Volume, b: Volume)
    requires
        a.max_x < b.min_x || b.max_x < a.min_x || a.max_y < b.min_y || b.max_y < a.min_y,
    ensures
        !spec_intersects(a, b),
{
}

/// The bounding volume of a shape under a pose encloses every extreme
/// point of the shape transformed by the pose.
pub proof fn lemma_volume_encloses_vertices(shape: Shape, pose: Pose, v: Volume)
    requires
        shape.wf(),
        pose.wf(),
        vol_matches(v, shape, pose),
    ensures
        forall|i: int| 0 <= i < shape.local_vertices().len()
            ==> #[trigger] vol_contains(
                v,
                xf_x(pose, shape.local_vertices()[i].0, shape.local_vertices()[i].1),
                xf_y(pose, shape.local_vertices()[i].0, shape.local_vertices()[i].1),
            ),
{
    let c = pose.rot.c as int;
    let s = pose.rot.s as int;
    match shape {
        Shape::Rectangle { hw, hh } => {
            let w = hw as int;
            let h = hh as int;
            let ex = abs(c) * w + abs(s) * h;
            let ey = abs(s) * w + abs(c) * h;
            assert(
                -ex <= c * w - s * h <= ex
                && -ex <= c * (-w) - s * h <= ex
                && -ex <= c * w - s * (-h) <= ex
                && -ex <= c * (-w) - s * (-h) <= ex
                && -ey <= s * w + c * h <= ey
                && -ey <= s * (-w) + c * h <= ey
                && -ey <= s * w + c * (-h) <= ey
                && -ey <= s * (-w) + c * (-h) <= ey
            ) by (nonlinear_arith)
                requires
                    w >= 0,
                    h >= 0,
                    ex == abs(c) * w + abs(s) * h,
                    ey == abs(s) * w + abs(c) * h,
                    abs(c) == (if c >= 0 { c } else { -c }),
                    abs(s) == (if s >= 0 { s } else { -s }),
            {}
            let vs = shape.local_vertices();
            assert(vs[0] == (w, h) && vs[1] == (-w, h) && vs[2] == (w, -h) && vs[3] == (-w, -h));
        },
        Shape::Ellipse { rx, ry } => {
            let w = rx as int;
            let h = ry as int;
            let nx = (c * w) * (c * w) + (s * h) * (s * h);
            let ny = (s * w) * (s * w) + (c * h) * (c * h);
            let ex = sqrt_floor(nx);
            let ey = sqrt_floor(ny);
            assert(nx >= 0 && ny >= 0
                && abs(c * w) >= 0 && abs(s * h) >= 0 && abs(s * w) >= 0 && abs(c * h) >= 0
                && abs(c * w) * abs(c * w) <= nx
                && abs(s * h) * abs(s * h) <= nx
                && abs(s * w) * abs(s * w) <= ny
                && abs(c * h) * abs(c * h) <= ny
            ) by (nonlinear_arith)
                requires
                    nx == (c * w) * (c * w) + (s * h) * (s * h),
                    ny == (s * w) * (s * w) + (c * h) * (c * h),
                    abs(c * w) == (if c * w >= 0 { c * w } else { -(c * w) }),
                    abs(s * h) == (if s * h >= 0 { s * h } else { -(s * h) }),
                    abs(s * w) == (if s * w >= 0 { s * w } else { -(s * w) }),
                    abs(c * h) == (if c * h >= 0 { c * h } else { -(c * h) }),
            {}
            lemma_sqrt_floor_is_isqrt(nx);
            lemma_sqrt_floor_is_isqrt(ny);
            lemma_component_le_isqrt(abs(c * w) as int, nx, ex);
            lemma_component_le_isqrt(abs(s * h) as int, nx, ex);
            lemma_component_le_isqrt(abs(s * w) as int, ny, ey);
            lemma_component_le_isqrt(abs(c * h) as int, ny, ey);
            let vs = shape.local_vertices();
            assert(vs[0] == (w, 0int) && vs[1] == (-w, 0int) && vs[2] == (0int, h)
                && vs[3] == (0int, -h));
            assert(c * (-w) == -(c * w) && s * (-w) == -(s * w)
                && c * (-h) == -(c * h) && s * (-h) == -(s * h)) by (nonlinear_arith) {}
        },
        Shape::Triangle { p0, p1, p2 } => {
            let vs = shape.local_vertices();
            assert(vs[0] == (p0.x as int, p0.y as int)
                && vs[1] == (p1.x as int, p1.y as int)
                && vs[2] == (p2.x as int, p2.y as int));
        },
        Shape::Line { a, b } => {
            let vs = shape.local_vertices();
            assert(vs[0] == (a.x as int, a.y as int) && vs[1] == (b.x as int, b.y as int));
        },
    }
    let vs = shape.local_vertices();
    assert forall|i: int| 0 <= i < vs.len()
        implies #[trigger] vol_contains(
            v,
            xf_x(pose, vs[i].0, vs[i].1),
            xf_y(pose, vs[i].0, vs[i].1),
        ) by {
        assert(i == 0 || i == 1 || i == 2 || i == 3);
        assert(vol_contains(v, xf_x(pose, vs[0].0, vs[0].1), xf_y(pose, vs[0].0, vs[0].1)));
        assert(vol_contains(v, xf_x(pose, vs[1].0, vs[1].1), xf_y(pose, vs[1].0, vs[1].1)));
        if vs.len() > 2 {
            assert(vol_contains(v, xf_x(pose, vs[2].0, vs[2].1), xf_y(pose, vs[2].0, vs[2].1)));
        }
        if vs.len() > 3 {
            assert(vol_contains(v, xf_x(pose, vs[3].0, vs[3].1), xf_y(pose, vs[3].0, vs[3].1)));
        }
    }
}

/// An entity's collision body: its shape, its pose, and the cached
/// bounding volume. `dirty` records that the shape or pose changed since
/// the volume was last computed; while it is clear, the cached volume is
/// the volume of the current shape and pose.
#[derive(Debug, Clone, Copy, PartialEq, Eq, Structural)]
pub struct Body {
    pub shape: Shape,
    pub pose: Pose,
    pub volume: Volume,
    pub dirty: bool,
}

/// What `Body::refresh` does: shape and pose are kept, the staleness
/// flag is cleared, the cached volume is the volume of the current
/// shape and pose, and a body that was already fresh keeps its volume
/// bit for bit.
pub open spec fn body_refreshed(before: Body, after: Body) -> bool {
    after.shape == before.shape
    && after.pose == before.pose
    && !after.dirty
    && vol_matches(after.volume, after.shape, after.pose)
    && non_degenerate(after.volume)
    && (!before.dirty ==> after.volume == before.volume)
}

impl Body {
    pub open spec fn wf(self) -> bool {
        self.shape.wf()
        && self.pose.wf()
        && (!self.dirty ==> vol_matches(self.volume, self.shape, self.pose)
            && non_degenerate(self.volume))
    }

    /// A fresh body; its volume is not yet computed.
    pub fn new(shape: Shape, pose: Pose) -> (r: Body)
        requires
            shape.wf(),
            pose.wf(),
        ensures
            r.wf(),
            r.shape == shape,
            r.pose == pose,
            r.dirty,
    {
        Body {
            shape,
            pose,
            volume: Volume { min_x: 0, min_y: 0, max_x: 0, max_y: 0 },
            dirty: true,
        }
    }

    /// Move the body. The cached volume is kept but marked stale.
    pub fn set_pose(&mut self, pose: Pose)
        requires
            old(self).wf(),
            pose.wf(),
        ensures
            final(self).wf(),
            final(self).pose == pose,
            final(self).shape == old(self).shape,
            final(self).volume == old(self).volume,
            final(self).dirty,
    {
        self.pose = pose;
        self.dirty = true;
    }

    /// Recompute the bounding volume if the shape or pose changed since
    /// the last computation; otherwise reuse the cached volume
    /// unchanged.
    pub fn refresh(&mut self)
        requires
            old(self).wf(),
        ensures
            final(self).wf(),
            final(self).shape == old(self).shape,
            final(self).pose == old(self).pose,
            !final(self).dirty,
            vol_matches(final(self).volume, final(self).shape, final(self).pose),
            non_degenerate(final(self).volume),
            !old(self).dirty ==> final(self).volume == old(self).volume,
            body_refreshed(*old(self), *final(self)),
    {
        if self.dirty {
            self.volume = compute_volume(&self.shape, &self.pose);
            self.dirty = false;
        }
    }
}

} // verus!
