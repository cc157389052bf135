//! Arc geometry: the corner that `arc_to` rounds, the end points of arcs,
//! and the corner radii of rounded rectangles.

use vstd::prelude::*;
use crate::scalar::Angle;
use crate::scalar::floor_sqrt;
use crate::scalar::is_floor_sqrt;
use crate::scalar::lemma_floor_sqrt_exists;
use crate::scalar::lemma_fused_simplifies;
use crate::scalar::lemma_mul_minus_one;
use crate::scalar::lemma_mul_one;
use crate::scalar::lemma_mul_zero;
use crate::scalar::lemma_floor_sqrt_unique;
use crate::scalar::lemma_unit_component;
use crate::scalar::magnitude;
use crate::scalar::Scalar;
use crate::scalar::NANOS_PER_UNIT;

verus! {

/// Half a turn, in billionths of a radian.
pub const HALF_TURN_NANOS: i64 = 3_141_592_654;

/// A full turn, in billionths of a radian.
pub const FULL_TURN_NANOS: i64 = 6_283_185_307;

/// Below this distance of the cosine from one or minus one, in billionths,
/// two directions count as collinear.
pub const COLLINEAR_NANOS: i64 = 1_000;

/// What `arc_to` makes of a corner.
#[derive(Clone, Copy, Debug, PartialEq, Eq, Structural)]
pub enum TangentJoin {
    /// The corner stays: a straight line to the corner point `(x, y)`.
    Line { x: Scalar, y: Scalar },
    /// The corner is rounded: a straight line to `(start_x, start_y)`, where
    /// the circle touches the first edge, then the shorter arc about
    /// `(center_x, center_y)` to `(end_x, end_y)`, where it touches the
    /// second. The arc runs against growing angles where `ccw`, which is
    /// where the cross product of the edge directions is positive, and with
    /// them where not.
    Round {
        start_x: Scalar,
        start_y: Scalar,
        end_x: Scalar,
        end_y: Scalar,
        center_x: Scalar,
        center_y: Scalar,
        radius: Scalar,
        ccw: bool,
    },
}

/// The length of the vector `(x, y)`: the square root of the exact sum of
/// the squares, rounded down to a billionth.
pub open spec fn spec_length(x: Scalar, y: Scalar) -> Scalar {
    x.spec_hypot(y)
}

/// Whether a corner cannot be rounded on the face of it: the radius is zero,
/// or the corner point is the current point or the point after it.
pub open spec fn spec_is_degenerate(
    x0: Scalar,
    y0: Scalar,
    x1: Scalar,
    y1: Scalar,
    x2: Scalar,
    y2: Scalar,
    radius: Scalar,
) -> bool {
    radius.nanos == 0 || (x0 == x1 && y0 == y1) || (x1 == x2 && y1 == y2)
}

/// The cosine of the angle between two unit vectors, held between minus one and one.
pub open spec fn spec_unit_dot(ax: Scalar, ay: Scalar, bx: Scalar, by: Scalar) -> Scalar {
    Scalar::spec_fused(ax, bx, ay, by, Scalar { nanos: 0 }).spec_clamp(
        Scalar { nanos: -1_000_000_000i64 },
        Scalar { nanos: NANOS_PER_UNIT },
    )
}

/// The sine of the angle from the first of two unit vectors to the second:
/// their cross product.
pub open spec fn spec_unit_cross(ax: Scalar, ay: Scalar, bx: Scalar, by: Scalar) -> Scalar {
    Scalar::spec_fused(ax, by, ay.spec_neg(), bx, Scalar { nanos: 0 })
}

/// The tangent of half the angle between two directions, from the cosine
/// `cos` of the angle and its sine `sin`, of which the size counts: the sine
/// by one more than the cosine, or, where the cosine is negative, one less
/// the cosine by the sine. Either way the larger of the two is divided by.
pub open spec fn spec_tan_half(cos: Scalar, sin: Scalar) -> Scalar {
    if cos.nanos >= 0 {
        sin.spec_abs().spec_div((Scalar { nanos: NANOS_PER_UNIT }).spec_add(cos))
    } else {
        (Scalar { nanos: NANOS_PER_UNIT }).spec_sub(cos).spec_div(sin.spec_abs())
    }
}

/// Whether two unit vectors with the cosine `dot` between them lie on one line.
pub open spec fn spec_is_collinear(dot: Scalar) -> bool {
    (Scalar { nanos: NANOS_PER_UNIT }).spec_sub(dot).spec_abs().nanos < COLLINEAR_NANOS || (Scalar {
        nanos: NANOS_PER_UNIT,
    }).spec_add(dot).spec_abs().nanos < COLLINEAR_NANOS
}

/// What `arc_to` makes of the corner at `(x1, y1)` between the current point
/// `(x0, y0)` and `(x2, y2)`, rounded with `radius`.
///
/// The corner stays where it is degenerate, where an edge has no length, where
/// the edges lie on one line, and where the half angle has no tangent.
/// Otherwise each edge gives a direction, the edge divided by its length;
/// the circle touches each edge at the distance `radius / tan(angle / 2)`
/// from the corner, and its centre lies off the first point of contact by
/// `radius` along the normal of the first edge, on the side that the sign
/// of the cross product of the directions gives. Each coordinate is one
/// fused sum, rounded once.
pub open spec fn spec_tangent_join(
    x0: Scalar,
    y0: Scalar,
    x1: Scalar,
    y1: Scalar,
    x2: Scalar,
    y2: Scalar,
    radius: Scalar,
) -> TangentJoin {
    let v1x = x0.spec_sub(x1);
    let v1y = y0.spec_sub(y1);
    let v2x = x2.spec_sub(x1);
    let v2y = y2.spec_sub(y1);
    let len1 = spec_length(v1x, v1y);
    let len2 = spec_length(v2x, v2y);
    let n1x = v1x.spec_div(len1);
    let n1y = v1y.spec_div(len1);
    let n2x = v2x.spec_div(len2);
    let n2y = v2y.spec_div(len2);
    let dot = spec_unit_dot(n1x, n1y, n2x, n2y);
    let cross = spec_unit_cross(n1x, n1y, n2x, n2y);
    let tan_half = spec_tan_half(dot, cross);
    let dist = radius.spec_div(tan_half);
    let zero = Scalar { nanos: 0 };
    let start_x = Scalar::spec_fused(dist, n1x, zero, zero, x1);
    let start_y = Scalar::spec_fused(dist, n1y, zero, zero, y1);
    let end_x = Scalar::spec_fused(dist, n2x, zero, zero, x1);
    let end_y = Scalar::spec_fused(dist, n2y, zero, zero, y1);
    let normal_x = if cross.nanos < 0 {
        n1y
    } else {
        n1y.spec_neg()
    };
    let normal_y = if cross.nanos < 0 {
        n1x.spec_neg()
    } else {
        n1x
    };
    if spec_is_degenerate(x0, y0, x1, y1, x2, y2, radius) || len1.nanos == 0 || len2.nanos == 0
        || spec_is_collinear(dot) || tan_half.nanos == 0 {
        TangentJoin::Line { x: x1, y: y1 }
    } else {
        TangentJoin::Round {
            start_x,
            start_y,
            end_x,
            end_y,
            center_x: Scalar::spec_fused(dist, n1x, radius, normal_x, x1),
            center_y: Scalar::spec_fused(dist, n1y, radius, normal_y, y1),
            radius,
            ccw: cross.nanos > 0,
        }
    }
}

/// The length of the vector `(x, y)`.
pub fn length(x: Scalar, y: Scalar) -> (r: Scalar)
    ensures
        r == spec_length(x, y),
{
    x.hypot(y)
}

/// What `arc_to` makes of the corner at `(x1, y1)` between the current point
/// `(x0, y0)` and `(x2, y2)`, rounded with `radius`.
pub fn tangent_join(
    x0: Scalar,
    y0: Scalar,
    x1: Scalar,
    y1: Scalar,
    x2: Scalar,
    y2: Scalar,
    radius: Scalar,
) -> (join: TangentJoin)
    ensures
        join == spec_tangent_join(x0, y0, x1, y1, x2, y2, radius),
        spec_is_degenerate(x0, y0, x1, y1, x2, y2, radius) ==> join == (TangentJoin::Line {
            x: x1,
            y: y1,
        }),
{
    if radius.is_zero() || (x0 == x1 && y0 == y1) || (x1 == x2 && y1 == y2) {
        return TangentJoin::Line { x: x1, y: y1 };
    }
    let v1x = x0.sub(x1);
    let v1y = y0.sub(y1);
    let v2x = x2.sub(x1);
    let v2y = y2.sub(y1);
    let len1 = length(v1x, v1y);
    let len2 = length(v2x, v2y);
    if len1.is_zero() || len2.is_zero() {
        return TangentJoin::Line { x: x1, y: y1 };
    }
    let n1x = v1x.div(len1);
    let n1y = v1y.div(len1);
    let n2x = v2x.div(len2);
    let n2y = v2y.div(len2);
    let one = Scalar::one();
    let zero = Scalar::zero();
    let dot = Scalar::fused(n1x, n2x, n1y, n2y, zero).clamp(one.neg(), one);
    if one.sub(dot).abs().nanos < COLLINEAR_NANOS || one.add(dot).abs().nanos < COLLINEAR_NANOS {
        return TangentJoin::Line { x: x1, y: y1 };
    }
    let cross = Scalar::fused(n1x, n2y, n1y.neg(), n2x, zero);
    let tan_half = if dot.nanos >= 0 {
        cross.abs().div(one.add(dot))
    } else {
        one.sub(dot).div(cross.abs())
    };
    if tan_half.is_zero() {
        return TangentJoin::Line { x: x1, y: y1 };
    }
    let dist = radius.div(tan_half);
    let start_x = Scalar::fused(dist, n1x, zero, zero, x1);
    let start_y = Scalar::fused(dist, n1y, zero, zero, y1);
    let end_x = Scalar::fused(dist, n2x, zero, zero, x1);
    let end_y = Scalar::fused(dist, n2y, zero, zero, y1);
    let normal_x = if cross.is_negative() {
        n1y
    } else {
        n1y.neg()
    };
    let normal_y = if cross.is_negative() {
        n1x.neg()
    } else {
        n1x
    };
    TangentJoin::Round {
        start_x,
        start_y,
        end_x,
        end_y,
        center_x: Scalar::fused(dist, n1x, radius, normal_x, x1),
        center_y: Scalar::fused(dist, n1y, radius, normal_y, y1),
        radius,
        ccw: cross.nanos > 0,
    }
}

/// The direction of an edge has no component beyond one: neither
/// coordinate of an edge, divided by the length of the edge, lies outside
/// the range from minus one to one.
pub proof fn lemma_direction_is_within_one(x: Scalar, y: Scalar)
    requires
        spec_length(x, y).nanos != 0,
    ensures
        -NANOS_PER_UNIT <= x.spec_div(spec_length(x, y)).nanos <= NANOS_PER_UNIT,
        -NANOS_PER_UNIT <= y.spec_div(spec_length(x, y)).nanos <= NANOS_PER_UNIT,
{
    lemma_unit_component(x, y);
}

/// An edge that runs along an axis has its size for its length and the
/// axis, with the sign of the edge, for its direction.
pub proof fn lemma_axis_direction(x: Scalar)
    requires
        x.nanos != 0,
        x.nanos != i64::MIN,
    ensures
        spec_length(x, Scalar { nanos: 0 }) == x.spec_abs(),
        spec_length(Scalar { nanos: 0 }, x) == x.spec_abs(),
        x.spec_div(x.spec_abs()).nanos == (if x.nanos > 0 {
            NANOS_PER_UNIT as int
        } else {
            -NANOS_PER_UNIT
        }),
        (Scalar { nanos: 0 }).spec_div(x.spec_abs()).nanos == 0,
{
    let size = magnitude(x.nanos as int);
    assert(x.nanos * x.nanos == size * size) by (nonlinear_arith)
        requires
            size == magnitude(x.nanos as int),
    ;
    assert(is_floor_sqrt((size * size) as nat, size)) by (nonlinear_arith)
        requires
            size >= 0,
    ;
    lemma_floor_sqrt_exists((size * size) as nat);
    lemma_floor_sqrt_unique((size * size) as nat, size, floor_sqrt((size * size) as nat));
    assert((size * NANOS_PER_UNIT + size / 2) / (size as int) == NANOS_PER_UNIT) by (nonlinear_arith)
        requires
            size > 0,
            NANOS_PER_UNIT == 1_000_000_000,
    ;
    assert((0 * NANOS_PER_UNIT + size / 2) / (size as int) == 0) by (nonlinear_arith)
        requires
            size > 0,
    ;
}

/// The coordinate that lies `step` off `from`, on the side that `positive` gives.
pub open spec fn spec_toward(positive: bool, from: Scalar, step: Scalar) -> Scalar {
    if positive {
        from.spec_add(step)
    } else {
        from.spec_sub(step)
    }
}

/// A square corner is rounded by a quarter of a circle, however long its
/// edges are. Where the first edge comes along the first axis and the second
/// leaves along the second, the circle touches each edge at the distance of
/// the radius from the corner, on the side of the edge's other end, and its
/// centre lies at that distance from both edges.
pub proof fn lemma_square_corner(
    x0: Scalar,
    x1: Scalar,
    y1: Scalar,
    y2: Scalar,
    radius: Scalar,
)
    requires
        radius.nanos != 0,
        x0.spec_sub(x1).nanos != 0,
        x0.spec_sub(x1).nanos != i64::MIN,
        y2.spec_sub(y1).nanos != 0,
        y2.spec_sub(y1).nanos != i64::MIN,
    ensures
        ({
            let back = x0.spec_sub(x1).nanos > 0;
            let down = y2.spec_sub(y1).nanos > 0;
            spec_tangent_join(x0, y1, x1, y1, x1, y2, radius) == (TangentJoin::Round {
                start_x: spec_toward(back, x1, radius),
                start_y: y1,
                end_x: x1,
                end_y: spec_toward(down, y1, radius),
                center_x: spec_toward(back, x1, radius),
                center_y: spec_toward(down, y1, radius),
                radius,
                ccw: back == down,
            })
        }),
{
    let zero = Scalar { nanos: 0 };
    let one = Scalar { nanos: NANOS_PER_UNIT };
    let minus = Scalar { nanos: -1_000_000_000i64 };
    let v1x = x0.spec_sub(x1);
    let v2y = y2.spec_sub(y1);
    let back = v1x.nanos > 0;
    let down = v2y.nanos > 0;
    lemma_axis_direction(v1x);
    lemma_axis_direction(v2y);
    assert(y1.spec_sub(y1) == zero);
    assert(x1.spec_sub(x1) == zero);
    let n1x = v1x.spec_div(spec_length(v1x, zero));
    let n2y = v2y.spec_div(spec_length(zero, v2y));
    assert(n1x == (if back {
        one
    } else {
        minus
    }));
    assert(n2y == (if down {
        one
    } else {
        minus
    }));
    lemma_mul_zero(n1x);
    lemma_mul_zero(n2y);
    lemma_mul_one(one);
    lemma_mul_one(minus);
    lemma_mul_minus_one(one);
    lemma_mul_minus_one(minus);
    lemma_fused_simplifies(n1x, zero, zero, n2y, zero);
    lemma_fused_simplifies(n1x, n2y, zero, zero, zero);
    assert(zero.spec_neg() == zero);
    let dot = spec_unit_dot(n1x, zero, zero, n2y);
    assert(dot == zero);
    let cross = spec_unit_cross(n1x, zero, zero, n2y);
    assert(cross == (if back == down {
        one
    } else {
        minus
    }));
    assert(cross.spec_abs() == one);
    assert(one.spec_add(zero) == one);
    let tan_half = spec_tan_half(dot, cross);
    assert(tan_half == one);
    assert(radius.spec_div(one) == radius);
    let normal_y = if cross.nanos < 0 {
        n1x.spec_neg()
    } else {
        n1x
    };
    assert(normal_y == n2y);
    lemma_fused_simplifies(radius, n1x, zero, zero, x1);
    lemma_fused_simplifies(radius, zero, zero, zero, y1);
    lemma_fused_simplifies(radius, zero, zero, zero, x1);
    lemma_fused_simplifies(radius, n2y, zero, zero, y1);
    lemma_fused_simplifies(radius, n1x, radius, zero, x1);
    lemma_fused_simplifies(radius, n2y, radius, zero, y1);
    assert(Scalar::spec_fused(radius, zero, radius, n2y, y1) == Scalar::spec_fused(
        radius,
        n2y,
        radius,
        zero,
        y1,
    )) by {
        assert(radius.nanos * 0 + radius.nanos * n2y.nanos == radius.nanos * n2y.nanos + radius.nanos
            * 0);
    }
}

/// A corner whose radius is zero, or whose corner point is the current point
/// or the point after it, stays a corner: `arc_to` draws the straight line to
/// the corner point and nothing else.
pub proof fn lemma_degenerate_corner_is_line(
    x0: Scalar,
    y0: Scalar,
    x1: Scalar,
    y1: Scalar,
    x2: Scalar,
    y2: Scalar,
    radius: Scalar,
)
    requires
        radius.nanos == 0 || (x0 == x1 && y0 == y1) || (x1 == x2 && y1 == y2),
    ensures
        spec_tangent_join(x0, y0, x1, y1, x2, y2, radius) == (TangentJoin::Line { x: x1, y: y1 }),
{
}

/// The point of the circle about `(x, y)` with `radius` at `angle`.
pub open spec fn spec_arc_point(x: Scalar, y: Scalar, radius: Scalar, angle: Angle) -> (
    Scalar,
    Scalar,
) {
    let zero = Scalar { nanos: 0 };
    (
        Scalar::spec_fused(radius, angle.cos, zero, zero, x),
        Scalar::spec_fused(radius, angle.sin, zero, zero, y),
    )
}

/// The point of the circle about `(x, y)` with `radius` at `angle`.
pub fn arc_point(x: Scalar, y: Scalar, radius: Scalar, angle: Angle) -> (p: (Scalar, Scalar))
    ensures
        p == spec_arc_point(x, y, radius, angle),
{
    let zero = Scalar::zero();
    (Scalar::fused(radius, angle.cos, zero, zero, x), Scalar::fused(radius, angle.sin, zero, zero, y))
}

/// The point at `angle` of the ellipse about `(x, y)` with the radii given,
/// turned by `rotation`: the point `(radius_x * cos, radius_y * sin)` of the
/// ellipse in its own axes, rotated, then shifted by the centre.
pub open spec fn spec_ellipse_point(
    x: Scalar,
    y: Scalar,
    radius_x: Scalar,
    radius_y: Scalar,
    rotation: Angle,
    angle: Angle,
) -> (Scalar, Scalar) {
    let ex = radius_x.spec_mul(angle.cos);
    let ey = radius_y.spec_mul(angle.sin);
    (
        Scalar::spec_fused(ex, rotation.cos, ey, rotation.sin.spec_neg(), x),
        Scalar::spec_fused(ex, rotation.sin, ey, rotation.cos, y),
    )
}

/// The point at `angle` of the ellipse about `(x, y)`, turned by `rotation`.
pub fn ellipse_point(
    x: Scalar,
    y: Scalar,
    radius_x: Scalar,
    radius_y: Scalar,
    rotation: Angle,
    angle: Angle,
) -> (p: (Scalar, Scalar))
    ensures
        p == spec_ellipse_point(x, y, radius_x, radius_y, rotation, angle),
{
    let ex = radius_x.mul(angle.cos);
    let ey = radius_y.mul(angle.sin);
    (
        Scalar::fused(ex, rotation.cos, ey, rotation.sin.neg(), x),
        Scalar::fused(ex, rotation.sin, ey, rotation.cos, y),
    )
}

/// The radii of the four corners of a rounded rectangle.
#[derive(Clone, Copy, Debug, PartialEq, Eq, Structural)]
pub struct CornerRadii {
    pub top_left: Scalar,
    pub top_right: Scalar,
    pub bottom_right: Scalar,
    pub bottom_left: Scalar,
}

/// The four corner radii that a list of radii stands for: none gives zero
/// everywhere, one gives all four, two give the two diagonals, three give the
/// top left, both side corners and the bottom right, and of four or more the
/// first four are the corners in turn.
pub open spec fn spec_expand_radii(radii: Seq<Scalar>) -> CornerRadii {
    if radii.len() == 0 {
        CornerRadii {
            top_left: Scalar { nanos: 0 },
            top_right: Scalar { nanos: 0 },
            bottom_right: Scalar { nanos: 0 },
            bottom_left: Scalar { nanos: 0 },
        }
    } else if radii.len() == 1 {
        CornerRadii {
            top_left: radii[0],
            top_right: radii[0],
            bottom_right: radii[0],
            bottom_left: radii[0],
        }
    } else if radii.len() == 2 {
        CornerRadii {
            top_left: radii[0],
            top_right: radii[1],
            bottom_right: radii[0],
            bottom_left: radii[1],
        }
    } else if radii.len() == 3 {
        CornerRadii {
            top_left: radii[0],
            top_right: radii[1],
            bottom_right: radii[2],
            bottom_left: radii[1],
        }
    } else {
        CornerRadii {
            top_left: radii[0],
            top_right: radii[1],
            bottom_right: radii[2],
            bottom_left: radii[3],
        }
    }
}

/// The four corner radii that a list of radii stands for.
pub fn expand_radii(radii: &[Scalar]) -> (corners: CornerRadii)
    ensures
        corners == spec_expand_radii(radii@),
{
    let n: usize = radii.len();
    if n == 0 {
        let zero = Scalar::zero();
        CornerRadii { top_left: zero, top_right: zero, bottom_right: zero, bottom_left: zero }
    } else if n == 1 {
        CornerRadii {
            top_left: radii[0],
            top_right: radii[0],
            bottom_right: radii[0],
            bottom_left: radii[0],
        }
    } else if n == 2 {
        CornerRadii {
            top_left: radii[0],
            top_right: radii[1],
            bottom_right: radii[0],
            bottom_left: radii[1],
        }
    } else if n == 3 {
        CornerRadii {
            top_left: radii[0],
            top_right: radii[1],
            bottom_right: radii[2],
            bottom_left: radii[1],
        }
    } else {
        CornerRadii {
            top_left: radii[0],
            top_right: radii[1],
            bottom_right: radii[2],
            bottom_left: radii[3],
        }
    }
}

/// Half of `v`.
pub open spec fn spec_half(v: Scalar) -> Scalar {
    v.spec_div(Scalar { nanos: 2_000_000_000 })
}

/// A corner radius held to half the width and half the height.
pub open spec fn spec_clamp_radius(radius: Scalar, w: Scalar, h: Scalar) -> Scalar {
    radius.spec_min(spec_half(w)).spec_min(spec_half(h))
}

/// A corner radius held to half the width and half the height.
pub fn clamp_radius(radius: Scalar, w: Scalar, h: Scalar) -> (r: Scalar)
    ensures
        r == spec_clamp_radius(radius, w, h),
        r.nanos <= spec_half(w).nanos,
        r.nanos <= spec_half(h).nanos,
        r.nanos <= radius.nanos,
{
    let two = Scalar::from_int(2);
    radius.min(w.div(two)).min(h.div(two))
}

/// The four corner radii, each held to half the width and half the height.
pub open spec fn spec_clamp_radii(radii: CornerRadii, w: Scalar, h: Scalar) -> CornerRadii {
    CornerRadii {
        top_left: spec_clamp_radius(radii.top_left, w, h),
        top_right: spec_clamp_radius(radii.top_right, w, h),
        bottom_right: spec_clamp_radius(radii.bottom_right, w, h),
        bottom_left: spec_clamp_radius(radii.bottom_left, w, h),
    }
}

/// The four corner radii, each held to half the width and half the height.
pub fn clamp_radii(radii: CornerRadii, w: Scalar, h: Scalar) -> (r: CornerRadii)
    ensures
        r == spec_clamp_radii(radii, w, h),
{
    CornerRadii {
        top_left: clamp_radius(radii.top_left, w, h),
        top_right: clamp_radius(radii.top_right, w, h),
        bottom_right: clamp_radius(radii.bottom_right, w, h),
        bottom_left: clamp_radius(radii.bottom_left, w, h),
    }
}

/// A rounded rectangle that is given one radius has four equal corner radii,
/// and once they are clamped each is at most half the smaller side.
pub proof fn lemma_single_radius_corners(radius: Scalar, w: Scalar, h: Scalar)
    ensures
        ({
            let corners = spec_clamp_radii(spec_expand_radii(seq![radius]), w, h);
            &&& corners.top_left == corners.top_right
            &&& corners.top_right == corners.bottom_right
            &&& corners.bottom_right == corners.bottom_left
            &&& corners.top_left == spec_clamp_radius(radius, w, h)
            &&& corners.top_left.nanos <= spec_half(w.spec_min(h)).nanos
        }),
{
    let a = w.spec_min(h);
    assert(spec_half(a) == spec_half(w) || spec_half(a) == spec_half(h));
}

} // verus!
