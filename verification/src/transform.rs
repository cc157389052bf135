//! Affine transforms of the plane.
//!
//! A [`Transform`] holds the six coefficients `(a, b, c, d, e, f)` of the
//! matrix `[[a, c, e], [b, d, f], [0, 0, 1]]`, applied to column vectors
//! `(x, y, 1)`.

use vstd::prelude::*;
use crate::scalar::lemma_fused_simplifies;
use crate::scalar::lemma_mul_one;
use crate::scalar::lemma_mul_zero;
use crate::scalar::Angle;
use crate::scalar::Scalar;
use crate::scalar::NANOS_PER_UNIT;

verus! {

/// An affine transform: a linear part `(a, b, c, d)` and a translation `(e, f)`.
#[derive(Clone, Copy, Debug, PartialEq, Eq, Hash, Structural)]
pub struct Transform {
    pub a: Scalar,
    pub b: Scalar,
    pub c: Scalar,
    pub d: Scalar,
    pub e: Scalar,
    pub f: Scalar,
}

impl Transform {
    /// The transform that moves nothing: `(1, 0, 0, 1, 0, 0)`.
    pub open spec fn spec_identity() -> Transform {
        Transform {
            a: Scalar { nanos: NANOS_PER_UNIT },
            b: Scalar { nanos: 0 },
            c: Scalar { nanos: 0 },
            d: Scalar { nanos: NANOS_PER_UNIT },
            e: Scalar { nanos: 0 },
            f: Scalar { nanos: 0 },
        }
    }

    /// The shift by `(x, y)`: `(1, 0, 0, 1, x, y)`.
    pub open spec fn spec_translation(x: Scalar, y: Scalar) -> Transform {
        Transform {
            a: Scalar { nanos: NANOS_PER_UNIT },
            b: Scalar { nanos: 0 },
            c: Scalar { nanos: 0 },
            d: Scalar { nanos: NANOS_PER_UNIT },
            e: x,
            f: y,
        }
    }

    /// The scaling by `x` along the first axis and `y` along the second: `(x, 0, 0, y, 0, 0)`.
    pub open spec fn spec_scaling(x: Scalar, y: Scalar) -> Transform {
        Transform {
            a: x,
            b: Scalar { nanos: 0 },
            c: Scalar { nanos: 0 },
            d: y,
            e: Scalar { nanos: 0 },
            f: Scalar { nanos: 0 },
        }
    }

    /// The rotation about the origin by `angle`: `(cos, sin, -sin, cos, 0, 0)`.
    pub open spec fn spec_rotation(angle: Angle) -> Transform {
        Transform {
            a: angle.cos,
            b: angle.sin,
            c: angle.sin.spec_neg(),
            d: angle.cos,
            e: Scalar { nanos: 0 },
            f: Scalar { nanos: 0 },
        }
    }

    /// `self` after `n`: the transform that applies `n` first and `self` to its result.
    pub open spec fn spec_compose(self, n: Transform) -> Transform {
        let zero = Scalar { nanos: 0 };
        Transform {
            a: Scalar::spec_fused(self.a, n.a, self.c, n.b, zero),
            b: Scalar::spec_fused(self.b, n.a, self.d, n.b, zero),
            c: Scalar::spec_fused(self.a, n.c, self.c, n.d, zero),
            d: Scalar::spec_fused(self.b, n.c, self.d, n.d, zero),
            e: Scalar::spec_fused(self.a, n.e, self.c, n.f, self.e),
            f: Scalar::spec_fused(self.b, n.e, self.d, n.f, self.f),
        }
    }

    /// Where the transform sends the point `(x, y)`.
    pub open spec fn spec_apply(self, x: Scalar, y: Scalar) -> (Scalar, Scalar) {
        (
            Scalar::spec_fused(self.a, x, self.c, y, self.e),
            Scalar::spec_fused(self.b, x, self.d, y, self.f),
        )
    }

    /// The transform with the six coefficients given.
    pub fn new(a: Scalar, b: Scalar, c: Scalar, d: Scalar, e: Scalar, f: Scalar) -> (m: Transform)
        ensures
            m == (Transform { a, b, c, d, e, f }),
    {
        Transform { a, b, c, d, e, f }
    }

    /// The transform that moves nothing.
    pub fn identity() -> (m: Transform)
        ensures
            m == Transform::spec_identity(),
    {
        Transform {
            a: Scalar::one(),
            b: Scalar::zero(),
            c: Scalar::zero(),
            d: Scalar::one(),
            e: Scalar::zero(),
            f: Scalar::zero(),
        }
    }

    /// The shift by `(x, y)`.
    pub fn translation(x: Scalar, y: Scalar) -> (m: Transform)
        ensures
            m == Transform::spec_translation(x, y),
    {
        Transform {
            a: Scalar::one(),
            b: Scalar::zero(),
            c: Scalar::zero(),
            d: Scalar::one(),
            e: x,
            f: y,
        }
    }

    /// The scaling by `x` and `y`.
    pub fn scaling(x: Scalar, y: Scalar) -> (m: Transform)
        ensures
            m == Transform::spec_scaling(x, y),
    {
        Transform {
            a: x,
            b: Scalar::zero(),
            c: Scalar::zero(),
            d: y,
            e: Scalar::zero(),
            f: Scalar::zero(),
        }
    }

    /// The rotation about the origin by `angle`.
    pub fn rotation(angle: Angle) -> (m: Transform)
        ensures
            m == Transform::spec_rotation(angle),
    {
        Transform {
            a: angle.cos,
            b: angle.sin,
            c: angle.sin.neg(),
            d: angle.cos,
            e: Scalar::zero(),
            f: Scalar::zero(),
        }
    }

    /// `self` after `n`.
    pub fn compose(self, n: Transform) -> (m: Transform)
        ensures
            m == self.spec_compose(n),
    {
        let zero = Scalar::zero();
        Transform {
            a: Scalar::fused(self.a, n.a, self.c, n.b, zero),
            b: Scalar::fused(self.b, n.a, self.d, n.b, zero),
            c: Scalar::fused(self.a, n.c, self.c, n.d, zero),
            d: Scalar::fused(self.b, n.c, self.d, n.d, zero),
            e: Scalar::fused(self.a, n.e, self.c, n.f, self.e),
            f: Scalar::fused(self.b, n.e, self.d, n.f, self.f),
        }
    }

    /// Where the transform sends the point `(x, y)`.
    pub fn apply(self, x: Scalar, y: Scalar) -> (p: (Scalar, Scalar))
        ensures
            p == self.spec_apply(x, y),
    {
        (
            Scalar::fused(self.a, x, self.c, y, self.e),
            Scalar::fused(self.b, x, self.d, y, self.f),
        )
    }

    /// Whether this is the identity, coefficient by coefficient.
    pub fn is_identity(self) -> (r: bool)
        ensures
            r == (self == Transform::spec_identity()),
    {
        self.a.nanos == NANOS_PER_UNIT && self.b.nanos == 0 && self.c.nanos == 0 && self.d.nanos
            == NANOS_PER_UNIT && self.e.nanos == 0 && self.f.nanos == 0
    }
}

/// All that composing `m` with `n` comes to, coefficient by coefficient,
/// where products or addends are nothing.
proof fn lemma_compose_simplifies(m: Transform, n: Transform) {
    let zero = Scalar { nanos: 0 };
    lemma_fused_simplifies(m.a, n.a, m.c, n.b, zero);
    lemma_fused_simplifies(m.b, n.a, m.d, n.b, zero);
    lemma_fused_simplifies(m.a, n.c, m.c, n.d, zero);
    lemma_fused_simplifies(m.b, n.c, m.d, n.d, zero);
    lemma_fused_simplifies(m.a, n.e, m.c, n.f, m.e);
    lemma_fused_simplifies(m.b, n.e, m.d, n.f, m.f);
    lemma_fused_simplifies(m.c, n.b, m.a, n.a, zero);
    lemma_fused_simplifies(m.d, n.b, m.b, n.a, zero);
    lemma_fused_simplifies(m.c, n.d, m.a, n.c, zero);
    lemma_fused_simplifies(m.d, n.d, m.b, n.c, zero);
    lemma_fused_simplifies(m.c, n.f, m.a, n.e, m.e);
    lemma_fused_simplifies(m.d, n.f, m.b, n.e, m.f);
    assert(m.a.nanos * n.a.nanos + m.c.nanos * n.b.nanos == m.c.nanos * n.b.nanos + m.a.nanos
        * n.a.nanos);
}

/// The identity is neutral for composition, on either side.
pub proof fn lemma_compose_identity(m: Transform)
    ensures
        m.spec_compose(Transform::spec_identity()) == m,
        Transform::spec_identity().spec_compose(m) == m,
{
    let zero = Scalar { nanos: 0 };
    let one = Scalar { nanos: NANOS_PER_UNIT };
    lemma_compose_simplifies(m, Transform::spec_identity());
    lemma_compose_simplifies(Transform::spec_identity(), m);
    lemma_mul_one(m.a);
    lemma_mul_one(m.b);
    lemma_mul_one(m.c);
    lemma_mul_one(m.d);
    lemma_mul_one(m.e);
    lemma_mul_one(m.f);
    lemma_fused_simplifies(zero, m.b, one, m.d, zero);
    lemma_fused_simplifies(one, m.a, zero, m.b, zero);
    lemma_fused_simplifies(one, m.c, zero, m.d, zero);
    lemma_fused_simplifies(one, m.e, zero, m.f, zero);
    lemma_fused_simplifies(m.e, one, zero, m.f, zero);
    lemma_fused_simplifies(m.f, one, zero, m.e, zero);
    assert(Transform::spec_identity().spec_compose(m).e == m.e) by {
        assert(NANOS_PER_UNIT * m.e.nanos + 0 * m.f.nanos + 0 * NANOS_PER_UNIT == m.e.nanos
            * NANOS_PER_UNIT) by (nonlinear_arith);
    }
    assert(Transform::spec_identity().spec_compose(m).f == m.f) by {
        assert(0 * m.e.nanos + NANOS_PER_UNIT * m.f.nanos + 0 * NANOS_PER_UNIT == m.f.nanos
            * NANOS_PER_UNIT) by (nonlinear_arith);
    }
    assert(Transform::spec_identity().spec_compose(m).b == m.b) by {
        assert(0 * m.a.nanos + NANOS_PER_UNIT * m.b.nanos + 0 * NANOS_PER_UNIT == m.b.nanos
            * NANOS_PER_UNIT) by (nonlinear_arith);
    }
    assert(Transform::spec_identity().spec_compose(m).d == m.d) by {
        assert(0 * m.c.nanos + NANOS_PER_UNIT * m.d.nanos + 0 * NANOS_PER_UNIT == m.d.nanos
            * NANOS_PER_UNIT) by (nonlinear_arith);
    }
    assert(m.spec_compose(Transform::spec_identity()).c == m.c) by {
        assert(m.a.nanos * 0 + m.c.nanos * NANOS_PER_UNIT + 0 * NANOS_PER_UNIT == m.c.nanos
            * NANOS_PER_UNIT) by (nonlinear_arith);
    }
    assert(m.spec_compose(Transform::spec_identity()).d == m.d) by {
        assert(m.b.nanos * 0 + m.d.nanos * NANOS_PER_UNIT + 0 * NANOS_PER_UNIT == m.d.nanos
            * NANOS_PER_UNIT) by (nonlinear_arith);
    }
}

/// A shift by `(tx, ty)` followed by a scaling by `(sx, sy)` is the single
/// transform `(sx, 0, 0, sy, tx, ty)`.
pub proof fn lemma_translation_then_scaling(tx: Scalar, ty: Scalar, sx: Scalar, sy: Scalar)
    ensures
        Transform::spec_translation(tx, ty).spec_compose(Transform::spec_scaling(sx, sy)) == (
        Transform {
            a: sx,
            b: Scalar { nanos: 0 },
            c: Scalar { nanos: 0 },
            d: sy,
            e: tx,
            f: ty,
        }),
{
    let shift = Transform::spec_translation(tx, ty);
    let scale = Transform::spec_scaling(sx, sy);
    lemma_compose_simplifies(shift, scale);
    lemma_mul_one(sx);
    lemma_mul_one(sy);
    lemma_mul_zero(sx);
    lemma_mul_zero(sy);
    assert(shift.spec_compose(scale).d == sy) by {
        assert(0 * 0 + NANOS_PER_UNIT * sy.nanos + 0 * NANOS_PER_UNIT == sy.nanos
            * NANOS_PER_UNIT) by (nonlinear_arith);
    }
}

/// Composition is associative over a shift and a scaling: composing `m` with
/// the shift and the result with the scaling gives the transform that
/// composing `m` with their product gives, whatever the five are. Its
/// linear part is that of `m` with each column scaled, and its origin is
/// where `m` sends `(tx, ty)`.
pub proof fn lemma_compose_translation_scaling_associative(
    m: Transform,
    tx: Scalar,
    ty: Scalar,
    sx: Scalar,
    sy: Scalar,
)
    ensures
        m.spec_compose(Transform::spec_translation(tx, ty)).spec_compose(
            Transform::spec_scaling(sx, sy),
        ) == m.spec_compose(
            Transform::spec_translation(tx, ty).spec_compose(Transform::spec_scaling(sx, sy)),
        ),
        m.spec_compose(Transform::spec_translation(tx, ty)).spec_compose(
            Transform::spec_scaling(sx, sy),
        ) == (Transform {
            a: m.a.spec_mul(sx),
            b: m.b.spec_mul(sx),
            c: m.c.spec_mul(sy),
            d: m.d.spec_mul(sy),
            e: m.spec_apply(tx, ty).0,
            f: m.spec_apply(tx, ty).1,
        }),
{
    lemma_translation_then_scaling(tx, ty, sx, sy);
    let shift = Transform::spec_translation(tx, ty);
    let scale = Transform::spec_scaling(sx, sy);
    let shifted = m.spec_compose(shift);
    let direct = Transform {
        a: sx,
        b: Scalar { nanos: 0 },
        c: Scalar { nanos: 0 },
        d: sy,
        e: tx,
        f: ty,
    };
    lemma_compose_simplifies(m, shift);
    lemma_mul_one(m.a);
    lemma_mul_one(m.b);
    lemma_mul_one(m.c);
    lemma_mul_one(m.d);
    assert(shifted.c == m.c) by {
        assert(m.a.nanos * 0 + m.c.nanos * NANOS_PER_UNIT + 0 * NANOS_PER_UNIT == m.c.nanos
            * NANOS_PER_UNIT) by (nonlinear_arith);
    }
    assert(shifted.d == m.d) by {
        assert(m.b.nanos * 0 + m.d.nanos * NANOS_PER_UNIT + 0 * NANOS_PER_UNIT == m.d.nanos
            * NANOS_PER_UNIT) by (nonlinear_arith);
    }
    assert(shifted.a == m.a && shifted.b == m.b);
    assert(shifted.e == m.spec_apply(tx, ty).0 && shifted.f == m.spec_apply(tx, ty).1);
    lemma_compose_simplifies(shifted, scale);
    lemma_compose_simplifies(m, direct);
    assert(shifted.spec_compose(scale).c == m.c.spec_mul(sy)) by {
        lemma_fused_simplifies(m.a, Scalar { nanos: 0 }, m.c, sy, Scalar { nanos: 0 });
    }
    assert(shifted.spec_compose(scale).d == m.d.spec_mul(sy)) by {
        lemma_fused_simplifies(m.b, Scalar { nanos: 0 }, m.d, sy, Scalar { nanos: 0 });
    }
}

} // verus!
