//! Fixed-point quaternions: the orientation representation probes deliver,
//! its conversion to a rotation block, and the extraction of a quaternion
//! back out of a rotation block.

use vstd::prelude::*;

use crate::num::{lemma_mul_abs_le, lemma_rdiv_le, lemma_sqrt_floor_at_least, rdiv, rdiv_i,
    sqrt_floor, isqrt, SCALE};
use crate::transform::{IsFrameOfReference, Transform, ROT_LIM, T4};
use crate::vec3::{v3_in_bounds, V3, Vec3};

verus! {

/// Bound on the magnitude of a raw quaternion component; far above the unit
/// quaternions a tracker delivers, and small enough that a squared norm times
/// [`SCALE`] stays comfortably within `i128`.
pub const QUAT_LIM: i128 = 0x40000000;

/// The model of a quaternion: four unbounded integer components, `w` the
/// scalar part.
pub ghost struct Q4 {
    pub w: int,
    pub x: int,
    pub y: int,
    pub z: int,
}

/// A fixed-point quaternion `(w, x, y, z)`; each component holds the real
/// value times [`SCALE`].
#[derive(Clone, Copy, PartialEq, Eq, Structural, Debug)]
pub struct Quat {
    pub w: i128,
    pub x: i128,
    pub y: i128,
    pub z: i128,
}

impl View for Quat {
    type V = Q4;

    open spec fn view(&self) -> Q4 {
        Q4 { w: self.w as int, x: self.x as int, y: self.y as int, z: self.z as int }
    }
}

pub open spec fn q4_in_bounds(q: Q4, lim: int) -> bool {
    -lim <= q.w <= lim && -lim <= q.x <= lim && -lim <= q.y <= lim && -lim <= q.z <= lim
}

/// The squared norm of a quaternion.
pub open spec fn q4_norm2(q: Q4) -> int {
    q.w * q.w + q.x * q.x + q.y * q.y + q.z * q.z
}

/// First column of the rotation a quaternion induces, at scale [`SCALE`].
/// The quaternion need not be unit length: each entry is divided by the
/// squared norm, which is exactly the normalization the usual unit-quaternion
/// formula performs.
pub open spec fn quat_col_i(q: Q4) -> V3 {
    let n2 = q4_norm2(q);
    V3 {
        x: rdiv((q.w * q.w + q.x * q.x - q.y * q.y - q.z * q.z) * SCALE, n2),
        y: rdiv(2 * (q.x * q.y + q.w * q.z) * SCALE, n2),
        z: rdiv(2 * (q.x * q.z - q.w * q.y) * SCALE, n2),
    }
}

/// Second column of the rotation a quaternion induces.
pub open spec fn quat_col_j(q: Q4) -> V3 {
    let n2 = q4_norm2(q);
    V3 {
        x: rdiv(2 * (q.x * q.y - q.w * q.z) * SCALE, n2),
        y: rdiv((q.w * q.w - q.x * q.x + q.y * q.y - q.z * q.z) * SCALE, n2),
        z: rdiv(2 * (q.y * q.z + q.w * q.x) * SCALE, n2),
    }
}

/// Third column of the rotation a quaternion induces.
pub open spec fn quat_col_k(q: Q4) -> V3 {
    let n2 = q4_norm2(q);
    V3 {
        x: rdiv(2 * (q.x * q.z + q.w * q.y) * SCALE, n2),
        y: rdiv(2 * (q.y * q.z - q.w * q.x) * SCALE, n2),
        z: rdiv((q.w * q.w - q.x * q.x - q.y * q.y + q.z * q.z) * SCALE, n2),
    }
}

/// A nonzero quaternion has a positive squared norm.
pub(crate) proof fn lemma_q4_norm2_pos(q: Q4)
    requires
        q.w != 0 || q.x != 0 || q.y != 0 || q.z != 0,
    ensures
        q4_norm2(q) > 0,
{
    crate::vec3::lemma_square_nonneg(q.w);
    crate::vec3::lemma_square_nonneg(q.x);
    crate::vec3::lemma_square_nonneg(q.y);
    crate::vec3::lemma_square_nonneg(q.z);
    if q.w != 0 {
        assert(q.w * q.w > 0) by (nonlinear_arith)
            requires
                q.w != 0,
        ;
    } else if q.x != 0 {
        assert(q.x * q.x > 0) by (nonlinear_arith)
            requires
                q.x != 0,
        ;
    } else if q.y != 0 {
        assert(q.y * q.y > 0) by (nonlinear_arith)
            requires
                q.y != 0,
        ;
    } else {
        assert(q.z * q.z > 0) by (nonlinear_arith)
            requires
                q.z != 0,
        ;
    }
}

/// Both products of two components are dominated by the two squares.
proof fn lemma_amgm(u: int, v: int)
    by (nonlinear_arith)
    ensures
        -(u * u + v * v) <= 2 * (u * v) <= u * u + v * v,
{
}

/// The three rotation columns of a bounded nonzero quaternion, each entry
/// within [`SCALE`] because every numerator is dominated by the squared norm.
#[verifier::rlimit(60)]
pub(crate) fn quat_cols(q: &Quat) -> (r: (Vec3, Vec3, Vec3))
    requires
        q4_in_bounds(q@, QUAT_LIM as int),
        q4_norm2(q@) > 0,
    ensures
        r.0@ == quat_col_i(q@),
        r.1@ == quat_col_j(q@),
        r.2@ == quat_col_k(q@),
        v3_in_bounds(r.0@, SCALE as int),
        v3_in_bounds(r.1@, SCALE as int),
        v3_in_bounds(r.2@, SCALE as int),
{
    proof {
        let w = q@.w;
        let x = q@.x;
        let y = q@.y;
        let z = q@.z;
        let n2 = q4_norm2(q@);
        lemma_mul_abs_le(w, w, QUAT_LIM as int, QUAT_LIM as int);
        lemma_mul_abs_le(x, x, QUAT_LIM as int, QUAT_LIM as int);
        lemma_mul_abs_le(y, y, QUAT_LIM as int, QUAT_LIM as int);
        lemma_mul_abs_le(z, z, QUAT_LIM as int, QUAT_LIM as int);
        lemma_mul_abs_le(x, y, QUAT_LIM as int, QUAT_LIM as int);
        lemma_mul_abs_le(w, z, QUAT_LIM as int, QUAT_LIM as int);
        lemma_mul_abs_le(x, z, QUAT_LIM as int, QUAT_LIM as int);
        lemma_mul_abs_le(w, y, QUAT_LIM as int, QUAT_LIM as int);
        lemma_mul_abs_le(y, z, QUAT_LIM as int, QUAT_LIM as int);
        lemma_mul_abs_le(w, x, QUAT_LIM as int, QUAT_LIM as int);
        crate::vec3::lemma_square_nonneg(w);
        crate::vec3::lemma_square_nonneg(x);
        crate::vec3::lemma_square_nonneg(y);
        crate::vec3::lemma_square_nonneg(z);
        lemma_amgm(x, y);
        lemma_amgm(w, z);
        lemma_amgm(x, z);
        lemma_amgm(w, y);
        lemma_amgm(y, z);
        lemma_amgm(w, x);
        lemma_quat_entry(w * w + x * x - y * y - z * z, n2);
        lemma_quat_entry(2 * (x * y + w * z), n2);
        lemma_quat_entry(2 * (x * z - w * y), n2);
        lemma_quat_entry(2 * (x * y - w * z), n2);
        lemma_quat_entry(w * w - x * x + y * y - z * z, n2);
        lemma_quat_entry(2 * (y * z + w * x), n2);
        lemma_quat_entry(2 * (x * z + w * y), n2);
        lemma_quat_entry(2 * (y * z - w * x), n2);
        lemma_quat_entry(w * w - x * x - y * y + z * z, n2);
    }
    let n2e: i128 = q.w * q.w + q.x * q.x + q.y * q.y + q.z * q.z;
    let ci = Vec3 {
        x: rdiv_i((q.w * q.w + q.x * q.x - q.y * q.y - q.z * q.z) * SCALE, n2e),
        y: rdiv_i(2 * (q.x * q.y + q.w * q.z) * SCALE, n2e),
        z: rdiv_i(2 * (q.x * q.z - q.w * q.y) * SCALE, n2e),
    };
    let cj = Vec3 {
        x: rdiv_i(2 * (q.x * q.y - q.w * q.z) * SCALE, n2e),
        y: rdiv_i((q.w * q.w - q.x * q.x + q.y * q.y - q.z * q.z) * SCALE, n2e),
        z: rdiv_i(2 * (q.y * q.z + q.w * q.x) * SCALE, n2e),
    };
    let ck = Vec3 {
        x: rdiv_i(2 * (q.x * q.z + q.w * q.y) * SCALE, n2e),
        y: rdiv_i(2 * (q.y * q.z - q.w * q.x) * SCALE, n2e),
        z: rdiv_i((q.w * q.w - q.x * q.x - q.y * q.y + q.z * q.z) * SCALE, n2e),
    };
    (ci, cj, ck)
}

/// A rotation-matrix numerator dominated by the squared norm yields, after
/// the scaled division, an entry within [`SCALE`].
proof fn lemma_quat_entry(num: int, n2: int)
    requires
        n2 > 0,
        -n2 <= num <= n2,
    ensures
        -(SCALE as int) <= rdiv(num * SCALE, n2) <= SCALE as int,
{
    broadcast use vstd::arithmetic::mul::lemma_mul_is_commutative;

    lemma_mul_abs_le(num, SCALE as int, n2, SCALE as int);
    lemma_rdiv_le(num * SCALE, n2, SCALE as int);
}

/// Whether a rotation block admits the quaternion extraction: the branch on
/// the dominant diagonal entry must find a positive radicand. Every rotation
/// matrix proper does; a block far from orthonormal may not.
pub open spec fn rot_quat_defined(t: T4) -> bool {
    let s = SCALE as int;
    let trace = t.i.x + t.j.y + t.k.z;
    if trace >= 0 {
        true
    } else if t.i.x >= t.j.y && t.i.x >= t.k.z {
        s + t.i.x - t.j.y - t.k.z > 0
    } else if t.j.y >= t.k.z {
        s + t.j.y - t.i.x - t.k.z > 0
    } else {
        s + t.k.z - t.i.x - t.j.y > 0
    }
}

/// The quaternion a rotation block re-expresses, at scale [`SCALE`]: the
/// branch on the dominant diagonal entry of the classical extraction, each
/// component a rounded quotient against twice the integer square root of the
/// scaled radicand. On an orthonormal block the four components agree with
/// the rotation to rounding tolerance; the branch keeps the divisor large so
/// no component is a quotient of near-vanishing quantities.
pub open spec fn rot_quat_spec(t: T4) -> Q4 {
    let s = SCALE as int;
    let trace = t.i.x + t.j.y + t.k.z;
    if trace >= 0 {
        let d = sqrt_floor((s * (s + trace)) as nat) as int;
        Q4 {
            w: rdiv(d, 2),
            x: rdiv((t.j.z - t.k.y) * s, 2 * d),
            y: rdiv((t.k.x - t.i.z) * s, 2 * d),
            z: rdiv((t.i.y - t.j.x) * s, 2 * d),
        }
    } else if t.i.x >= t.j.y && t.i.x >= t.k.z {
        let d = sqrt_floor((s * (s + t.i.x - t.j.y - t.k.z)) as nat) as int;
        Q4 {
            w: rdiv((t.j.z - t.k.y) * s, 2 * d),
            x: rdiv(d, 2),
            y: rdiv((t.j.x + t.i.y) * s, 2 * d),
            z: rdiv((t.k.x + t.i.z) * s, 2 * d),
        }
    } else if t.j.y >= t.k.z {
        let d = sqrt_floor((s * (s + t.j.y - t.i.x - t.k.z)) as nat) as int;
        Q4 {
            w: rdiv((t.k.x - t.i.z) * s, 2 * d),
            x: rdiv((t.j.x + t.i.y) * s, 2 * d),
            y: rdiv(d, 2),
            z: rdiv((t.k.y + t.j.z) * s, 2 * d),
        }
    } else {
        let d = sqrt_floor((s * (s + t.k.z - t.i.x - t.j.y)) as nat) as int;
        Q4 {
            w: rdiv((t.i.y - t.j.x) * s, 2 * d),
            x: rdiv((t.k.x + t.i.z) * s, 2 * d),
            y: rdiv((t.k.y + t.j.z) * s, 2 * d),
            z: rdiv(d, 2),
        }
    }
}

impl<T, V> Transform<T, V> where T: IsFrameOfReference, V: IsFrameOfReference {
    /// The rotation block re-expressed as a quaternion at scale [`SCALE`].
    /// `None` exactly when the block is too far from a rotation for the
    /// extraction's radicand to stay positive, which no rigid pose produces.
    pub fn rotation(&self) -> (r: Option<Quat>)
        requires
            self.wf(),
        ensures
            r is Some <==> rot_quat_defined(self@),
            r matches Some(q) ==> q@ == rot_quat_spec(self@),
    {
        let s: i128 = SCALE;
        let i = self.i();
        let j = self.j();
        let k = self.k();
        let trace: i128 = i.x + j.y + k.z;
        if trace >= 0 {
            let di = extraction_root(s + trace);
            Some(
                Quat {
                    w: rdiv_i(di, 2),
                    x: scaled_quotient(j.z - k.y, di),
                    y: scaled_quotient(k.x - i.z, di),
                    z: scaled_quotient(i.y - j.x, di),
                },
            )
        } else if i.x >= j.y && i.x >= k.z {
            let m: i128 = s + i.x - j.y - k.z;
            if m <= 0 {
                return None;
            }
            let di = extraction_root(m);
            Some(
                Quat {
                    w: scaled_quotient(j.z - k.y, di),
                    x: rdiv_i(di, 2),
                    y: scaled_quotient(j.x + i.y, di),
                    z: scaled_quotient(k.x + i.z, di),
                },
            )
        } else if j.y >= k.z {
            let m: i128 = s + j.y - i.x - k.z;
            if m <= 0 {
                return None;
            }
            let di = extraction_root(m);
            Some(
                Quat {
                    w: scaled_quotient(k.x - i.z, di),
                    x: scaled_quotient(j.x + i.y, di),
                    y: rdiv_i(di, 2),
                    z: scaled_quotient(k.y + j.z, di),
                },
            )
        } else {
            let m: i128 = s + k.z - i.x - j.y;
            if m <= 0 {
                return None;
            }
            let di = extraction_root(m);
            Some(
                Quat {
                    w: scaled_quotient(i.y - j.x, di),
                    x: scaled_quotient(k.x + i.z, di),
                    y: scaled_quotient(k.y + j.z, di),
                    z: rdiv_i(di, 2),
                },
            )
        }
    }
}

/// The integer square root of `SCALE` times a positive radicand.
fn extraction_root(m: i128) -> (r: i128)
    requires
        0 < m <= 0x100000000000000,
    ensures
        r == sqrt_floor((SCALE as int * m) as nat),
        0 < r <= 0x100000000000,
{
    proof {
        assert(SCALE as int * m <= SCALE as int * 0x100000000000000) by (nonlinear_arith)
            requires
                0 < m <= 0x100000000000000,
        ;
        assert(SCALE as int * m >= SCALE as int * 1) by (nonlinear_arith)
            requires
                m >= 1,
        ;
    }
    let n: u128 = (SCALE * m) as u128;
    let d: u128 = isqrt(n);
    proof {
        crate::num::lemma_sqrt_floor_bounds(n as nat);
        lemma_sqrt_floor_at_least(n as nat, 1);
        assert(d as int * d as int <= n as int);
        assert(d as int <= 0x100000000000) by (nonlinear_arith)
            requires
                d as int * d as int <= n as int,
                n as int <= (0x100000000000 as int) * (0x100000000000 as int),
                d >= 0,
        ;
    }
    d as i128
}

/// One off-diagonal component of the extraction: a bounded numerator scaled
/// up and divided, rounded, by twice the extraction root.
fn scaled_quotient(num: i128, di: i128) -> (r: i128)
    requires
        -(2 * ROT_LIM) <= num <= 2 * ROT_LIM,
        0 < di <= 0x100000000000,
    ensures
        r == rdiv(num * SCALE, 2 * di),
{
    proof {
        lemma_mul_abs_le(num as int, SCALE as int, 2 * ROT_LIM as int, SCALE as int);
    }
    rdiv_i(num * SCALE, 2 * di)
}

} // verus!
