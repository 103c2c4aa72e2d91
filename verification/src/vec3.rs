//! Fixed-point 3-vectors: the executable representation, its mathematical
//! model, and the algebraic identities of the dot and cross products that the
//! anatomical-frame laws rest on.

use vstd::prelude::*;

use crate::num::{isqrt, lemma_mul_abs_le, lemma_rdiv_err, lemma_rdiv_le, lemma_rdiv_neg,
    lemma_sqrt_floor_at_least, lemma_sqrt_floor_bounds, rdiv, rdiv_i, sqrt_floor, ISQRT_LIM,
    RDIV_LIM, SCALE};

verus! {

/// The model of a vector: three unbounded integer coordinates.
pub ghost struct V3 {
    pub x: int,
    pub y: int,
    pub z: int,
}

/// Largest coordinate magnitude the vector operations accept; chosen so that
/// a sum of three coordinate products still fits in `i128`.
pub const COORD_LIM: i128 = 0x4000000000000000;

/// A fixed-point 3-vector; each coordinate holds the real value times
/// [`SCALE`].
#[derive(Clone, Copy, PartialEq, Eq, Structural, Debug)]
pub struct Vec3 {
    pub x: i128,
    pub y: i128,
    pub z: i128,
}

impl View for Vec3 {
    type V = V3;

    open spec fn view(&self) -> V3 {
        V3 { x: self.x as int, y: self.y as int, z: self.z as int }
    }
}

pub open spec fn v3_in_bounds(a: V3, lim: int) -> bool {
    -lim <= a.x <= lim && -lim <= a.y <= lim && -lim <= a.z <= lim
}

pub open spec fn v3_zero() -> V3 {
    V3 { x: 0, y: 0, z: 0 }
}

pub open spec fn v3_add(a: V3, b: V3) -> V3 {
    V3 { x: a.x + b.x, y: a.y + b.y, z: a.z + b.z }
}

pub open spec fn v3_sub(a: V3, b: V3) -> V3 {
    V3 { x: a.x - b.x, y: a.y - b.y, z: a.z - b.z }
}

pub open spec fn v3_neg(a: V3) -> V3 {
    V3 { x: -a.x, y: -a.y, z: -a.z }
}

pub open spec fn v3_scale(c: int, a: V3) -> V3 {
    V3 { x: c * a.x, y: c * a.y, z: c * a.z }
}

pub open spec fn v3_dot(a: V3, b: V3) -> int {
    a.x * b.x + a.y * b.y + a.z * b.z
}

pub open spec fn v3_cross(a: V3, b: V3) -> V3 {
    V3 {
        x: a.y * b.z - a.z * b.y,
        y: a.z * b.x - a.x * b.z,
        z: a.x * b.y - a.y * b.x,
    }
}

pub open spec fn v3_norm2(a: V3) -> int {
    v3_dot(a, a)
}

/// The midpoint of two points, each coordinate rounded to nearest.
pub open spec fn v3_midpoint(a: V3, b: V3) -> V3 {
    V3 { x: rdiv(a.x + b.x, 2), y: rdiv(a.y + b.y, 2), z: rdiv(a.z + b.z, 2) }
}

/// Scaling of a vector to length [`SCALE`]: each coordinate is multiplied by
/// `SCALE` and divided, rounded to nearest, by the integer square root of the
/// squared norm. Meaningful only for a nonzero vector.
pub open spec fn v3_normalize(a: V3) -> V3 {
    let n = sqrt_floor(v3_norm2(a) as nat) as int;
    V3 { x: rdiv(a.x * SCALE, n), y: rdiv(a.y * SCALE, n), z: rdiv(a.z * SCALE, n) }
}

/// A square is never negative.
pub proof fn lemma_square_nonneg(a: int)
    by (nonlinear_arith)
    ensures
        a * a >= 0,
{
}

/// A squared norm is never negative, and bounds each coordinate's square.
pub proof fn lemma_norm2_nonneg(a: V3)
    by (nonlinear_arith)
    ensures
        v3_norm2(a) >= 0,
        a.x * a.x <= v3_norm2(a),
        a.y * a.y <= v3_norm2(a),
        a.z * a.z <= v3_norm2(a),
{
}

/// A nonzero vector has a positive squared norm.
pub proof fn lemma_v3_norm2_pos(a: V3)
    requires
        a != v3_zero(),
    ensures
        v3_norm2(a) > 0,
{
    lemma_square_nonneg(a.x);
    lemma_square_nonneg(a.y);
    lemma_square_nonneg(a.z);
    if a.x != 0 {
        assert(a.x * a.x > 0) by (nonlinear_arith)
            requires
                a.x != 0,
        ;
    } else if a.y != 0 {
        assert(a.y * a.y > 0) by (nonlinear_arith)
            requires
                a.y != 0,
        ;
    } else {
        assert(a.z * a.z > 0) by (nonlinear_arith)
            requires
                a.z != 0,
        ;
    }
}

/// Coordinate bounds for a dot product.
pub proof fn lemma_dot_bounds(a: V3, b: V3, x: int, y: int)
    requires
        v3_in_bounds(a, x),
        v3_in_bounds(b, y),
    ensures
        -(3 * (x * y)) <= v3_dot(a, b) <= 3 * (x * y),
{
    lemma_mul_abs_le(a.x, b.x, x, y);
    lemma_mul_abs_le(a.y, b.y, x, y);
    lemma_mul_abs_le(a.z, b.z, x, y);
}

/// Coordinate bounds for a cross product.
pub proof fn lemma_cross_bounds(a: V3, b: V3, x: int, y: int)
    requires
        v3_in_bounds(a, x),
        v3_in_bounds(b, y),
    ensures
        v3_in_bounds(v3_cross(a, b), 2 * (x * y)),
{
    lemma_mul_abs_le(a.y, b.z, x, y);
    lemma_mul_abs_le(a.z, b.y, x, y);
    lemma_mul_abs_le(a.z, b.x, x, y);
    lemma_mul_abs_le(a.x, b.z, x, y);
    lemma_mul_abs_le(a.x, b.y, x, y);
    lemma_mul_abs_le(a.y, b.x, x, y);
}

/// A cross product is orthogonal to both of its factors, exactly.
#[verifier::rlimit(60)]
pub proof fn lemma_cross_orthogonal(a: V3, b: V3)
    by (nonlinear_arith)
    ensures
        v3_dot(v3_cross(a, b), a) == 0,
        v3_dot(v3_cross(a, b), b) == 0,
{
}

/// Negating either factor negates the cross product.
pub proof fn lemma_cross_neg(a: V3, b: V3)
    by (nonlinear_arith)
    ensures
        v3_cross(v3_neg(a), b) == v3_neg(v3_cross(a, b)),
        v3_cross(a, v3_neg(b)) == v3_neg(v3_cross(a, b)),
        v3_cross(v3_neg(a), v3_neg(b)) == v3_cross(a, b),
{
}

/// Normalization commutes with negation: the rounding of [`rdiv`] is
/// antisymmetric, so the normalized vector of `-a` is exactly the negation of
/// the normalized vector of `a`.
pub proof fn lemma_normalize_neg(a: V3)
    requires
        v3_norm2(a) > 0,
    ensures
        v3_normalize(v3_neg(a)) == v3_neg(v3_normalize(a)),
{
    assert(v3_norm2(v3_neg(a)) == v3_norm2(a)) by (nonlinear_arith);
    let n = sqrt_floor(v3_norm2(a) as nat) as int;
    lemma_sqrt_floor_bounds(v3_norm2(a) as nat);
    assert((-a.x) * SCALE == -(a.x * SCALE)) by (nonlinear_arith);
    assert((-a.y) * SCALE == -(a.y * SCALE)) by (nonlinear_arith);
    assert((-a.z) * SCALE == -(a.z * SCALE)) by (nonlinear_arith);
    if n > 0 {
        lemma_rdiv_neg(a.x * SCALE, n);
        lemma_rdiv_neg(a.y * SCALE, n);
        lemma_rdiv_neg(a.z * SCALE, n);
    } else {
        assert(1 * 1 <= v3_norm2(a));
        lemma_sqrt_floor_at_least(v3_norm2(a) as nat, 1);
    }
}

/// A normalized vector stays within [`SCALE`] in every coordinate.
pub proof fn lemma_normalize_in_bounds(a: V3)
    requires
        v3_norm2(a) > 0,
    ensures
        v3_in_bounds(v3_normalize(a), SCALE as int),
{
    broadcast use vstd::arithmetic::mul::lemma_mul_is_commutative;

    let nn = v3_norm2(a);
    let n = sqrt_floor(nn as nat) as int;
    lemma_sqrt_floor_bounds(nn as nat);
    lemma_sqrt_floor_at_least(nn as nat, 1);
    lemma_sqrt_floor_at_least_coord(a, nn);
    lemma_mul_abs_le(a.x, SCALE as int, n, SCALE as int);
    lemma_mul_abs_le(a.y, SCALE as int, n, SCALE as int);
    lemma_mul_abs_le(a.z, SCALE as int, n, SCALE as int);
    lemma_rdiv_le(a.x * SCALE, n, SCALE as int);
    lemma_rdiv_le(a.y * SCALE, n, SCALE as int);
    lemma_rdiv_le(a.z * SCALE, n, SCALE as int);
}

/// A normalized vector has squared length `SCALE²` to rounding tolerance,
/// provided the vector it came from was at least one unit long: each
/// coordinate's rounding is within half a unit, and the integer square root
/// is within one part in `SCALE`.
pub proof fn lemma_normalize_unit_length(a: V3)
    requires
        v3_norm2(a) >= SCALE as int * SCALE as int,
    ensures
        SCALE as int * SCALE as int - 3 * SCALE as int <= v3_norm2(v3_normalize(a)),
        v3_norm2(v3_normalize(a)) <= SCALE as int * SCALE as int + 5 * SCALE as int + 1,
{
    broadcast use vstd::arithmetic::mul::lemma_mul_is_commutative;

    let s = SCALE as int;
    let nn = v3_norm2(a);
    let n = sqrt_floor(nn as nat) as int;
    let u = v3_normalize(a);
    lemma_square_nonneg(s);
    lemma_sqrt_floor_bounds(nn as nat);
    assert((s as nat) * (s as nat) <= nn as nat);
    lemma_sqrt_floor_at_least(nn as nat, s as nat);
    lemma_sqrt_floor_at_least_coord(a, nn);
    vstd::arithmetic::div_mod::lemma_fundamental_div_mod(n, 2);
    vstd::arithmetic::div_mod::lemma_mod_bound(n, 2);
    assert(2 * (n / 2) <= n);
    lemma_rdiv_err(a.x * s, n);
    lemma_rdiv_err(a.y * s, n);
    lemma_rdiv_err(a.z * s, n);
    let ex = u.x * n - a.x * s;
    let ey = u.y * n - a.y * s;
    let ez = u.z * n - a.z * s;
    lemma_mul_abs_le(a.x, s, n, s);
    lemma_mul_abs_le(a.y, s, n, s);
    lemma_mul_abs_le(a.z, s, n, s);
    lemma_mul_abs_le(a.x * s, ex, n * s, n / 2);
    lemma_mul_abs_le(a.y * s, ey, n * s, n / 2);
    lemma_mul_abs_le(a.z * s, ez, n * s, n / 2);
    lemma_mul_abs_le(ex, ex, n / 2, n / 2);
    lemma_mul_abs_le(ey, ey, n / 2, n / 2);
    lemma_mul_abs_le(ez, ez, n / 2, n / 2);
    assert(2 * ((n * s) * (n / 2)) <= s * (n * n)) by (nonlinear_arith)
        requires
            n >= 1 && s >= 0 && 2 * (n / 2) <= n && n / 2 >= 0,
    ;
    assert(3 * ((n / 2) * (n / 2)) <= n * n) by (nonlinear_arith)
        requires
            n >= 1 && 2 * (n / 2) <= n && n / 2 >= 0,
    ;
    // Expand each squared coordinate of the scaled-back normalization.
    assert((a.x * s + ex) * (a.x * s + ex) == (a.x * a.x) * (s * s) + 2 * ((a.x * s) * ex) + ex
        * ex) by (nonlinear_arith);
    assert((a.y * s + ey) * (a.y * s + ey) == (a.y * a.y) * (s * s) + 2 * ((a.y * s) * ey) + ey
        * ey) by (nonlinear_arith);
    assert((a.z * s + ez) * (a.z * s + ez) == (a.z * a.z) * (s * s) + 2 * ((a.z * s) * ez) + ez
        * ez) by (nonlinear_arith);
    assert((u.x * n) * (u.x * n) == (u.x * u.x) * (n * n)) by (nonlinear_arith);
    assert((u.y * n) * (u.y * n) == (u.y * u.y) * (n * n)) by (nonlinear_arith);
    assert((u.z * n) * (u.z * n) == (u.z * u.z) * (n * n)) by (nonlinear_arith);
    assert(u.x * n == a.x * s + ex && u.y * n == a.y * s + ey && u.z * n == a.z * s + ez);
    let ll = v3_norm2(u);
    assert((u.x * u.x) * (n * n) + (u.y * u.y) * (n * n) + (u.z * u.z) * (n * n) == ll * (n * n))
        by (nonlinear_arith)
        requires
            ll == u.x * u.x + u.y * u.y + u.z * u.z,
    ;
    assert((a.x * a.x) * (s * s) + (a.y * a.y) * (s * s) + (a.z * a.z) * (s * s) == nn * (s * s))
        by (nonlinear_arith)
        requires
            nn == a.x * a.x + a.y * a.y + a.z * a.z,
    ;
    lemma_square_nonneg(ex);
    lemma_square_nonneg(ey);
    lemma_square_nonneg(ez);
    // The scaled squared length, bracketed around `nn * s²`.
    assert(ll * (n * n) == nn * (s * s) + (2 * ((a.x * s) * ex) + 2 * ((a.y * s) * ey) + 2 * ((a.z
        * s) * ez)) + (ex * ex + ey * ey + ez * ez));
    assert(nn * (s * s) - 3 * (s * (n * n)) <= ll * (n * n));
    assert(ll * (n * n) <= nn * (s * s) + 3 * (s * (n * n)) + n * n);
    // Replace `nn` by its square-root bracket.
    assert(nn * (s * s) >= (n * n) * (s * s)) by (nonlinear_arith)
        requires
            nn >= n * n && s * s >= 0,
    ;
    assert(nn <= n * n + 2 * n) by (nonlinear_arith)
        requires
            nn < (n + 1) * (n + 1),
    ;
    assert(nn * (s * s) <= (n * n) * (s * s) + (2 * n) * (s * s)) by (nonlinear_arith)
        requires
            nn <= n * n + 2 * n && s * s >= 0,
    ;
    assert((2 * n) * (s * s) <= 2 * (s * (n * n))) by (nonlinear_arith)
        requires
            1 <= s <= n,
    ;
    // Cancel the positive factor `n²`.
    assert(n * n >= 1) by (nonlinear_arith)
        requires
            n >= 1,
    ;
    assert((n * n) * (s * s) - 3 * (s * (n * n)) == (n * n) * (s * s - 3 * s)) by (nonlinear_arith);
    assert(ll >= s * s - 3 * s) by (nonlinear_arith)
        requires
            ll * (n * n) >= (n * n) * (s * s - 3 * s) && n * n >= 1,
    ;
    assert((n * n) * (s * s) + 2 * (s * (n * n)) + 3 * (s * (n * n)) + n * n == (n * n) * (s * s
        + 5 * s + 1)) by (nonlinear_arith);
    assert(ll <= s * s + 5 * s + 1) by (nonlinear_arith)
        requires
            ll * (n * n) <= (n * n) * (s * s + 5 * s + 1) && n * n >= 1,
    ;
}

/// Normalization keeps exact orthogonality to rounding tolerance: a vector
/// exactly orthogonal to `w` has, against the normalization of `w`, a dot
/// product within twice its own coordinate bound.
pub proof fn lemma_normalize_preserves_orthogonality(p: V3, w: V3, pb: int)
    requires
        v3_dot(p, w) == 0,
        v3_norm2(w) > 0,
        pb >= 0,
        v3_in_bounds(p, pb),
    ensures
        -(2 * pb) <= v3_dot(p, v3_normalize(w)) <= 2 * pb,
{
    broadcast use vstd::arithmetic::mul::lemma_mul_is_commutative;

    let s = SCALE as int;
    let nn = v3_norm2(w);
    let n = sqrt_floor(nn as nat) as int;
    let u = v3_normalize(w);
    lemma_sqrt_floor_bounds(nn as nat);
    lemma_sqrt_floor_at_least(nn as nat, 1);
    vstd::arithmetic::div_mod::lemma_fundamental_div_mod(n, 2);
    vstd::arithmetic::div_mod::lemma_mod_bound(n, 2);
    assert(2 * (n / 2) <= n);
    lemma_rdiv_err(w.x * s, n);
    lemma_rdiv_err(w.y * s, n);
    lemma_rdiv_err(w.z * s, n);
    let fx = u.x * n - w.x * s;
    let fy = u.y * n - w.y * s;
    let fz = u.z * n - w.z * s;
    lemma_mul_abs_le(p.x, fx, pb, n / 2);
    lemma_mul_abs_le(p.y, fy, pb, n / 2);
    lemma_mul_abs_le(p.z, fz, pb, n / 2);
    let d = v3_dot(p, u);
    assert(d * n == p.x * (u.x * n) + p.y * (u.y * n) + p.z * (u.z * n)) by (nonlinear_arith)
        requires
            d == p.x * u.x + p.y * u.y + p.z * u.z,
    ;
    assert(p.x * (w.x * s + fx) == (p.x * w.x) * s + p.x * fx) by (nonlinear_arith);
    assert(p.y * (w.y * s + fy) == (p.y * w.y) * s + p.y * fy) by (nonlinear_arith);
    assert(p.z * (w.z * s + fz) == (p.z * w.z) * s + p.z * fz) by (nonlinear_arith);
    assert((p.x * w.x) * s + (p.y * w.y) * s + (p.z * w.z) * s == 0) by (nonlinear_arith)
        requires
            p.x * w.x + p.y * w.y + p.z * w.z == 0,
    ;
    assert(d * n == p.x * fx + p.y * fy + p.z * fz);
    assert(2 * (pb * (n / 2)) <= pb * n) by (nonlinear_arith)
        requires
            pb >= 0 && 2 * (n / 2) <= n && n / 2 >= 0,
    ;
    assert(2 * (d * n) <= 3 * (pb * n) && -(3 * (pb * n)) <= 2 * (d * n));
    assert(-(2 * pb) <= d <= 2 * pb) by (nonlinear_arith)
        requires
            n >= 1 && pb >= 0 && 2 * (d * n) <= 3 * (pb * n) && -(3 * (pb * n)) <= 2 * (d * n),
    ;
}

impl Vec3 {
    /// A vector from its three fixed-point coordinates.
    pub fn new(x: i128, y: i128, z: i128) -> (r: Vec3)
        ensures
            r@ == (V3 { x: x as int, y: y as int, z: z as int }),
    {
        Vec3 { x, y, z }
    }

    /// Coordinatewise sum.
    pub fn add_v(&self, other: &Vec3) -> (r: Vec3)
        requires
            v3_in_bounds(self@, COORD_LIM as int),
            v3_in_bounds(other@, COORD_LIM as int),
        ensures
            r@ == v3_add(self@, other@),
    {
        Vec3 { x: self.x + other.x, y: self.y + other.y, z: self.z + other.z }
    }

    /// Coordinatewise difference.
    pub fn sub_v(&self, other: &Vec3) -> (r: Vec3)
        requires
            v3_in_bounds(self@, COORD_LIM as int),
            v3_in_bounds(other@, COORD_LIM as int),
        ensures
            r@ == v3_sub(self@, other@),
    {
        Vec3 { x: self.x - other.x, y: self.y - other.y, z: self.z - other.z }
    }

    /// Coordinatewise negation.
    pub fn neg_v(&self) -> (r: Vec3)
        requires
            v3_in_bounds(self@, COORD_LIM as int),
        ensures
            r@ == v3_neg(self@),
    {
        Vec3 { x: -self.x, y: -self.y, z: -self.z }
    }

    /// The midpoint of two points, rounded to nearest.
    pub fn midpoint(&self, other: &Vec3) -> (r: Vec3)
        requires
            v3_in_bounds(self@, COORD_LIM as int),
            v3_in_bounds(other@, COORD_LIM as int),
        ensures
            r@ == v3_midpoint(self@, other@),
    {
        Vec3 {
            x: rdiv_i(self.x + other.x, 2),
            y: rdiv_i(self.y + other.y, 2),
            z: rdiv_i(self.z + other.z, 2),
        }
    }

    /// The dot product.
    pub fn dot(&self, other: &Vec3) -> (r: i128)
        requires
            v3_in_bounds(self@, COORD_LIM as int),
            v3_in_bounds(other@, COORD_LIM as int),
        ensures
            r == v3_dot(self@, other@),
    {
        proof {
            lemma_dot_bounds(self@, other@, COORD_LIM as int, COORD_LIM as int);
            lemma_mul_abs_le(self@.x, other@.x, COORD_LIM as int, COORD_LIM as int);
            lemma_mul_abs_le(self@.y, other@.y, COORD_LIM as int, COORD_LIM as int);
            lemma_mul_abs_le(self@.z, other@.z, COORD_LIM as int, COORD_LIM as int);
        }
        self.x * other.x + self.y * other.y + self.z * other.z
    }

    /// The cross product.
    pub fn cross(&self, other: &Vec3) -> (r: Vec3)
        requires
            v3_in_bounds(self@, COORD_LIM as int),
            v3_in_bounds(other@, COORD_LIM as int),
        ensures
            r@ == v3_cross(self@, other@),
    {
        proof {
            lemma_cross_bounds(self@, other@, COORD_LIM as int, COORD_LIM as int);
            lemma_mul_abs_le(self@.y, other@.z, COORD_LIM as int, COORD_LIM as int);
            lemma_mul_abs_le(self@.z, other@.y, COORD_LIM as int, COORD_LIM as int);
            lemma_mul_abs_le(self@.z, other@.x, COORD_LIM as int, COORD_LIM as int);
            lemma_mul_abs_le(self@.x, other@.z, COORD_LIM as int, COORD_LIM as int);
            lemma_mul_abs_le(self@.x, other@.y, COORD_LIM as int, COORD_LIM as int);
            lemma_mul_abs_le(self@.y, other@.x, COORD_LIM as int, COORD_LIM as int);
        }
        Vec3 {
            x: self.y * other.z - self.z * other.y,
            y: self.z * other.x - self.x * other.z,
            z: self.x * other.y - self.y * other.x,
        }
    }

    /// Scale the vector to length [`SCALE`]. Returns `None` exactly for the
    /// zero vector, whose direction is undefined; a `Some` result has every
    /// coordinate bounded by [`SCALE`].
    pub fn normalize(&self) -> (r: Option<Vec3>)
        requires
            v3_in_bounds(self@, COORD_LIM as int),
        ensures
            match r {
                Some(u) => self@ != v3_zero() && u@ == v3_normalize(self@) && v3_in_bounds(
                    u@,
                    SCALE as int,
                ),
                None => self@ == v3_zero(),
            },
    {
        let n2: i128 = self.dot(self);
        proof {
            lemma_norm2_nonneg(self@);
            lemma_dot_bounds(self@, self@, COORD_LIM as int, COORD_LIM as int);
            assert(3 * (COORD_LIM as int * COORD_LIM as int) < ISQRT_LIM as int);
        }
        let n: u128 = isqrt(n2 as u128);
        if n == 0 {
            proof {
                lemma_sqrt_floor_bounds(n2 as nat);
                assert(v3_norm2(self@) < 1 * 1);
                if self@ != v3_zero() {
                    lemma_square_nonneg(self@.x);
                    lemma_square_nonneg(self@.y);
                    lemma_square_nonneg(self@.z);
                    if self@.x != 0 {
                        assert(1 <= self@.x * self@.x) by (nonlinear_arith)
                            requires
                                self@.x != 0,
                        ;
                    }
                    if self@.y != 0 {
                        assert(1 <= self@.y * self@.y) by (nonlinear_arith)
                            requires
                                self@.y != 0,
                        ;
                    }
                    if self@.z != 0 {
                        assert(1 <= self@.z * self@.z) by (nonlinear_arith)
                            requires
                                self@.z != 0,
                        ;
                    }
                }
            }
            None
        } else {
            let ni: i128 = n as i128;
            proof {
                lemma_sqrt_floor_bounds(n2 as nat);
                assert(n as int * n as int <= n2 as int);
                assert(n as int <= 0x7fffffffffffffff as int) by (nonlinear_arith)
                    requires
                        n as int >= 1,
                        n as int * n as int <= n2 as int,
                        (0x8000000000000000 as int) * (0x8000000000000000 as int) > n2 as int,
                ;
                assert(COORD_LIM as int * SCALE as int <= RDIV_LIM as int);
                lemma_norm2_nonneg(self@);
                lemma_sqrt_floor_at_least_coord(self@, n2 as int);
                lemma_mul_abs_le(self@.x, SCALE as int, COORD_LIM as int, SCALE as int);
                lemma_mul_abs_le(self@.y, SCALE as int, COORD_LIM as int, SCALE as int);
                lemma_mul_abs_le(self@.z, SCALE as int, COORD_LIM as int, SCALE as int);
                lemma_mul_abs_le(self@.x, SCALE as int, n as int, SCALE as int);
                lemma_mul_abs_le(self@.y, SCALE as int, n as int, SCALE as int);
                lemma_mul_abs_le(self@.z, SCALE as int, n as int, SCALE as int);
                lemma_rdiv_le(self@.x * SCALE, n as int, SCALE as int);
                lemma_rdiv_le(self@.y * SCALE, n as int, SCALE as int);
                lemma_rdiv_le(self@.z * SCALE, n as int, SCALE as int);
            }
            Some(
                Vec3 {
                    x: rdiv_i(self.x * SCALE, ni),
                    y: rdiv_i(self.y * SCALE, ni),
                    z: rdiv_i(self.z * SCALE, ni),
                },
            )
        }
    }
}

/// The integer square root of a squared norm dominates each coordinate.
pub proof fn lemma_sqrt_floor_at_least_coord(a: V3, n2: int)
    requires
        n2 == v3_norm2(a),
    ensures
        -(sqrt_floor(n2 as nat) as int) <= a.x <= sqrt_floor(n2 as nat) as int,
        -(sqrt_floor(n2 as nat) as int) <= a.y <= sqrt_floor(n2 as nat) as int,
        -(sqrt_floor(n2 as nat) as int) <= a.z <= sqrt_floor(n2 as nat) as int,
{
    lemma_norm2_nonneg(a);
    let ax = if a.x >= 0 { a.x } else { -a.x };
    let ay = if a.y >= 0 { a.y } else { -a.y };
    let az = if a.z >= 0 { a.z } else { -a.z };
    assert(ax * ax == a.x * a.x) by (nonlinear_arith)
        requires
            ax == a.x || ax == -a.x,
    ;
    assert(ay * ay == a.y * a.y) by (nonlinear_arith)
        requires
            ay == a.y || ay == -a.y,
    ;
    assert(az * az == a.z * a.z) by (nonlinear_arith)
        requires
            az == a.z || az == -a.z,
    ;
    lemma_sqrt_floor_at_least(n2 as nat, ax as nat);
    lemma_sqrt_floor_at_least(n2 as nat, ay as nat);
    lemma_sqrt_floor_at_least(n2 as nat, az as nat);
}

} // verus!
