//! Fixed-point scalar arithmetic: the global scale, rounded division and the
//! integer square root, each with an exact integer specification.

use vstd::prelude::*;

verus! {

/// A fixed-point scalar holds the real value times `SCALE`.
pub const SCALE: i128 = 1048576;

/// Largest magnitude accepted by [`rdiv_i`]; keeps `|a| + b / 2` within `u128`.
pub const RDIV_LIM: i128 = 0x2000000000000000000000000000000;

/// Largest argument accepted by [`isqrt`]: `2^126`, so that the search can
/// start from a root bound of `2^63` without overflowing `u128`.
pub const ISQRT_LIM: u128 = 0x40000000000000000000000000000000;

/// Division of `a` by positive `b`, rounded to the nearest integer with ties
/// away from zero. This is the rounding used by every fixed-point operation
/// in the crate; it is antisymmetric in `a`, which the side-symmetry law of
/// the anatomical frame builder depends on.
pub open spec fn rdiv(a: int, b: int) -> int
    recommends
        b > 0,
{
    if a >= 0 {
        (a + b / 2) / b
    } else {
        -((-a + b / 2) / b)
    }
}

/// The integer square root (the real square root rounded toward zero).
pub open spec fn sqrt_floor(n: nat) -> nat
    decreases n,
{
    if n == 0 {
        0
    } else {
        let h = 2 * sqrt_floor(n / 4);
        if (h + 1) * (h + 1) <= n {
            h + 1
        } else {
            h
        }
    }
}

/// `sqrt_floor` is what its name says: it is the largest integer whose square
/// does not exceed the argument.
pub proof fn lemma_sqrt_floor_bounds(n: nat)
    ensures
        sqrt_floor(n) * sqrt_floor(n) <= n,
        n < (sqrt_floor(n) + 1) * (sqrt_floor(n) + 1),
    decreases n,
{
    if n == 0 {
        assert(sqrt_floor(0) == 0);
        assert((sqrt_floor(n) + 1) * (sqrt_floor(n) + 1) == 1nat * 1nat);
    } else {
        let q = n / 4;
        lemma_sqrt_floor_bounds(q);
        let s = sqrt_floor(q);
        let h = 2 * s;
        vstd::arithmetic::div_mod::lemma_fundamental_div_mod(n as int, 4);
        assert(4 * q <= n && n < 4 * q + 4);
        assert((2 * s) * (2 * s) == 4 * (s * s)) by (nonlinear_arith);
        assert((2 * s + 2) * (2 * s + 2) == 4 * ((s + 1) * (s + 1))) by (nonlinear_arith);
        assert(h * h <= n);
        assert(n < (h + 2) * (h + 2));
        if (h + 1) * (h + 1) <= n {
            assert(sqrt_floor(n) == h + 1);
            assert(n < (sqrt_floor(n) + 1) * (sqrt_floor(n) + 1));
        } else {
            assert(sqrt_floor(n) == h);
            assert(n < (sqrt_floor(n) + 1) * (sqrt_floor(n) + 1));
        }
    }
}

/// Any integer bracketed the way `sqrt_floor` is bracketed is `sqrt_floor`.
pub proof fn lemma_sqrt_floor_unique(n: nat, r: nat)
    requires
        r * r <= n,
        n < (r + 1) * (r + 1),
    ensures
        r == sqrt_floor(n),
{
    let s = sqrt_floor(n);
    lemma_sqrt_floor_bounds(n);
    if r < s {
        assert((r + 1) * (r + 1) <= s * s) by (nonlinear_arith)
            requires
                r + 1 <= s,
        ;
    }
    if s < r {
        assert((s + 1) * (s + 1) <= r * r) by (nonlinear_arith)
            requires
                s + 1 <= r,
        ;
    }
}

/// The square root never grows under its argument's square root bound:
/// if `x * x <= n` then `x <= sqrt_floor(n)`.
pub proof fn lemma_sqrt_floor_at_least(n: nat, x: nat)
    requires
        x * x <= n,
    ensures
        x <= sqrt_floor(n),
{
    let s = sqrt_floor(n);
    lemma_sqrt_floor_bounds(n);
    if s < x {
        assert((s + 1) * (s + 1) <= x * x) by (nonlinear_arith)
            requires
                s + 1 <= x,
        ;
    }
}

/// Bounded products: `|a| <= x` and `|b| <= y` give `|a * b| <= x * y`.
pub proof fn lemma_mul_abs_le(a: int, b: int, x: int, y: int)
    by (nonlinear_arith)
    requires
        -x <= a <= x,
        -y <= b <= y,
    ensures
        -(x * y) <= a * b <= x * y,
{
}

/// Rounded division is antisymmetric in its dividend.
pub proof fn lemma_rdiv_neg(a: int, b: int)
    requires
        b > 0,
    ensures
        rdiv(-a, b) == -rdiv(a, b),
{
    if a == 0 {
        vstd::arithmetic::div_mod::lemma_basic_div(b / 2, b);
    }
}

/// Rounded division undoes an exact multiplication.
pub proof fn lemma_rdiv_mul_exact(a: int, b: int)
    requires
        b > 0,
    ensures
        rdiv(a * b, b) == a,
{
    if a >= 0 {
        assert(a * b >= 0) by (nonlinear_arith)
            requires
                a >= 0 && b > 0,
        ;
        vstd::arithmetic::div_mod::lemma_fundamental_div_mod_converse(a * b + b / 2, b, a, b / 2);
    } else {
        assert(a * b < 0 && -(a * b) == (-a) * b) by (nonlinear_arith)
            requires
                a < 0 && b > 0,
        ;
        vstd::arithmetic::div_mod::lemma_fundamental_div_mod_converse(
            (-a) * b + b / 2,
            b,
            -a,
            b / 2,
        );
    }
}

/// A dividend bounded by `c * b` yields a quotient bounded by `c`.
pub proof fn lemma_rdiv_le(a: int, b: int, c: int)
    requires
        b > 0,
        c >= 0,
        -(c * b) <= a <= c * b,
    ensures
        -c <= rdiv(a, b) <= c,
{
    vstd::arithmetic::div_mod::lemma_fundamental_div_mod_converse(c * b + b / 2, b, c, b / 2);
    if a >= 0 {
        vstd::arithmetic::div_mod::lemma_div_is_ordered(a + b / 2, c * b + b / 2, b);
        vstd::arithmetic::div_mod::lemma_div_is_ordered(0, a + b / 2, b);
        vstd::arithmetic::div_mod::lemma_basic_div(0, b);
    } else {
        vstd::arithmetic::div_mod::lemma_div_is_ordered(-a + b / 2, c * b + b / 2, b);
        vstd::arithmetic::div_mod::lemma_div_is_ordered(0, -a + b / 2, b);
        vstd::arithmetic::div_mod::lemma_basic_div(0, b);
    }
}

/// Rounded division is division to within half a divisor: multiplying the
/// quotient back misses the dividend by at most `b / 2`.
pub proof fn lemma_rdiv_err(a: int, b: int)
    requires
        b > 0,
    ensures
        -(b / 2) <= rdiv(a, b) * b - a <= b / 2,
{
    broadcast use vstd::arithmetic::mul::lemma_mul_is_commutative;

    if a >= 0 {
        let q = (a + b / 2) / b;
        let r = (a + b / 2) % b;
        vstd::arithmetic::div_mod::lemma_fundamental_div_mod(a + b / 2, b);
        vstd::arithmetic::div_mod::lemma_mod_bound(a + b / 2, b);
        assert(q * b - a == b / 2 - r);
        assert(b / 2 - (b - 1) >= -(b / 2)) by {
            vstd::arithmetic::div_mod::lemma_fundamental_div_mod(b, 2);
        }
    } else {
        let a2 = -a;
        let q = (a2 + b / 2) / b;
        let r = (a2 + b / 2) % b;
        vstd::arithmetic::div_mod::lemma_fundamental_div_mod(a2 + b / 2, b);
        vstd::arithmetic::div_mod::lemma_mod_bound(a2 + b / 2, b);
        assert(q * b - a2 == b / 2 - r);
        assert(rdiv(a, b) * b - a == -(q * b - a2)) by {
            assert((-q) * b == -(q * b)) by (nonlinear_arith);
        }
        assert(b / 2 - (b - 1) >= -(b / 2)) by {
            vstd::arithmetic::div_mod::lemma_fundamental_div_mod(b, 2);
        }
    }
}

/// Executable rounded division; see [`rdiv`] for the rounding rule.
pub fn rdiv_i(a: i128, b: i128) -> (r: i128)
    requires
        0 < b <= RDIV_LIM,
        -RDIV_LIM <= a <= RDIV_LIM,
    ensures
        r == rdiv(a as int, b as int),
{
    let bu: u128 = b as u128;
    if a >= 0 {
        let au: u128 = a as u128;
        let q: u128 = (au + bu / 2) / bu;
        proof {
            vstd::arithmetic::div_mod::lemma_div_is_ordered(0, au as int + bu as int / 2, bu as int);
            vstd::arithmetic::div_mod::lemma_basic_div(0, bu as int);
            assert((au as int + bu as int / 2) / (bu as int) <= au as int + bu as int / 2)
                by (nonlinear_arith)
                requires
                    bu >= 1 && au >= 0,
            ;
        }
        q as i128
    } else {
        let au: u128 = (-a) as u128;
        let q: u128 = (au + bu / 2) / bu;
        proof {
            vstd::arithmetic::div_mod::lemma_div_is_ordered(0, au as int + bu as int / 2, bu as int);
            vstd::arithmetic::div_mod::lemma_basic_div(0, bu as int);
            assert((au as int + bu as int / 2) / (bu as int) <= au as int + bu as int / 2)
                by (nonlinear_arith)
                requires
                    bu >= 1 && au >= 0,
            ;
        }
        -(q as i128)
    }
}

/// Executable integer square root by bisection.
pub fn isqrt(n: u128) -> (r: u128)
    requires
        n < ISQRT_LIM,
    ensures
        r == sqrt_floor(n as nat),
{
    if n == 0 {
        proof {
            assert(sqrt_floor(0) == 0);
        }
        return 0;
    }
    let mut lo: u128 = 0;
    let mut hi: u128 = 0x8000000000000000;
    proof {
        assert(n < 0x8000000000000000u128 * 0x8000000000000000u128);
    }
    while lo + 1 < hi
        invariant
            lo < hi <= 0x8000000000000000,
            lo * lo <= n,
            n < hi * hi,
        decreases hi - lo,
    {
        let mid: u128 = lo + (hi - lo) / 2;
        proof {
            assert(lo < mid < hi);
            assert(mid as int * mid as int <= (0x7fffffffffffffff as int) * (0x7fffffffffffffff as int))
                by (nonlinear_arith)
                requires
                    0 <= mid as int <= 0x7fffffffffffffff as int,
            ;
        }
        if mid * mid <= n {
            lo = mid;
        } else {
            hi = mid;
        }
    }
    proof {
        lemma_sqrt_floor_unique(n as nat, lo as nat);
    }
    lo
}

} // verus!
