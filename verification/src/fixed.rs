//! Fixed-point scalar arithmetic: multiplication with rescaling, floor
//! division, and an integer square root, each with an exact contract.
use vstd::prelude::*;
use vstd::arithmetic::div_mod::{
    lemma_div_is_ordered, lemma_fundamental_div_mod, lemma_fundamental_div_mod_converse,
    lemma_mod_bound,
};
use crate::FIX_ONE;

verus! {

/// The mathematical product of two fixed-point values, rescaled by a floor
/// division so that the result is fixed-point again.
pub open spec fn fix_mul_spec(a: int, b: int) -> int {
    (a * b) / (FIX_ONE as int)
}

/// Floor division of a negated dividend: `(-p) / d == -((p + d - 1) / d)`
/// for `p >= 0` and `d > 0`.
pub(crate) proof fn lemma_floor_div_neg(p: int, d: int)
    requires
        p >= 0,
        d > 0,
    ensures
        (-p) / d == -((p + d - 1) / d),
{
    let q = p / d;
    let r = p % d;
    lemma_fundamental_div_mod(p, d);
    lemma_mod_bound(p, d);
    assert((-q) * d == -(d * q) && q * d == d * q && (-(q + 1)) * d == -(d * q) - d && (q + 1) * d
        == d * q + d) by (nonlinear_arith);
    if r == 0 {
        lemma_fundamental_div_mod_converse(p + d - 1, d, q, d - 1);
        lemma_fundamental_div_mod_converse(-p, d, -q, 0);
    } else {
        lemma_fundamental_div_mod_converse(p + d - 1, d, q + 1, r - 1);
        lemma_fundamental_div_mod_converse(-p, d, -(q + 1), d - r);
    }
}

/// Bounds on the operands of `fix_mul_spec` give bounds on its value.
pub proof fn lemma_fix_mul_bound(a: int, b: int, am: int, bm: int)
    requires
        0 <= am,
        0 <= bm,
        -am <= a <= am,
        -bm <= b <= bm,
    ensures
        -((am * bm) / (FIX_ONE as int)) - 1 <= fix_mul_spec(a, b) <= (am * bm) / (FIX_ONE as int),
{
    let p = am * bm;
    assert(-p <= a * b <= p) by (nonlinear_arith)
        requires -am <= a <= am && -bm <= b <= bm && 0 <= am && 0 <= bm && p == am * bm;
    lemma_div_is_ordered(a * b, p, 65536);
    lemma_div_is_ordered(-p, a * b, 65536);
    lemma_floor_div_neg(p, 65536);
    lemma_fundamental_div_mod(p, 65536);
    lemma_mod_bound(p, 65536);
    let q = p / 65536;
    let r = p % 65536;
    if r == 0 {
        lemma_fundamental_div_mod_converse(p + 65535, 65536, q, 65535);
    } else {
        lemma_fundamental_div_mod_converse(p + 65535, 65536, q + 1, r - 1);
    }
}

/// The magnitude of an `i64`, as a `u128`.
pub(crate) fn magnitude(a: i64) -> (m: u128)
    ensures
        m == if a >= 0 { a as int } else { -(a as int) },
{
    if a >= 0 {
        a as u128
    } else {
        let wide: i128 = a as i128;
        (-wide) as u128
    }
}

/// Multiplies two fixed-point values and rescales the result, rounding
/// toward negative infinity.
pub fn fix_mul(a: i64, b: i64) -> (r: i64)
    requires
        i64::MIN <= fix_mul_spec(a as int, b as int) <= i64::MAX,
    ensures
        r == fix_mul_spec(a as int, b as int),
{
    let ma = magnitude(a);
    let mb = magnitude(b);
    proof {
        assert(ma * mb <= 0x4000_0000_0000_0000_0000_0000_0000_0000u128) by (nonlinear_arith)
            requires ma <= 0x8000_0000_0000_0000u128 && mb <= 0x8000_0000_0000_0000u128;
    }
    let p: u128 = ma * mb;
    let negative = (a < 0) != (b < 0);
    proof {
        if negative {
            assert((a as int) * (b as int) == -(p as int)) by (nonlinear_arith)
                requires
                    p == ma * mb,
                    ma == if a >= 0 { a as int } else { -(a as int) },
                    mb == if b >= 0 { b as int } else { -(b as int) },
                    (a < 0) != (b < 0);
        } else {
            assert((a as int) * (b as int) == p as int) by (nonlinear_arith)
                requires
                    p == ma * mb,
                    ma == if a >= 0 { a as int } else { -(a as int) },
                    mb == if b >= 0 { b as int } else { -(b as int) },
                    !((a < 0) != (b < 0));
        }
    }
    if negative {
        let q: u128 = (p + 65535) / 65536;
        proof {
            lemma_floor_div_neg(p as int, FIX_ONE as int);
        }
        (-(q as i128)) as i64
    } else {
        let q: u128 = p / 65536;
        q as i64
    }
}

/// The greatest integer whose square does not exceed `n`.
pub open spec fn sqrt_floor(n: nat) -> nat
    decreases n,
{
    if n == 0 {
        0
    } else {
        let r = sqrt_floor((n - 1) as nat);
        if (r + 1) * (r + 1) <= n {
            r + 1
        } else {
            r
        }
    }
}

/// `sqrt_floor` satisfies its defining property.
pub proof fn lemma_sqrt_floor_bounds(n: nat)
    ensures
        sqrt_floor(n) * sqrt_floor(n) <= n < (sqrt_floor(n) + 1) * (sqrt_floor(n) + 1),
    decreases n,
{
    if n == 0 {
        assert(sqrt_floor(0) == 0);
        assert(0nat * 0nat == 0 && (0nat + 1) * (0nat + 1) == 1) by (nonlinear_arith);
    } else {
        lemma_sqrt_floor_bounds((n - 1) as nat);
        let r = sqrt_floor((n - 1) as nat);
        if (r + 1) * (r + 1) <= n {
            assert(sqrt_floor(n) == r + 1);
            assert((r + 1 + 1) * (r + 1 + 1) > n) by (nonlinear_arith)
                requires (r + 1) * (r + 1) > n - 1 && n >= 1;
        } else {
            assert(sqrt_floor(n) == r);
            assert(r * r <= n) by (nonlinear_arith)
                requires r * r <= n - 1 && n >= 1;
        }
    }
}

/// Any integer with the defining property of `sqrt_floor` is `sqrt_floor`.
pub proof fn lemma_sqrt_floor_unique(n: nat, r: nat)
    requires
        r * r <= n < (r + 1) * (r + 1),
    ensures
        r == sqrt_floor(n),
{
    let s = sqrt_floor(n);
    lemma_sqrt_floor_bounds(n);
    if r < s {
        assert((r + 1) * (r + 1) <= s * s) by (nonlinear_arith)
            requires r + 1 <= s;
    }
    if s < r {
        assert((s + 1) * (s + 1) <= r * r) by (nonlinear_arith)
            requires s + 1 <= r;
    }
}

/// Integer square root by binary search.
pub fn isqrt(n: u128) -> (r: u64)
    requires
        n < 0x1_0000_0000_0000_0000_0000_0000u128,
    ensures
        r == sqrt_floor(n as nat),
{
    if n == 0 {
        proof {
            assert(0nat * 0nat == 0 && (0nat + 1) * (0nat + 1) == 1) by (nonlinear_arith);
            lemma_sqrt_floor_unique(0, 0);
        }
        return 0;
    }
    let mut lo: u64 = 0;
    let mut hi: u64 = 0x1_0000_0000_0000u64;
    proof {
        assert((hi as int) * (hi as int) > n) by (nonlinear_arith)
            requires hi == 0x1_0000_0000_0000u64 && n < 0x1_0000_0000_0000_0000_0000_0000u128;
    }
    while lo + 1 < hi
        invariant
            lo < hi <= 0x1_0000_0000_0000u64,
            (lo as int) * (lo as int) <= n,
            (hi as int) * (hi as int) > n,
        decreases hi - lo,
    {
        let mid: u64 = lo + (hi - lo) / 2;
        proof {
            assert((mid as int) * (mid as int) < 0x1_0000_0000_0000_0000_0000_0000u128)
                by (nonlinear_arith)
                requires mid < 0x1_0000_0000_0000u64;
        }
        let sq: u128 = (mid as u128) * (mid as u128);
        if sq <= n {
            lo = mid;
        } else {
            hi = mid;
        }
    }
    proof {
        lemma_sqrt_floor_unique(n as nat, lo as nat);
    }
    lo
}

/// Floor division of a fixed-point value by a positive divisor.
pub fn div_floor(a: i64, d: i64) -> (r: i64)
    requires
        d > 0,
        i64::MIN <= (a as int) / (d as int) <= i64::MAX,
    ensures
        r == (a as int) / (d as int),
{
    let ma = magnitude(a);
    let md = d as u128;
    if a >= 0 {
        let q: u128 = ma / md;
        q as i64
    } else {
        let q: u128 = (ma + (md - 1)) / md;
        proof {
            lemma_floor_div_neg(ma as int, d as int);
        }
        (-(q as i128)) as i64
    }
}

} // verus!
