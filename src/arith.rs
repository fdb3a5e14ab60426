//! Exact integer helpers: division rounded down and the ceiling square root.

use vstd::arithmetic::div_mod::{
    lemma_div_is_ordered, lemma_fundamental_div_mod, lemma_fundamental_div_mod_converse,
};
use vstd::prelude::*;

verus! {

/// Largest operand accepted by [`ceil_sqrt`]: `2^126`, the square of its
/// initial upper bound.
pub const SQRT_DOMAIN: u128 = 85070591730234615865843651857942052864;

/// Upper bound on every result of [`ceil_sqrt`]: `2^63`.
pub const SQRT_START: u128 = 9223372036854775808;

/// Quotient of `n` by a positive `d`, rounded towards negative infinity.
pub fn div_floor(n: i128, d: i128) -> (q: i128)
    requires
        d > 0,
    ensures
        q == n / d,
{
    if n >= 0 {
        n / d
    } else {
        let m: i128 = -(n + 1);
        let k: i128 = m / d;
        proof {
            let r = m % d;
            lemma_fundamental_div_mod(m as int, d as int);
            assert(n == (-k - 1) * d + (d - r - 1)) by (nonlinear_arith)
                requires
                    m == d * k + r,
                    n == -m - 1,
            ;
            lemma_fundamental_div_mod_converse(n as int, d as int, -k - 1, d - r - 1);
        }
        -k - 1
    }
}

/// A quotient by a positive `d` of a value within `b * d` of zero lies
/// within `b` of zero.
pub proof fn lemma_div_floor_bounds(n: int, d: int, b: int)
    requires
        d > 0,
        b >= 0,
        -(b * d) <= n <= b * d,
    ensures
        -b <= n / d <= b,
{
    lemma_div_is_ordered(-(b * d), n, d);
    lemma_div_is_ordered(n, b * d, d);
    assert(b * d == b * d + 0 && -(b * d) == (-b) * d + 0) by (nonlinear_arith);
    lemma_fundamental_div_mod_converse(b * d, d, b, 0);
    lemma_fundamental_div_mod_converse(-(b * d), d, -b, 0);
}

/// `l` is the least non-negative integer whose square reaches `n`.
pub open spec fn is_ceil_sqrt(l: int, n: int) -> bool {
    &&& l >= 0
    &&& l * l >= n
    &&& (l == 0 || (l - 1) * (l - 1) < n)
}

/// The least non-negative integer whose square is at least `n`.
pub open spec fn ceil_sqrt_of(n: int) -> int {
    choose|l: int| is_ceil_sqrt(l, n)
}

/// There is at most one ceiling square root of a number.
pub proof fn lemma_ceil_sqrt_unique(a: int, b: int, n: int)
    requires
        is_ceil_sqrt(a, n),
        is_ceil_sqrt(b, n),
    ensures
        a == b,
{
    if a < b {
        assert(a * a <= (b - 1) * (b - 1)) by (nonlinear_arith)
            requires
                0 <= a <= b - 1,
        ;
    } else if b < a {
        assert(b * b <= (a - 1) * (a - 1)) by (nonlinear_arith)
            requires
                0 <= b <= a - 1,
        ;
    }
}

/// A witness of the ceiling square root is the one that `ceil_sqrt_of` names.
pub proof fn lemma_ceil_sqrt_of(l: int, n: int)
    requires
        is_ceil_sqrt(l, n),
    ensures
        ceil_sqrt_of(n) == l,
{
    let c = ceil_sqrt_of(n);
    assert(is_ceil_sqrt(c, n));
    lemma_ceil_sqrt_unique(c, l, n);
}

/// The least `l` with `l * l >= n`, found by bisection.
pub fn ceil_sqrt(n: u128) -> (l: u128)
    requires
        0 < n <= SQRT_DOMAIN,
    ensures
        is_ceil_sqrt(l as int, n as int),
        l == ceil_sqrt_of(n as int),
        l <= SQRT_START,
{
    let mut lo: u128 = 0;
    let mut hi: u128 = SQRT_START;
    assert(hi * hi == SQRT_DOMAIN);
    while hi - lo > 1
        invariant
            lo < hi <= SQRT_START,
            lo * lo < n,
            n <= hi * hi,
        decreases hi - lo,
    {
        let mid: u128 = lo + (hi - lo) / 2;
        assert(mid * mid <= SQRT_START * SQRT_START) by (nonlinear_arith)
            requires
                mid <= SQRT_START,
        ;
        assert(SQRT_START * SQRT_START == SQRT_DOMAIN);
        if mid * mid >= n {
            hi = mid;
        } else {
            lo = mid;
        }
    }
    assert(hi - 1 == lo);
    proof {
        lemma_ceil_sqrt_of(hi as int, n as int);
    }
    hi
}

} // verus!
