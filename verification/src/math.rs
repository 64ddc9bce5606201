//! Integer division facts shared by the pool arithmetic.
use vstd::arithmetic::div_mod::*;
use vstd::prelude::*;

verus! {

/// Ceiling of `n / d` for a positive divisor.
pub open spec fn ceil_div(n: int, d: int) -> int {
    (n + d - 1) / d
}

/// Euclidean facts about `n / d` and `n % d` for `n >= 0`, `d > 0`.
pub proof fn lemma_div_mod_facts(n: int, d: int)
    requires
        n >= 0,
        d > 0,
    ensures
        n == d * (n / d) + n % d,
        0 <= n % d < d,
        0 <= n / d,
        (n / d) * d <= n < (n / d + 1) * d,
{
    lemma_fundamental_div_mod(n, d);
    lemma_mod_bound(n, d);
    lemma_div_pos_is_pos(n, d);
    assert((n / d) * d <= n < (n / d + 1) * d) by (nonlinear_arith)
        requires
            n == d * (n / d) + n % d,
            0 <= n % d < d,
    ;
}

/// `ceil_div(n, d)` is the least `c` with `c * d >= n`.
pub proof fn lemma_ceil_div(n: int, d: int)
    requires
        n >= 0,
        d > 0,
    ensures
        ceil_div(n, d) >= 0,
        ceil_div(n, d) * d >= n,
        ceil_div(n, d) * d < n + d,
        ceil_div(n, d) == n / d + (if n % d == 0 { 0int } else { 1int }),
{
    let c = ceil_div(n, d);
    lemma_div_mod_facts(n + d - 1, d);
    lemma_div_mod_facts(n, d);
    let q = n / d;
    let r = n % d;
    if r == 0 {
        assert(n + d - 1 == d * q + (d - 1)) by (nonlinear_arith)
            requires n == d * q + r, r == 0;
        lemma_fundamental_div_mod_converse(n + d - 1, d, q, d - 1);
    } else {
        assert(n + d - 1 == d * (q + 1) + (r - 1)) by (nonlinear_arith)
            requires n == d * q + r;
        lemma_fundamental_div_mod_converse(n + d - 1, d, q + 1, r - 1);
    }
    assert(c * d >= n && c * d < n + d) by (nonlinear_arith)
        requires
            n == d * q + r,
            0 <= r < d,
            c == q + (if r == 0 { 0int } else { 1int }),
    ;
}

/// `u64::div_ceil`: the quotient rounded towards positive infinity; it
/// panics when the divisor is zero.
pub assume_specification[<u64>::div_ceil](lhs: u64, rhs: u64) -> (r: u64)
    requires
        rhs != 0,
    ensures
        r == ceil_div(lhs as int, rhs as int),
;

/// `u128::isqrt`: the square root rounded down.
pub assume_specification[<u128>::isqrt](x: u128) -> (r: u128)
    ensures
        r * r <= x,
        x < (r + 1) * (r + 1),
;

} // verus!
