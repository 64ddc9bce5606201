//! Constant-product curve `x * y = k` on the two reserves of a pool.
use crate::math::{ceil_div, lemma_ceil_div, lemma_div_mod_facts};
use vstd::prelude::*;

verus! {

/// Namespace of the curve computations.
pub struct CurveMath {}

impl CurveMath {
    /// Output that a pool with reserves `x`, `y` pays when its input reserve
    /// grows to `new_x`: `(y * new_x - x * y) / new_x`, rounded down.
    pub open spec fn spec_output_amount(x: int, y: int, new_x: int) -> int {
        (y * new_x - x * y) / new_x
    }

    /// Input that a pool with reserves `x`, `y` needs so that its output
    /// reserve can shrink to `new_y`: `(x * y - x * new_y) / new_y`, rounded up.
    pub open spec fn spec_input_amount(x: int, y: int, new_y: int) -> int {
        ceil_div(x * y - x * new_y, new_y)
    }

    /// Δy = (y·(x + Δx) − k) / (x + Δx), rounded down.
    pub fn calculate_curve_output_amount(
        input_reserve: u64,
        output_reserve: u64,
        new_input_reserve: u64,
    ) -> (output: u64)
        requires
            input_reserve * output_reserve <= u64::MAX,
            output_reserve * new_input_reserve <= u64::MAX,
            input_reserve * output_reserve <= output_reserve * new_input_reserve,
            new_input_reserve > 0,
        ensures
            output == Self::spec_output_amount(
                input_reserve as int,
                output_reserve as int,
                new_input_reserve as int,
            ),
    {
        let k = input_reserve * output_reserve;
        (output_reserve * new_input_reserve - k) / new_input_reserve
    }

    /// Δx = (k − x·(y − Δy)) / (y − Δy), rounded up.
    pub fn calculate_curve_input_amount(
        input_reserve: u64,
        output_reserve: u64,
        new_output_reserve: u64,
    ) -> (input: u64)
        requires
            input_reserve * output_reserve <= u64::MAX,
            input_reserve * new_output_reserve <= input_reserve * output_reserve,
            new_output_reserve > 0,
        ensures
            input == Self::spec_input_amount(
                input_reserve as int,
                output_reserve as int,
                new_output_reserve as int,
            ),
    {
        let k = CurveMath::calculate_k(input_reserve, output_reserve);
        let numerator = k - input_reserve * new_output_reserve;
        let input = numerator.div_ceil(new_output_reserve);
        input
    }

    /// k = x · y.
    pub fn calculate_k(input_reserve: u64, output_reserve: u64) -> (k: u64)
        requires
            input_reserve * output_reserve <= u64::MAX,
        ensures
            k == input_reserve * output_reserve,
    {
        input_reserve * output_reserve
    }
}

/// The output that the curve pays keeps the product of the reserves: after
/// the input reserve grows to `new_x` and `y` loses the output, the product
/// is at least `x * y`, and the output never exceeds `y`.
pub proof fn lemma_output_keeps_product(x: int, y: int, new_x: int)
    requires
        x >= 0,
        y >= 0,
        new_x > 0,
        x * y <= y * new_x,
    ensures
        0 <= CurveMath::spec_output_amount(x, y, new_x) <= y,
        new_x * (y - CurveMath::spec_output_amount(x, y, new_x)) >= x * y,
{
    let n = y * new_x - x * y;
    lemma_div_mod_facts(n, new_x);
    let out = n / new_x;
    assert(out <= y && new_x * (y - out) >= x * y) by (nonlinear_arith)
        requires
            out * new_x <= n,
            n == y * new_x - x * y,
            x >= 0,
            y >= 0,
            new_x > 0,
    ;
}

/// The input that the curve asks keeps the product of the reserves: with it
/// added to `x` and the output reserve at `new_y`, the product is at least
/// `x * y`; one token less would not.
pub proof fn lemma_input_keeps_product(x: int, y: int, new_y: int)
    requires
        x >= 0,
        new_y > 0,
        x * new_y <= x * y,
    ensures
        CurveMath::spec_input_amount(x, y, new_y) >= 0,
        (x + CurveMath::spec_input_amount(x, y, new_y)) * new_y >= x * y,
        (x + CurveMath::spec_input_amount(x, y, new_y) - 1) * new_y < x * y,
{
    let n = x * y - x * new_y;
    lemma_ceil_div(n, new_y);
    let c = ceil_div(n, new_y);
    assert((x + c) * new_y >= x * y && (x + c - 1) * new_y < x * y) by (nonlinear_arith)
        requires
            c * new_y >= n,
            c * new_y < n + new_y,
            n == x * y - x * new_y,
    ;
}

} // verus!
