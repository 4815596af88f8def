//! Small division and remainder facts shared by the cyclic counters.

use vstd::prelude::*;

verus! {

/// If `x == period * q + r` with `r` below `period`, then `r` is exactly
/// `x % period`.
pub proof fn lemma_mod_of_multiple_plus_remainder(x: nat, q: nat, r: nat, period: nat)
    requires
        period > 0,
        r < period,
        x == period * q + r,
    ensures
        x % period == r,
{
    assert(x % period == r) by (nonlinear_arith)
        requires
            period > 0,
            r < period,
            x == period * q + r,
    ;
}

/// If `x == period * q + r` with `r` below `period`, then `q` is exactly
/// `x / period`.
pub proof fn lemma_div_of_multiple_plus_remainder(x: nat, q: nat, r: nat, period: nat)
    requires
        period > 0,
        r < period,
        x == period * q + r,
    ensures
        x / period == q,
{
    assert(x / period == q) by (nonlinear_arith)
        requires
            period > 0,
            r < period,
            x == period * q + r,
    ;
}

} // verus!
