use vstd::prelude::*;

verus! {

/// `x <= b * d` bounds the quotient `x / d` by `b`.
pub proof fn lemma_div_at_most(x: int, b: int, d: int)
    requires
        0 <= x <= b * d,
        d > 0,
    ensures
        x / d <= b,
{
    vstd::arithmetic::div_mod::lemma_fundamental_div_mod(x, d);
    let q = x / d;
    let m = x % d;
    assert(q <= b) by (nonlinear_arith)
        requires x == d * q + m, m >= 0, x <= b * d, d > 0;
}

/// `x < b * d` puts the quotient `x / d` strictly under `b`.
pub proof fn lemma_div_below(x: int, b: int, d: int)
    requires
        0 <= x < b * d,
        d > 0,
    ensures
        x / d < b,
{
    vstd::arithmetic::div_mod::lemma_fundamental_div_mod(x, d);
    let q = x / d;
    let m = x % d;
    assert(q < b) by (nonlinear_arith)
        requires x == d * q + m, m >= 0, x < b * d, d > 0;
}

/// `b * d <= x` makes `b` a lower bound of the quotient `x / d`.
pub proof fn lemma_div_at_least(x: int, b: int, d: int)
    requires
        b * d <= x,
        d > 0,
    ensures
        b <= x / d,
{
    vstd::arithmetic::div_mod::lemma_fundamental_div_mod(x, d);
    let q = x / d;
    let m = x % d;
    assert(b <= q) by (nonlinear_arith)
        requires x == d * q + m, m < d, b * d <= x, d > 0;
}

} // verus!
