use vstd::prelude::*;
use crate::error::ZentroError;

verus! {

/// Tunable inputs of the market-price formula, in basis points where a
/// quantity is a price.
#[derive(Debug, Clone, Copy)]
pub struct PricingParams {
    pub base_price: u64,
    pub volatility_factor: u64,
    pub liquidity_depth: u64,
    pub time_decay_factor: u64,
}

impl Default for PricingParams {
    /// A neutral 50% base price, a 1% volatility factor, a target depth of
    /// one million units and a time-decay factor of 50.
    fn default() -> (r: Self)
        ensures
            r.base_price == 5000,
            r.volatility_factor == 100,
            r.liquidity_depth == 1000000,
            r.time_decay_factor == 50,
    {
        PricingParams {
            base_price: 5000,
            volatility_factor: 100,
            liquidity_depth: 1000000,
            time_decay_factor: 50,
        }
    }
}

/// A non-negative quantity clamped into the range of `u64`.
pub open spec fn sat64(x: int) -> int {
    if x > u64::MAX { u64::MAX as int } else { x }
}

/// Subtraction that stops at zero.
pub open spec fn sub0(a: int, b: int) -> int {
    if a >= b { a - b } else { 0 }
}

/// The smaller of two integers.
pub open spec fn min_of(a: int, b: int) -> int {
    if a <= b { a } else { b }
}

/// Ratio of current to target liquidity in percent, capped at 200;
/// a zero target counts as neutral (100).
pub open spec fn liquidity_factor_of(current: int, target: int) -> int {
    if target == 0 { 100 } else { min_of(current * 100 / target, 200) }
}

/// Thin liquidity (factor under 100) pushes a price away from the midpoint
/// by `(100 - factor) * price / 1000`.
pub open spec fn liquidity_adjusted(base_price: int, factor: int) -> int {
    if factor >= 100 {
        base_price
    } else {
        let adjustment = sat64((100 - factor) * base_price) / 1000;
        if base_price > 5000 {
            sat64(base_price + adjustment)
        } else {
            sub0(base_price, adjustment)
        }
    }
}

/// The distance of a price from the midpoint (5000) scaled up by
/// `volatility / 10000`.
pub open spec fn volatility_adjusted(base_price: int, volatility: int) -> int {
    if base_price > 5000 {
        sat64(base_price + sat64(volatility * (base_price - 5000)) / 10000)
    } else {
        sub0(base_price, sat64(volatility * (5000 - base_price)) / 10000)
    }
}

/// Raw "yes" probability in basis points from the share split.
pub open spec fn yes_probability(yes_shares: int, no_shares: int) -> int {
    yes_shares * 10000 / sat64(yes_shares + no_shares)
}

/// The implied "yes" price in basis points, capped at 9900.
pub open spec fn market_price_of(
    yes_shares: int,
    no_shares: int,
    total_liquidity: int,
    params: PricingParams,
) -> int {
    if yes_shares == 0 && no_shares == 0 {
        params.base_price as int
    } else {
        let factor = liquidity_factor_of(total_liquidity, params.liquidity_depth as int);
        let adjusted = liquidity_adjusted(yes_probability(yes_shares, no_shares), factor);
        min_of(volatility_adjusted(adjusted, params.volatility_factor as int), 9900)
    }
}

/// Trade size relative to liquidity in basis points, saturated to `u64`.
pub open spec fn impact_ratio(share_amount: int, total_liquidity: int) -> int {
    sat64(share_amount * 10000 / total_liquidity)
}

/// Price impact in basis points: the square root of the impact ratio,
/// capped at 1000; 500 when there is no liquidity at all.
pub open spec fn price_impact_of(share_amount: int, total_liquidity: int) -> int {
    if total_liquidity == 0 {
        500
    } else {
        min_of(isqrt(impact_ratio(share_amount, total_liquidity) as nat) as int, 1000)
    }
}

/// Cost of buying `share_amount` shares of one side.
pub open spec fn share_price_of(
    market_price: int,
    share_amount: int,
    is_yes_share: bool,
    total_liquidity: int,
) -> int {
    let base = if is_yes_share { market_price } else { sub0(10000, market_price) };
    let adjusted = sat64(base + price_impact_of(share_amount, total_liquidity));
    sat64(adjusted * share_amount / 10000)
}

/// Payout of a holding once the market has resolved: one unit per share on
/// the winning side, nothing otherwise.
pub open spec fn payout_of(shares_owned: int, market_outcome: bool, is_yes_share: bool) -> int {
    if market_outcome == is_yes_share { shares_owned } else { 0 }
}

/// A price pulled toward the midpoint as expiry approaches.
pub open spec fn time_decayed(
    base_price: int,
    time_remaining: int,
    total_duration: int,
    decay_factor: int,
) -> int {
    if total_duration <= 0 || time_remaining <= 0 {
        base_price
    } else {
        let time_ratio = sat64(time_remaining * 100 / total_duration);
        let adjustment = sat64(decay_factor * sub0(100, time_ratio)) / 10000;
        if base_price > 5000 {
            sub0(base_price, adjustment)
        } else {
            sat64(base_price + adjustment)
        }
    }
}

/// Absolute difference of two prices.
pub open spec fn price_gap(a: int, b: int) -> int {
    if a > b { a - b } else { b - a }
}

/// Multiplication that saturates at `u64::MAX`.
fn sat_mul(a: u64, b: u64) -> (r: u64)
    ensures
        r == sat64(a * b),
{
    match a.checked_mul(b) {
        Some(v) => v,
        None => u64::MAX,
    }
}

/// Narrowing that saturates at `u64::MAX`.
fn sat_narrow(x: u128) -> (r: u64)
    ensures
        r == sat64(x as int),
{
    if x > u64::MAX as u128 {
        u64::MAX
    } else {
        x as u64
    }
}

/// The implied "yes" price of a market (display math: saturating).
pub fn calculate_market_price(
    yes_shares: u64,
    no_shares: u64,
    total_liquidity: u64,
    params: &PricingParams,
) -> (r: Result<u64, ZentroError>)
    ensures
        r == Ok::<u64, ZentroError>(
            market_price_of(yes_shares as int, no_shares as int, total_liquidity as int, *params) as u64,
        ),
        0 <= market_price_of(yes_shares as int, no_shares as int, total_liquidity as int, *params)
            <= u64::MAX,
{
    if yes_shares == 0 && no_shares == 0 {
        return Ok(params.base_price);
    }
    let total_shares = yes_shares.saturating_add(no_shares);
    assert(total_shares > 0);
    let yes_probability = sat_narrow((yes_shares as u128 * 10000) / (total_shares as u128));
    let liquidity_factor = calculate_liquidity_factor(total_liquidity, params.liquidity_depth);
    let adjusted_probability = apply_liquidity_adjustment(yes_probability, liquidity_factor);
    let final_price = apply_volatility_adjustment(adjusted_probability, params.volatility_factor);
    if final_price > 9900 {
        Ok(9900)
    } else {
        Ok(final_price)
    }
}

/// Total cost of `share_amount` shares, price impact included (saturating).
pub fn calculate_share_price(
    market_price: u64,
    share_amount: u64,
    is_yes_share: bool,
    total_liquidity: u64,
) -> (r: Result<u64, ZentroError>)
    ensures
        r == Ok::<u64, ZentroError>(
            share_price_of(market_price as int, share_amount as int, is_yes_share, total_liquidity as int) as u64,
        ),
        0 <= share_price_of(market_price as int, share_amount as int, is_yes_share, total_liquidity as int)
            <= u64::MAX,
{
    let base_price = if is_yes_share {
        market_price
    } else {
        10000u64.saturating_sub(market_price)
    };
    let price_impact = calculate_price_impact(share_amount, total_liquidity);
    let adjusted_price = base_price.saturating_add(price_impact);
    let wide_price = adjusted_price as u128;
    let wide_amount = share_amount as u128;
    assert(wide_price * wide_amount <= u64::MAX * u64::MAX) by (nonlinear_arith)
        requires wide_price <= u64::MAX, wide_amount <= u64::MAX;
    let total_cost = sat_narrow((wide_price * wide_amount) / 10000);
    Ok(total_cost)
}

/// Payout of a holding: one unit per share on the winning side.
pub fn calculate_payout(shares_owned: u64, market_outcome: bool, is_yes_share: bool) -> (r: Result<
    u64,
    ZentroError,
>)
    ensures
        r == Ok::<u64, ZentroError>(payout_of(shares_owned as int, market_outcome, is_yes_share) as u64),
{
    if (market_outcome && is_yes_share) || (!market_outcome && !is_yes_share) {
        Ok(shares_owned)
    } else {
        Ok(0)
    }
}

/// Current liquidity as a percentage of the target depth, capped at 200.
pub fn calculate_liquidity_factor(current_liquidity: u64, target_liquidity: u64) -> (r: u64)
    ensures
        r == liquidity_factor_of(current_liquidity as int, target_liquidity as int),
        r <= 200,
{
    if target_liquidity == 0 {
        return 100;
    }
    let ratio = (current_liquidity as u128 * 100) / (target_liquidity as u128);
    if ratio > 200 {
        200
    } else {
        ratio as u64
    }
}

/// Pushes a price away from the midpoint when liquidity is thin (saturating).
pub fn apply_liquidity_adjustment(base_price: u64, liquidity_factor: u64) -> (r: u64)
    ensures
        r == liquidity_adjusted(base_price as int, liquidity_factor as int),
{
    if liquidity_factor >= 100 {
        return base_price;
    }
    let adjustment = sat_mul(100 - liquidity_factor, base_price) / 1000;
    if base_price > 5000 {
        base_price.saturating_add(adjustment)
    } else {
        base_price.saturating_sub(adjustment)
    }
}

/// Scales the distance of a price from the midpoint by the volatility
/// factor (saturating); the midpoint itself stays where it is.
pub fn apply_volatility_adjustment(base_price: u64, volatility_factor: u64) -> (r: u64)
    ensures
        r == volatility_adjusted(base_price as int, volatility_factor as int),
{
    if base_price > 5000 {
        let adjustment = sat_mul(volatility_factor, base_price - 5000) / 10000;
        base_price.saturating_add(adjustment)
    } else {
        let adjustment = sat_mul(volatility_factor, 5000 - base_price) / 10000;
        base_price.saturating_sub(adjustment)
    }
}

/// Price impact of a trade in basis points, with diminishing marginal impact.
pub fn calculate_price_impact(share_amount: u64, total_liquidity: u64) -> (r: u64)
    ensures
        r == price_impact_of(share_amount as int, total_liquidity as int),
        r <= 1000,
{
    if total_liquidity == 0 {
        return 500;
    }
    let impact_ratio = sat_narrow((share_amount as u128 * 10000) / (total_liquidity as u128));
    let sqrt_impact = integer_sqrt(impact_ratio);
    if sqrt_impact > 1000 {
        1000
    } else {
        sqrt_impact
    }
}

/// Pulls a price toward the midpoint as expiry approaches (saturating).
pub fn calculate_time_decay(
    base_price: u64,
    time_remaining: i64,
    total_duration: i64,
    decay_factor: u64,
) -> (r: Result<u64, ZentroError>)
    ensures
        r == Ok::<u64, ZentroError>(
            time_decayed(base_price as int, time_remaining as int, total_duration as int, decay_factor as int) as u64,
        ),
        0 <= time_decayed(base_price as int, time_remaining as int, total_duration as int, decay_factor as int)
            <= u64::MAX,
{
    if total_duration <= 0 || time_remaining <= 0 {
        return Ok(base_price);
    }
    let time_ratio = sat_narrow((time_remaining as u128 * 100) / (total_duration as u128));
    let decay_adjustment = sat_mul(decay_factor, 100u64.saturating_sub(time_ratio)) / 10000;
    if base_price > 5000 {
        Ok(base_price.saturating_sub(decay_adjustment))
    } else {
        Ok(base_price.saturating_add(decay_adjustment))
    }
}

/// Reports a mispricing between two markets: whether the first is the dearer
/// one, and by how much, when the gap exceeds `threshold`.
pub fn calculate_arbitrage_opportunity(
    market_a_price: u64,
    market_b_price: u64,
    threshold: u64,
) -> (r: Option<(bool, u64)>)
    ensures
        r == (if price_gap(market_a_price as int, market_b_price as int) > threshold {
            Some((market_a_price > market_b_price, price_gap(market_a_price as int, market_b_price as int) as u64))
        } else {
            None
        }),
{
    let price_diff = if market_a_price > market_b_price {
        market_a_price - market_b_price
    } else {
        market_b_price - market_a_price
    };
    if price_diff > threshold {
        Some((market_a_price > market_b_price, price_diff))
    } else {
        None
    }
}

/// `r` is the integer square root of `n`: `r * r <= n < (r + 1) * (r + 1)`.
pub open spec fn is_isqrt(n: nat, r: nat) -> bool {
    r * r <= n && n < (r + 1) * (r + 1)
}

/// The integer square root: the largest `r` with `r * r <= n`.
pub open spec fn isqrt(n: nat) -> nat {
    choose|r: nat| #[trigger] is_isqrt(n, r)
}

/// At most one natural number lies in the integer-square-root bracket of `n`.
proof fn lemma_isqrt_unique(n: nat, r1: nat, r2: nat)
    requires
        r1 * r1 <= n < (r1 + 1) * (r1 + 1),
        r2 * r2 <= n < (r2 + 1) * (r2 + 1),
    ensures
        r1 == r2,
{
    if r1 < r2 {
        assert((r1 + 1) * (r1 + 1) <= r2 * r2) by (nonlinear_arith)
            requires r1 + 1 <= r2;
    } else if r2 < r1 {
        assert((r2 + 1) * (r2 + 1) <= r1 * r1) by (nonlinear_arith)
            requires r2 + 1 <= r1;
    }
}

/// A number in the bracket of `n` is `isqrt(n)`.
proof fn lemma_isqrt_is(n: nat, r: nat)
    requires
        r * r <= n < (r + 1) * (r + 1),
    ensures
        isqrt(n) == r,
{
    assert(is_isqrt(n, r));
    let s = isqrt(n);
    assert(is_isqrt(n, s));
    lemma_isqrt_unique(n, r, s);
}

/// Integer square root by Newton's method, stopping once the iterate no
/// longer decreases.
pub fn integer_sqrt(n: u64) -> (r: u64)
    ensures
        r * r <= n < (r + 1) * (r + 1),
        r == isqrt(n as nat),
{
    if n == 0 {
        proof { lemma_isqrt_is(0, 0); }
        return 0;
    }
    let mut x: u64 = n;
    let mut y: u64 = x / 2 + x % 2;
    assert(n / n == 1) by (nonlinear_arith) requires n >= 1;
    assert((n + 1) * (n + 1) > n) by (nonlinear_arith);
    proof { lemma_newton_step(n as int, n as int, 1); }
    while y < x
        invariant
            1 <= x <= n,
            n < (x + 1) * (x + 1),
            n < (y + 1) * (y + 1),
            y == (x + n / x) / 2,
        decreases x,
    {
        x = y;
        assert(x >= 1) by (nonlinear_arith)
            requires n < (x + 1) * (x + 1), n >= 1, x >= 0;
        let q: u64 = n / x;
        y = x / 2 + q / 2 + (x % 2 + q % 2) / 2;
        proof { lemma_newton_step(n as int, x as int, q as int); }
    }
    assert(x * x <= n) by (nonlinear_arith)
        requires
            x >= 1,
            y >= x,
            y == (x + n / x) / 2,
    {
        if x * x > n {
            assert(n / x < x) by (nonlinear_arith)
                requires x * x > n, x >= 1, n >= 0;
        }
    };
    proof { lemma_isqrt_is(n as nat, x as nat); }
    x
}

/// One Newton step never falls below the integer square root.
proof fn lemma_newton_step(n: int, x: int, q: int)
    requires
        x >= 1,
        q == n / x,
        n >= 0,
    ensures
        n < ((x + q) / 2 + 1) * ((x + q) / 2 + 1),
{
    let y = (x + q) / 2;
    assert(x * (q + 1) > n) by (nonlinear_arith)
        requires q == n / x, x >= 1, n >= 0;
    assert(2 * (y + 1) >= x + q + 1);
    assert(4 * (y + 1) * (y + 1) >= (x + q + 1) * (x + q + 1)) by (nonlinear_arith)
        requires 2 * (y + 1) >= x + q + 1, x + q + 1 >= 0;
    assert((x + q + 1) * (x + q + 1) >= 4 * x * (q + 1)) by (nonlinear_arith);
    assert(n < (y + 1) * (y + 1)) by (nonlinear_arith)
        requires
            x * (q + 1) > n,
            4 * (y + 1) * (y + 1) >= (x + q + 1) * (x + q + 1),
            (x + q + 1) * (x + q + 1) >= 4 * x * (q + 1),
    ;
}

} // verus!
