use zentro::pricing::{
    apply_liquidity_adjustment, apply_volatility_adjustment, calculate_arbitrage_opportunity,
    calculate_liquidity_factor, calculate_market_price, calculate_payout, calculate_price_impact,
    calculate_share_price, calculate_time_decay, integer_sqrt, PricingParams,
};

#[test]
fn test_calculate_market_price() {
    let params = PricingParams::default();
    let price = calculate_market_price(100, 100, 1000000, &params).unwrap();
    assert_eq!(price, params.base_price);
}

#[test]
fn test_calculate_share_price() {
    let price = calculate_share_price(5000, 100, true, 1000000).unwrap();
    assert!(price > 0);
}

#[test]
fn test_calculate_payout() {
    let payout = calculate_payout(100, true, true).unwrap();
    assert_eq!(payout, 100);

    let no_payout = calculate_payout(100, true, false).unwrap();
    assert_eq!(no_payout, 0);
}

#[test]
fn test_price_impact() {
    let impact = calculate_price_impact(1000, 100000);
    assert!(impact > 0);
    assert!(impact <= 1000);
}

#[test]
fn test_integer_sqrt() {
    assert_eq!(integer_sqrt(0), 0);
    assert_eq!(integer_sqrt(1), 1);
    assert_eq!(integer_sqrt(4), 2);
    assert_eq!(integer_sqrt(9), 3);
    assert_eq!(integer_sqrt(16), 4);
}

#[test]
fn integer_sqrt_floors_and_handles_the_largest_input() {
    assert_eq!(integer_sqrt(15), 3);
    assert_eq!(integer_sqrt(17), 4);
    assert_eq!(integer_sqrt(u64::MAX), 4294967295);
}

#[test]
fn market_price_of_empty_market_is_base_price() {
    let mut params = PricingParams::default();
    params.base_price = 4321;
    assert_eq!(calculate_market_price(0, 0, 0, &params).unwrap(), 4321);
}

#[test]
fn market_price_scales_away_from_midpoint_and_caps() {
    let params = PricingParams::default();
    // 75% yes at full depth: 7500 + 100 * 2500 / 10000 = 7525.
    assert_eq!(calculate_market_price(300, 100, 1000000, &params).unwrap(), 7525);
    // All yes: 10000 + 50 = 10050, capped at 9900.
    assert_eq!(calculate_market_price(100, 0, 1000000, &params).unwrap(), 9900);
}

#[test]
fn liquidity_factor_cases() {
    assert_eq!(calculate_liquidity_factor(5, 0), 100);
    assert_eq!(calculate_liquidity_factor(500, 1000), 50);
    assert_eq!(calculate_liquidity_factor(u64::MAX, 1), 200);
}

#[test]
fn liquidity_adjustment_cases() {
    assert_eq!(apply_liquidity_adjustment(6000, 100), 6000);
    // (100 - 50) * 6000 / 1000 = 300
    assert_eq!(apply_liquidity_adjustment(6000, 50), 6300);
    assert_eq!(apply_liquidity_adjustment(4000, 50), 3800);
}

#[test]
fn volatility_adjustment_cases() {
    assert_eq!(apply_volatility_adjustment(5000, 100), 5000);
    assert_eq!(apply_volatility_adjustment(7000, 5000), 8000);
    assert_eq!(apply_volatility_adjustment(3000, 5000), 2000);
}

#[test]
fn price_impact_cases() {
    assert_eq!(calculate_price_impact(1000, 0), 500);
    // 1000 * 10000 / 100000 = 100, square root 10.
    assert_eq!(calculate_price_impact(1000, 100000), 10);
    assert_eq!(calculate_price_impact(u64::MAX, 1), 1000);
}

#[test]
fn share_price_for_no_side() {
    // base 10000 - 6000 = 4000, impact sqrt(100) = 10, cost 4010 * 1000 / 10000 = 401.
    assert_eq!(calculate_share_price(6000, 1000, false, 100000).unwrap(), 401);
}

#[test]
fn time_decay_cases() {
    assert_eq!(calculate_time_decay(7000, 0, 100, 5000).unwrap(), 7000);
    assert_eq!(calculate_time_decay(7000, 50, 0, 5000).unwrap(), 7000);
    // ratio 25, adjustment 5000 * 75 / 10000 = 37.
    assert_eq!(calculate_time_decay(7000, 25, 100, 5000).unwrap(), 6963);
    assert_eq!(calculate_time_decay(3000, 25, 100, 5000).unwrap(), 3037);
}

#[test]
fn arbitrage_cases() {
    assert_eq!(calculate_arbitrage_opportunity(6000, 5000, 500), Some((true, 1000)));
    assert_eq!(calculate_arbitrage_opportunity(5000, 6000, 500), Some((false, 1000)));
    assert_eq!(calculate_arbitrage_opportunity(5000, 5400, 500), None);
}
