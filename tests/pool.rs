use zentro::error::ZentroError;
use zentro::key::Pubkey;
use zentro::liquidity_pool::LiquidityPool;

fn key(b: u8) -> Pubkey {
    Pubkey { bytes: [b; 32] }
}

fn blank_pool() -> LiquidityPool {
    LiquidityPool {
        authority: key(0),
        market: key(0),
        token_mint: key(0),
        token_vault: key(0),
        yes_token_mint: key(0),
        no_token_mint: key(0),
        yes_token_vault: key(0),
        no_token_vault: key(0),
        total_liquidity: 0,
        yes_reserves: 0,
        no_reserves: 0,
        fee_rate: 0,
        accumulated_fees: 0,
        is_active: false,
        created_at: 0,
        bump: 0,
    }
}

fn pool_with(fee_rate: u16) -> LiquidityPool {
    let mut pool = blank_pool();
    pool.initialize(key(1), key(2), key(3), key(4), key(5), key(6), key(7), key(8), fee_rate, 9, 1234)
        .unwrap();
    pool
}

#[test]
fn initialize_sets_up_an_empty_active_pool() {
    let pool = pool_with(100);
    assert!(pool.is_active);
    assert_eq!(pool.fee_rate, 100);
    assert_eq!(pool.total_liquidity, 0);
    assert_eq!(pool.yes_reserves, 0);
    assert_eq!(pool.no_reserves, 0);
    assert_eq!(pool.created_at, 1234);
    assert_eq!(pool.authority.bytes, [1u8; 32]);
    assert_eq!(pool.bump, 9);
}

#[test]
fn initialize_refuses_a_fee_over_ten_percent() {
    let mut pool = blank_pool();
    let r = pool.initialize(key(1), key(2), key(3), key(4), key(5), key(6), key(7), key(8), 1001, 0, 0);
    assert_eq!(r, Err(ZentroError::InvalidFeeRate));
    assert!(!pool.is_active);
}

#[test]
fn first_deposit_mints_the_amount_and_splits_it() {
    let mut pool = pool_with(100);
    assert_eq!(pool.add_liquidity(1000), Ok(1000));
    assert_eq!(pool.total_liquidity, 1000);
    assert_eq!(pool.yes_reserves, 500);
    assert_eq!(pool.no_reserves, 500);
}

#[test]
fn later_deposit_mints_proportionally() {
    let mut pool = pool_with(100);
    pool.total_liquidity = 1000;
    pool.yes_reserves = 1500;
    pool.no_reserves = 500;
    // 400 * 1000 / 2000 = 200
    assert_eq!(pool.add_liquidity(400), Ok(200));
    assert_eq!(pool.total_liquidity, 1200);
    assert_eq!(pool.yes_reserves, 1700);
    assert_eq!(pool.no_reserves, 700);
}

#[test]
fn deposit_of_one_into_a_funded_pool_is_taken() {
    let mut pool = pool_with(100);
    pool.total_liquidity = 10;
    pool.yes_reserves = 10;
    pool.no_reserves = 10;
    // 1 * 10 / 20 = 0 tokens; the halves are empty too.
    assert_eq!(pool.add_liquidity(1), Ok(0));
    assert_eq!(pool.total_liquidity, 10);
    assert_eq!(pool.yes_reserves, 10);
    assert_eq!(pool.no_reserves, 10);
}

#[test]
fn deposit_errors() {
    let mut pool = pool_with(100);
    assert_eq!(pool.add_liquidity(0), Err(ZentroError::InvalidAmount));
    assert_eq!(pool.add_liquidity(1), Err(ZentroError::InvalidAmount));
    assert_eq!(pool.total_liquidity, 0);
    pool.yes_reserves = u64::MAX;
    pool.no_reserves = 0;
    pool.total_liquidity = 1;
    assert_eq!(pool.add_liquidity(10), Err(ZentroError::MathOverflow));
    pool.deactivate().unwrap();
    assert_eq!(pool.add_liquidity(10), Err(ZentroError::PoolInactive));
}

#[test]
fn remove_liquidity_hands_back_proportional_shares() {
    let mut pool = pool_with(0);
    pool.total_liquidity = 1000;
    pool.yes_reserves = 3000;
    pool.no_reserves = 1001;
    assert_eq!(pool.remove_liquidity(250), Ok((750, 250)));
    assert_eq!(pool.total_liquidity, 750);
    assert_eq!(pool.yes_reserves, 2250);
    assert_eq!(pool.no_reserves, 751);
}

#[test]
fn remove_liquidity_errors() {
    let mut pool = pool_with(0);
    pool.add_liquidity(1000).unwrap();
    assert_eq!(pool.remove_liquidity(0), Err(ZentroError::InsufficientLiquidity));
    assert_eq!(pool.remove_liquidity(1001), Err(ZentroError::InsufficientLiquidity));
    pool.deactivate().unwrap();
    assert_eq!(pool.remove_liquidity(10), Err(ZentroError::PoolInactive));
}

#[test]
fn round_trip_on_empty_pool_restores_supply_and_reserves() {
    let mut pool = pool_with(100);
    let tokens = pool.add_liquidity(1000).unwrap();
    assert_eq!(pool.remove_liquidity(tokens), Ok((500, 500)));
    assert_eq!(pool.total_liquidity, 0);
    assert_eq!(pool.yes_reserves, 0);
    assert_eq!(pool.no_reserves, 0);
}

#[test]
fn round_trip_on_funded_pool_returns_no_more_than_deposited() {
    let mut pool = pool_with(100);
    pool.total_liquidity = 1000;
    pool.yes_reserves = 1500;
    pool.no_reserves = 500;
    let tokens = pool.add_liquidity(401).unwrap();
    let (yes, no) = pool.remove_liquidity(tokens).unwrap();
    assert_eq!(pool.total_liquidity, 1000);
    assert!(yes + no <= 401);
}

#[test]
fn quote_matches_constant_product_example() {
    let mut pool = pool_with(100);
    pool.total_liquidity = 200000;
    pool.yes_reserves = 100000;
    pool.no_reserves = 100000;
    // floor(990 * 100000 / 100990) = 980
    assert_eq!(pool.get_swap_amount_out(1000, true), Ok(980));
    assert_eq!(pool.get_swap_amount_out(1000, false), Ok(980));
}

#[test]
fn quote_grows_with_amount_and_shrinks_with_reserve_in() {
    let mut pool = pool_with(100);
    pool.total_liquidity = 200000;
    pool.yes_reserves = 100000;
    pool.no_reserves = 100000;
    let small = pool.get_swap_amount_out(1000, true).unwrap();
    let large = pool.get_swap_amount_out(5000, true).unwrap();
    assert!(small < large);
    pool.yes_reserves = 200000;
    let deeper = pool.get_swap_amount_out(1000, true).unwrap();
    assert!(deeper < small);
}

#[test]
fn quote_errors() {
    let mut pool = pool_with(100);
    assert_eq!(pool.get_swap_amount_out(0, true), Err(ZentroError::InvalidAmount));
    assert_eq!(pool.get_swap_amount_out(10, true), Err(ZentroError::InsufficientLiquidity));
    pool.deactivate().unwrap();
    assert_eq!(pool.get_swap_amount_out(10, true), Err(ZentroError::PoolInactive));
}

#[test]
fn swap_conserves_held_value() {
    let mut pool = pool_with(100);
    pool.total_liquidity = 200000;
    pool.yes_reserves = 100000;
    pool.no_reserves = 100000;
    let before = pool.yes_reserves + pool.no_reserves + pool.accumulated_fees;
    let out = pool.get_swap_amount_out(1000, true).unwrap();
    pool.execute_swap(1000, out, true).unwrap();
    let after = pool.yes_reserves + pool.no_reserves + pool.accumulated_fees;
    assert_eq!(after, before + 1000 - out);
    assert_eq!(pool.accumulated_fees, 10);
    assert_eq!(pool.yes_reserves, 100990);
    assert_eq!(pool.no_reserves, 100000 - 980);
}

#[test]
fn swap_errors() {
    let mut pool = pool_with(100);
    pool.total_liquidity = 20;
    pool.yes_reserves = 10;
    pool.no_reserves = 10;
    assert_eq!(pool.execute_swap(0, 1, true), Err(ZentroError::InvalidAmount));
    assert_eq!(pool.execute_swap(5, 11, true), Err(ZentroError::MathOverflow));
    assert_eq!(pool.yes_reserves, 10);
    pool.deactivate().unwrap();
    assert_eq!(pool.execute_swap(5, 1, true), Err(ZentroError::PoolInactive));
}

#[test]
fn current_price_cases() {
    let mut pool = pool_with(0);
    assert_eq!(pool.get_current_price(), Err(ZentroError::InsufficientLiquidity));
    pool.yes_reserves = 300;
    pool.no_reserves = 100;
    assert_eq!(pool.get_current_price(), Ok(250000));
}

#[test]
fn collect_fees_is_idempotent() {
    let mut pool = pool_with(0);
    pool.accumulated_fees = 77;
    assert_eq!(pool.collect_fees(), Ok(77));
    assert_eq!(pool.collect_fees(), Ok(0));
}
