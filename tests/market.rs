use zentro::add_liquidity::{AddLiquidity, LiquidityPosition};
use zentro::claim_winnings::{claim_winnings, ClaimWinnings};
use zentro::error::ZentroError;
use zentro::key::Pubkey;
use zentro::market::{create_market, CreateMarket, Market, MarketStatus, Vault};
use zentro::place_bet::{place_bet, PlaceBet};
use zentro::resolve_market::{cancel_market, resolve_market, ResolveMarket};
use zentro::user_position::UserPosition;

fn key(b: u8) -> Pubkey {
    Pubkey { bytes: [b; 32] }
}

fn open_market() -> Market {
    let ctx = CreateMarket { market: key(9), authority: key(1), bump: 3 };
    let (market, _) = create_market(
        &ctx,
        "m-1".to_string(),
        "Will it rain?".to_string(),
        "Resolves yes if it rains.".to_string(),
        1000,
        "weather".to_string(),
        10,
        10000,
        100,
    )
    .unwrap();
    market
}

fn bet(market: Market, vault: Vault, amount: u64, prediction: bool) -> (Market, Vault) {
    let mut ctx = PlaceBet { market, market_key: key(9), bettor: key(2), vault };
    place_bet(&mut ctx, amount, prediction, 500, 0).unwrap();
    (ctx.market, ctx.vault)
}

fn resolved_market_with_bets() -> (Market, Vault) {
    let vault = Vault { balance: 0, bump: 0 };
    let (m, v) = bet(open_market(), vault, 300, true);
    let (m, v) = bet(m, v, 100, false);
    let mut ctx = ResolveMarket { market: m, market_key: key(9), authority: key(1) };
    resolve_market(&mut ctx, 0, 1000).unwrap();
    (ctx.market, v)
}

fn winning_position(shares: u64) -> UserPosition {
    UserPosition::new(key(2), key(9), 0, shares, 1, 0, 0).unwrap()
}

#[test]
fn create_market_opens_an_active_market() {
    let ctx = CreateMarket { market: key(9), authority: key(1), bump: 3 };
    let (market, event) = create_market(
        &ctx,
        "m-1".to_string(),
        "T".to_string(),
        "D".to_string(),
        1000,
        "c".to_string(),
        1,
        5,
        100,
    )
    .unwrap();
    assert_eq!(market.status, MarketStatus::Active);
    assert_eq!(market.winning_outcome, None);
    assert_eq!(market.end_time, 1000);
    assert_eq!(market.created_at, 100);
    assert_eq!(market.yes_odds + market.no_odds, 100);
    assert_eq!(event.market_id, "m-1");
    assert_eq!(event.title, "T");
    assert_eq!(event.market.bytes, [9u8; 32]);
}

#[test]
fn create_market_errors() {
    let ctx = CreateMarket { market: key(9), authority: key(1), bump: 3 };
    let mk = |id: String, title: String, desc: String, end: i64| {
        create_market(&ctx, id, title, desc, end, String::new(), 0, 0, 100).map(|(m, _)| m.end_time)
    };
    assert_eq!(mk("a".into(), "t".into(), "d".into(), 100), Err(ZentroError::InvalidEndTime));
    assert_eq!(mk("a".into(), "t".repeat(201), "d".into(), 200), Err(ZentroError::TitleTooLong));
    assert_eq!(mk("a".into(), "t".repeat(200), "d".repeat(1001), 200), Err(ZentroError::DescriptionTooLong));
    assert_eq!(mk("a".repeat(51), "t".into(), "d".into(), 200), Err(ZentroError::MarketIdTooLong));
    assert_eq!(mk("a".repeat(50), "t".into(), "d".into(), 200), Ok(200));
}

#[test]
fn place_bet_updates_counters_and_odds() {
    let vault = Vault { balance: 0, bump: 0 };
    let mut ctx = PlaceBet { market: open_market(), market_key: key(9), bettor: key(2), vault };
    let (b, ev) = place_bet(&mut ctx, 300, true, 500, 4).unwrap();
    assert_eq!(b.amount, 300);
    assert_eq!(b.timestamp, 500);
    assert_eq!(ev.market_odds_yes, 100);
    assert_eq!(ev.market_odds_no, 0);
    let (_, ev) = place_bet(&mut ctx, 100, false, 500, 4).unwrap();
    assert_eq!(ev.market_odds_yes, 75);
    assert_eq!(ev.market_odds_no, 25);
    assert_eq!(ctx.market.total_bets, 2);
    assert_eq!(ctx.market.total_volume, 400);
    assert_eq!(ctx.market.yes_volume + ctx.market.no_volume, ctx.market.total_volume);
    assert_eq!(ctx.market.total_pool, 400);
    assert_eq!(ctx.vault.balance, 400);
}

#[test]
fn place_bet_errors() {
    let vault = Vault { balance: 0, bump: 0 };
    let mut ctx = PlaceBet { market: open_market(), market_key: key(9), bettor: key(2), vault };
    assert_eq!(place_bet(&mut ctx, 0, true, 500, 0).map(|_| ()), Err(ZentroError::InvalidBetAmount));
    assert_eq!(place_bet(&mut ctx, 5, true, 500, 0).map(|_| ()), Err(ZentroError::BetAmountTooLow));
    assert_eq!(place_bet(&mut ctx, 10001, true, 500, 0).map(|_| ()), Err(ZentroError::BetAmountTooHigh));
    assert_eq!(place_bet(&mut ctx, 50, true, 1000, 0).map(|_| ()), Err(ZentroError::MarketExpired));
    ctx.market.status = MarketStatus::Resolved;
    assert_eq!(place_bet(&mut ctx, 50, true, 500, 0).map(|_| ()), Err(ZentroError::MarketNotActive));
    assert_eq!(ctx.market.total_bets, 0);
}

#[test]
fn resolve_market_checks_creator_time_and_outcome() {
    let mut ctx = ResolveMarket { market: open_market(), market_key: key(9), authority: key(5) };
    assert_eq!(resolve_market(&mut ctx, 0, 2000).map(|_| ()), Err(ZentroError::UnauthorizedResolution));
    ctx.authority = key(1);
    assert_eq!(resolve_market(&mut ctx, 2, 2000).map(|_| ()), Err(ZentroError::InvalidOutcome));
    assert_eq!(resolve_market(&mut ctx, 1, 999).map(|_| ()), Err(ZentroError::MarketNotEnded));
    let ev = resolve_market(&mut ctx, 1, 1000).unwrap();
    assert_eq!(ev.outcome, 1);
    assert_eq!(ev.resolved_at, 1000);
    assert_eq!(ctx.market.status, MarketStatus::Resolved);
    assert_eq!(ctx.market.winning_outcome, Some(1));
    assert_eq!(resolve_market(&mut ctx, 0, 2000).map(|_| ()), Err(ZentroError::MarketNotActive));
}

#[test]
fn cancel_market_cases() {
    let mut market = open_market();
    assert_eq!(cancel_market(&mut market, &key(5)), Err(ZentroError::UnauthorizedCancellation));
    let (mut with_bets, _) = bet(open_market(), Vault { balance: 0, bump: 0 }, 50, true);
    assert_eq!(cancel_market(&mut with_bets, &key(1)), Err(ZentroError::MarketHasActivePredictions));
    assert_eq!(cancel_market(&mut market, &key(1)), Ok(()));
    assert_eq!(market.status, MarketStatus::Cancelled);
    let (mut resolved, _) = resolved_market_with_bets();
    assert_eq!(cancel_market(&mut resolved, &key(1)), Err(ZentroError::CannotCancelResolvedMarket));
}

#[test]
fn claim_pays_share_of_pool_once() {
    let (market, vault) = resolved_market_with_bets();
    let mut ctx = ClaimWinnings {
        market,
        market_key: key(9),
        position: winning_position(150),
        position_key: key(7),
        vault,
        user: key(2),
    };
    // ratio 150 * 1e6 / 300 = 500000; winnings 400 * 500000 / 1e6 = 200
    let ev = claim_winnings(&mut ctx, 1500).unwrap();
    assert_eq!(ev.amount, 200);
    assert_eq!(ev.timestamp, 1500);
    assert_eq!(ctx.vault.balance, 200);
    assert!(ctx.position.claimed);
    assert_eq!(ctx.position.winnings_claimed, 200);
    assert_eq!(ctx.market.total_claimed, 200);
    assert_eq!(claim_winnings(&mut ctx, 1600).map(|_| ()), Err(ZentroError::AlreadyClaimed));
    assert_eq!(ctx.vault.balance, 200);
    assert_eq!(ctx.market.total_claimed, 200);
}

#[test]
fn claims_never_exceed_the_pool() {
    let (market, vault) = resolved_market_with_bets();
    let mut total = 0;
    let mut market = market;
    let mut vault = vault;
    for shares in [100u64, 100, 100] {
        let mut ctx = ClaimWinnings {
            market,
            market_key: key(9),
            position: winning_position(shares),
            position_key: key(7),
            vault,
            user: key(2),
        };
        total += claim_winnings(&mut ctx, 1500).unwrap().amount;
        market = ctx.market;
        vault = ctx.vault;
    }
    assert_eq!(total, market.total_claimed);
    assert!(market.total_claimed <= market.total_pool);
}

#[test]
fn claim_errors() {
    let (market, vault) = resolved_market_with_bets();
    let base = ClaimWinnings {
        market,
        market_key: key(9),
        position: winning_position(150),
        position_key: key(7),
        vault,
        user: key(2),
    };
    let run = |mut c: ClaimWinnings| claim_winnings(&mut c, 0).map(|e| e.amount);
    let mut c = base.clone();
    c.market.status = MarketStatus::Active;
    c.market.winning_outcome = None;
    assert_eq!(run(c), Err(ZentroError::MarketNotResolved));
    let mut c = base.clone();
    c.market_key = key(8);
    assert_eq!(run(c), Err(ZentroError::InvalidMarket));
    let mut c = base.clone();
    c.user = key(3);
    assert_eq!(run(c), Err(ZentroError::InvalidUser));
    let mut c = base.clone();
    c.position.outcome = 1;
    assert_eq!(run(c), Err(ZentroError::NotWinningPosition));
    let mut c = base.clone();
    c.market.total_yes_shares = 0;
    assert_eq!(run(c), Err(ZentroError::NoWinningShares));
    let mut c = base.clone();
    c.position.shares = 0;
    assert_eq!(run(c), Err(ZentroError::NoWinningsToClaim));
    let mut c = base.clone();
    c.vault.balance = 199;
    assert_eq!(run(c), Err(ZentroError::InsufficientVaultBalance));
    let mut c = base.clone();
    c.market.total_claimed = u64::MAX;
    assert_eq!(run(c), Err(ZentroError::ArithmeticOverflow));
}

#[test]
fn add_liquidity_mints_shares() {
    let mut ctx = AddLiquidity {
        market: open_market(),
        market_key: key(9),
        liquidity_position: LiquidityPosition { market: key(0), owner: key(0), shares: 0, bump: 0 },
        market_vault_amount: 0,
        user: key(2),
    };
    let ev = ctx.add_liquidity(1000, 500, 6).unwrap();
    assert_eq!(ev.shares, 1000);
    assert_eq!(ev.total_liquidity, 1000);
    assert_eq!(ctx.liquidity_position.market.bytes, [9u8; 32]);
    assert_eq!(ctx.liquidity_position.shares, 1000);
    assert_eq!(ctx.liquidity_position.bump, 6);
    ctx.market_vault_amount = 2000;
    // 500 * 1000 / 2000 = 250
    let ev = ctx.add_liquidity(500, 500, 6).unwrap();
    assert_eq!(ev.shares, 250);
    assert_eq!(ctx.liquidity_position.shares, 1250);
    assert_eq!(ctx.market.total_liquidity, 1250);
    assert_eq!(ctx.market_vault_amount, 2500);
}

#[test]
fn add_liquidity_errors() {
    let mut ctx = AddLiquidity {
        market: open_market(),
        market_key: key(9),
        liquidity_position: LiquidityPosition { market: key(0), owner: key(0), shares: 0, bump: 0 },
        market_vault_amount: 0,
        user: key(2),
    };
    assert_eq!(ctx.add_liquidity(0, 500, 0).map(|_| ()), Err(ZentroError::InvalidAmount));
    assert_eq!(ctx.add_liquidity(10, 1000, 0).map(|_| ()), Err(ZentroError::PredictionDeadlinePassed));
    ctx.market.total_liquidity = 10;
    assert_eq!(ctx.add_liquidity(10, 500, 0).map(|_| ()), Err(ZentroError::MathOverflow));
    ctx.market_vault_amount = 1000;
    assert_eq!(ctx.add_liquidity(10, 500, 0).map(|_| ()), Err(ZentroError::InsufficientLiquidity));
    ctx.market.status = MarketStatus::Cancelled;
    assert_eq!(ctx.add_liquidity(10, 500, 0).map(|_| ()), Err(ZentroError::MarketNotActive));
}
