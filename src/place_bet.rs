use vstd::prelude::*;
use crate::error::ZentroError;
use crate::key::Pubkey;
use crate::market::{Market, MarketStatus, Vault};

verus! {

/// An active market, the bettor, and the vault that takes the stake.
#[derive(Debug, Clone)]
pub struct PlaceBet {
    pub market: Market,
    pub market_key: Pubkey,
    pub bettor: Pubkey,
    pub vault: Vault,
}

/// One stake placed on one side of a market.
#[derive(Debug, Clone, Copy)]
pub struct Bet {
    pub market: Pubkey,
    pub bettor: Pubkey,
    pub amount: u64,
    pub prediction: bool,
    pub timestamp: i64,
    pub bump: u8,
}

/// Record of a bet and the odds it leaves.
#[derive(Debug, Clone, Copy)]
pub struct BetPlacedEvent {
    pub market: Pubkey,
    pub bettor: Pubkey,
    pub amount: u64,
    pub prediction: bool,
    pub timestamp: i64,
    pub market_odds_yes: u8,
    pub market_odds_no: u8,
}

/// "Yes" odds in percent (floored) for the given side volumes.
pub open spec fn yes_odds_of(yes_volume: int, no_volume: int) -> int {
    yes_volume * 100 / (yes_volume + no_volume)
}

impl PlaceBet {
    /// Every counter a bet of `amount` raises stays within `u64`.
    pub open spec fn bet_fits(self, amount: int, prediction: bool) -> bool {
        let m = self.market;
        &&& m.total_bets + 1 <= u64::MAX
        &&& m.total_volume + amount <= u64::MAX
        &&& m.total_pool + amount <= u64::MAX
        &&& self.vault.balance + amount <= u64::MAX
        &&& prediction ==> m.yes_volume + amount <= u64::MAX && m.yes_bets + 1 <= u64::MAX
            && m.total_yes_shares + amount <= u64::MAX
        &&& !prediction ==> m.no_volume + amount <= u64::MAX && m.no_bets + 1 <= u64::MAX
            && m.total_no_shares + amount <= u64::MAX
    }

    /// The error a bet of `amount` at `now` meets, if any, in the order the
    /// checks are made.
    pub open spec fn bet_error(self, amount: u64, prediction: bool, now: i64) -> Option<ZentroError> {
        if self.market.status != MarketStatus::Active {
            Some(ZentroError::MarketNotActive)
        } else if now >= self.market.resolution_time {
            Some(ZentroError::MarketExpired)
        } else if amount == 0 {
            Some(ZentroError::InvalidBetAmount)
        } else if amount < self.market.min_bet_amount {
            Some(ZentroError::BetAmountTooLow)
        } else if amount > self.market.max_bet_amount {
            Some(ZentroError::BetAmountTooHigh)
        } else if !self.bet_fits(amount as int, prediction) {
            Some(ZentroError::ArithmeticOverflow)
        } else {
            None
        }
    }

    /// The market and vault after a bet of `amount` on `prediction`.
    pub open spec fn after_bet(self, amount: u64, prediction: bool) -> PlaceBet {
        let m = self.market;
        let yes_volume = if prediction { m.yes_volume + amount } else { m.yes_volume as int };
        let no_volume = if prediction { m.no_volume as int } else { m.no_volume + amount };
        let yes_odds = yes_odds_of(yes_volume, no_volume);
        PlaceBet {
            market: Market {
                total_bets: (m.total_bets + 1) as u64,
                total_volume: (m.total_volume + amount) as u64,
                total_pool: (m.total_pool + amount) as u64,
                yes_volume: yes_volume as u64,
                no_volume: no_volume as u64,
                yes_bets: (if prediction { m.yes_bets + 1 } else { m.yes_bets as int }) as u64,
                no_bets: (if prediction { m.no_bets as int } else { m.no_bets + 1 }) as u64,
                total_yes_shares: (if prediction { m.total_yes_shares + amount } else {
                    m.total_yes_shares as int
                }) as u64,
                total_no_shares: (if prediction { m.total_no_shares as int } else {
                    m.total_no_shares + amount
                }) as u64,
                yes_odds: yes_odds as u8,
                no_odds: (100 - yes_odds) as u8,
                ..m
            },
            vault: Vault { balance: (self.vault.balance + amount) as u64, ..self.vault },
            ..self
        }
    }
}

/// Takes a stake of `amount` on "yes" (`prediction`) or "no" while the
/// market is open, raises the market's counters and pool, and re-derives
/// the odds from the side volumes.
pub fn place_bet(ctx: &mut PlaceBet, amount: u64, prediction: bool, now: i64, bump: u8) -> (r: Result<
    (Bet, BetPlacedEvent),
    ZentroError,
>)
    ensures
        old(ctx).bet_error(amount, prediction, now) matches Some(e) ==> r == Err::<
            (Bet, BetPlacedEvent),
            ZentroError,
        >(e) && *final(ctx) == *old(ctx),
        old(ctx).bet_error(amount, prediction, now) is None ==> r is Ok && *final(ctx) == old(
            ctx,
        ).after_bet(amount, prediction),
        r matches Ok((bet, ev)) ==> bet == (Bet {
            market: old(ctx).market_key,
            bettor: old(ctx).bettor,
            amount,
            prediction,
            timestamp: now,
            bump,
        }) && ev == (BetPlacedEvent {
            market: old(ctx).market_key,
            bettor: old(ctx).bettor,
            amount,
            prediction,
            timestamp: now,
            market_odds_yes: final(ctx).market.yes_odds,
            market_odds_no: final(ctx).market.no_odds,
        }),
        old(ctx).market.wf() ==> final(ctx).market.wf(),
        old(ctx).market.total_claimed + old(ctx).vault.balance <= old(ctx).market.total_pool
            ==> final(ctx).market.total_claimed + final(ctx).vault.balance <= final(ctx).market.total_pool,
{
    if ctx.market.status != MarketStatus::Active {
        return Err(ZentroError::MarketNotActive);
    }
    if now >= ctx.market.resolution_time {
        return Err(ZentroError::MarketExpired);
    }
    if amount == 0 {
        return Err(ZentroError::InvalidBetAmount);
    }
    if amount < ctx.market.min_bet_amount {
        return Err(ZentroError::BetAmountTooLow);
    }
    if amount > ctx.market.max_bet_amount {
        return Err(ZentroError::BetAmountTooHigh);
    }
    if ctx.market.total_bets == u64::MAX || ctx.market.total_volume > u64::MAX - amount
        || ctx.market.total_pool > u64::MAX - amount || ctx.vault.balance > u64::MAX - amount {
        return Err(ZentroError::ArithmeticOverflow);
    }
    if prediction {
        if ctx.market.yes_volume > u64::MAX - amount || ctx.market.yes_bets == u64::MAX
            || ctx.market.total_yes_shares > u64::MAX - amount {
            return Err(ZentroError::ArithmeticOverflow);
        }
        ctx.market.yes_volume = ctx.market.yes_volume + amount;
        ctx.market.yes_bets = ctx.market.yes_bets + 1;
        ctx.market.total_yes_shares = ctx.market.total_yes_shares + amount;
    } else {
        if ctx.market.no_volume > u64::MAX - amount || ctx.market.no_bets == u64::MAX
            || ctx.market.total_no_shares > u64::MAX - amount {
            return Err(ZentroError::ArithmeticOverflow);
        }
        ctx.market.no_volume = ctx.market.no_volume + amount;
        ctx.market.no_bets = ctx.market.no_bets + 1;
        ctx.market.total_no_shares = ctx.market.total_no_shares + amount;
    }
    ctx.market.total_bets = ctx.market.total_bets + 1;
    ctx.market.total_volume = ctx.market.total_volume + amount;
    ctx.market.total_pool = ctx.market.total_pool + amount;
    ctx.vault.balance = ctx.vault.balance + amount;
    let yes_volume = ctx.market.yes_volume as u128;
    let side_total = yes_volume + ctx.market.no_volume as u128;
    let yes_odds = yes_volume * 100 / side_total;
    proof {
        crate::arith::lemma_div_at_most(yes_volume * 100, 100, side_total as int);
    }
    ctx.market.yes_odds = yes_odds as u8;
    ctx.market.no_odds = 100 - yes_odds as u8;
    let bet = Bet { market: ctx.market_key, bettor: ctx.bettor, amount, prediction, timestamp: now, bump };
    let event = BetPlacedEvent {
        market: ctx.market_key,
        bettor: ctx.bettor,
        amount,
        prediction,
        timestamp: now,
        market_odds_yes: ctx.market.yes_odds,
        market_odds_no: ctx.market.no_odds,
    };
    Ok((bet, event))
}

} // verus!
