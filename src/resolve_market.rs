use vstd::prelude::*;
use crate::error::ZentroError;
use crate::key::Pubkey;
use crate::market::{Market, MarketStatus};

verus! {

/// Number of outcomes of a market.
pub const OUTCOME_COUNT: u8 = 2;

/// A market to settle, and who asks to settle it.
#[derive(Debug, Clone)]
pub struct ResolveMarket {
    pub market: Market,
    pub market_key: Pubkey,
    pub authority: Pubkey,
}

/// Record of a market's resolution.
#[derive(Debug, Clone, Copy)]
pub struct MarketResolvedEvent {
    pub market: Pubkey,
    pub outcome: u8,
    pub resolved_at: i64,
}

impl ResolveMarket {
    /// The error a resolution to `outcome` at `now` meets, if any, in the
    /// order the checks are made.
    pub open spec fn resolution_error(self, outcome: u8, now: i64) -> Option<ZentroError> {
        if self.authority.bytes@ != self.market.authority.bytes@ {
            Some(ZentroError::UnauthorizedResolution)
        } else if self.market.status != MarketStatus::Active {
            Some(ZentroError::MarketNotActive)
        } else if outcome >= OUTCOME_COUNT {
            Some(ZentroError::InvalidOutcome)
        } else if now < self.market.end_time {
            Some(ZentroError::MarketNotEnded)
        } else {
            None
        }
    }
}

/// Settles an active market on `outcome` (0 for "yes", 1 for "no"); only
/// its creator may, and only once its end time has come.
pub fn resolve_market(ctx: &mut ResolveMarket, outcome: u8, now: i64) -> (r: Result<
    MarketResolvedEvent,
    ZentroError,
>)
    ensures
        old(ctx).resolution_error(outcome, now) matches Some(e) ==> r == Err::<
            MarketResolvedEvent,
            ZentroError,
        >(e) && *final(ctx) == *old(ctx),
        old(ctx).resolution_error(outcome, now) is None ==> r == Ok::<MarketResolvedEvent, ZentroError>(
            MarketResolvedEvent { market: old(ctx).market_key, outcome, resolved_at: now },
        ) && *final(ctx) == (ResolveMarket {
            market: Market {
                status: MarketStatus::Resolved,
                winning_outcome: Some(outcome),
                resolved_at: now,
                ..old(ctx).market
            },
            ..*old(ctx)
        }),
        old(ctx).market.wf() ==> final(ctx).market.wf(),
{
    if !ctx.authority.same(&ctx.market.authority) {
        return Err(ZentroError::UnauthorizedResolution);
    }
    if ctx.market.status != MarketStatus::Active {
        return Err(ZentroError::MarketNotActive);
    }
    if outcome >= OUTCOME_COUNT {
        return Err(ZentroError::InvalidOutcome);
    }
    if now < ctx.market.end_time {
        return Err(ZentroError::MarketNotEnded);
    }
    ctx.market.status = MarketStatus::Resolved;
    ctx.market.winning_outcome = Some(outcome);
    ctx.market.resolved_at = now;
    Ok(MarketResolvedEvent { market: ctx.market_key, outcome, resolved_at: now })
}

/// Cancels an active market. Only its creator may, and only while no bet
/// stands on it.
pub fn cancel_market(market: &mut Market, authority: &Pubkey) -> (r: Result<(), ZentroError>)
    ensures
        old(market).status == MarketStatus::Resolved ==> r == Err::<(), ZentroError>(
            ZentroError::CannotCancelResolvedMarket,
        ),
        old(market).status == MarketStatus::Cancelled ==> r == Err::<(), ZentroError>(
            ZentroError::MarketNotActive,
        ),
        old(market).status == MarketStatus::Active && authority.bytes@ != old(market).authority.bytes@
            ==> r == Err::<(), ZentroError>(ZentroError::UnauthorizedCancellation),
        old(market).status == MarketStatus::Active && authority.bytes@ == old(market).authority.bytes@
            && old(market).total_bets > 0 ==> r == Err::<(), ZentroError>(
            ZentroError::MarketHasActivePredictions,
        ),
        r is Ok <==> old(market).status == MarketStatus::Active && authority.bytes@ == old(
            market,
        ).authority.bytes@ && old(market).total_bets == 0,
        r is Ok ==> *final(market) == (Market { status: MarketStatus::Cancelled, ..*old(market) }),
        r is Err ==> *final(market) == *old(market),
        old(market).wf() ==> final(market).wf(),
{
    if market.status == MarketStatus::Resolved {
        return Err(ZentroError::CannotCancelResolvedMarket);
    }
    if market.status == MarketStatus::Cancelled {
        return Err(ZentroError::MarketNotActive);
    }
    if !authority.same(&market.authority) {
        return Err(ZentroError::UnauthorizedCancellation);
    }
    if market.total_bets > 0 {
        return Err(ZentroError::MarketHasActivePredictions);
    }
    market.status = MarketStatus::Cancelled;
    Ok(())
}

} // verus!
