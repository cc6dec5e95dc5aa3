use vstd::prelude::*;
use crate::error::ZentroError;
use crate::key::Pubkey;
use crate::market::{Market, MarketStatus, Vault};
use crate::user_position::UserPosition;

verus! {

/// Fixed-point scale of a position's share of the winning side.
pub const SHARE_RATIO_SCALE: u64 = 1000000;

/// A resolved market, the position to settle, the market's vault and the
/// user who claims.
#[derive(Debug, Clone)]
pub struct ClaimWinnings {
    pub market: Market,
    pub market_key: Pubkey,
    pub position: UserPosition,
    pub position_key: Pubkey,
    pub vault: Vault,
    pub user: Pubkey,
}

/// Record of a settled claim.
#[derive(Debug, Clone, Copy)]
pub struct WinningsClaimedEvent {
    pub market: Pubkey,
    pub user: Pubkey,
    pub position: Pubkey,
    pub amount: u64,
    pub outcome: u8,
    pub shares: u64,
    pub timestamp: i64,
}

/// Shares outstanding on `outcome` (0 for "yes", 1 for "no").
pub open spec fn winning_shares(market: Market, outcome: u8) -> int {
    if outcome == 0 { market.total_yes_shares as int } else { market.total_no_shares as int }
}

/// A position's share of the winning side, scaled by one million.
pub open spec fn share_ratio(shares: int, total_winning_shares: int) -> int {
    shares * (SHARE_RATIO_SCALE as int) / total_winning_shares
}

/// The part of the pool that a scaled share ratio wins.
pub open spec fn winnings_of(total_pool: int, ratio: int) -> int {
    total_pool * ratio / (SHARE_RATIO_SCALE as int)
}

impl ClaimWinnings {
    /// What a claim comes to: the winnings paid, or the first check that
    /// refuses it.
    pub open spec fn claim_outcome(self) -> Result<u64, ZentroError> {
        match self.market.winning_outcome {
            None => Err(ZentroError::MarketNotResolved),
            Some(winning) => {
                let total_winning = winning_shares(self.market, winning);
                let ratio = share_ratio(self.position.shares as int, total_winning);
                let winnings = winnings_of(self.market.total_pool as int, ratio);
                if self.market.status != MarketStatus::Resolved {
                    Err(ZentroError::MarketNotResolved)
                } else if self.position.market.bytes@ != self.market_key.bytes@ {
                    Err(ZentroError::InvalidMarket)
                } else if self.position.user.bytes@ != self.user.bytes@ {
                    Err(ZentroError::InvalidUser)
                } else if self.position.claimed {
                    Err(ZentroError::AlreadyClaimed)
                } else if self.position.outcome != winning {
                    Err(ZentroError::NotWinningPosition)
                } else if winning >= 2 {
                    Err(ZentroError::InvalidOutcome)
                } else if total_winning == 0 {
                    Err(ZentroError::NoWinningShares)
                } else if self.market.total_pool * ratio > u128::MAX || winnings > u64::MAX {
                    Err(ZentroError::ArithmeticOverflow)
                } else if winnings == 0 {
                    Err(ZentroError::NoWinningsToClaim)
                } else if self.vault.balance < winnings {
                    Err(ZentroError::InsufficientVaultBalance)
                } else if self.market.total_claimed + winnings > u64::MAX {
                    Err(ZentroError::ArithmeticOverflow)
                } else {
                    Ok(winnings as u64)
                }
            },
        }
    }

    /// The records after `winnings` are paid out of the vault.
    pub open spec fn after_claim(self, winnings: u64) -> ClaimWinnings {
        ClaimWinnings {
            market: Market { total_claimed: (self.market.total_claimed + winnings) as u64, ..self.market },
            position: UserPosition { claimed: true, winnings_claimed: winnings, ..self.position },
            vault: Vault { balance: (self.vault.balance - winnings) as u64, ..self.vault },
            ..self
        }
    }

    /// What has been claimed and what the vault still holds together stay
    /// within the market's pool.
    pub open spec fn settlement_sound(self) -> bool {
        self.market.total_claimed + self.vault.balance <= self.market.total_pool
    }
}

/// Pays a winning position its share of the pool, once: the position is
/// marked claimed, the vault debited and the market's claimed total raised.
pub fn claim_winnings(ctx: &mut ClaimWinnings, now: i64) -> (r: Result<WinningsClaimedEvent, ZentroError>)
    ensures
        r is Ok <==> old(ctx).claim_outcome() is Ok,
        r matches Err(e) ==> old(ctx).claim_outcome() == Err::<u64, ZentroError>(e)
            && *final(ctx) == *old(ctx),
        r matches Ok(ev) ==> old(ctx).claim_outcome() == Ok::<u64, ZentroError>(ev.amount)
            && *final(ctx) == old(ctx).after_claim(ev.amount) && ev == (WinningsClaimedEvent {
            market: old(ctx).market_key,
            user: old(ctx).user,
            position: old(ctx).position_key,
            amount: ev.amount,
            outcome: old(ctx).position.outcome,
            shares: old(ctx).position.shares,
            timestamp: now,
        }),
        old(ctx).settlement_sound() ==> final(ctx).settlement_sound(),
        old(ctx).settlement_sound() && old(ctx).market.wf() ==> final(ctx).market.wf(),
{
    let winning = match ctx.market.winning_outcome {
        Some(o) => o,
        None => {
            return Err(ZentroError::MarketNotResolved);
        },
    };
    if ctx.market.status != MarketStatus::Resolved {
        return Err(ZentroError::MarketNotResolved);
    }
    if !ctx.position.market.same(&ctx.market_key) {
        return Err(ZentroError::InvalidMarket);
    }
    if !ctx.position.user.same(&ctx.user) {
        return Err(ZentroError::InvalidUser);
    }
    if ctx.position.claimed {
        return Err(ZentroError::AlreadyClaimed);
    }
    if ctx.position.outcome != winning {
        return Err(ZentroError::NotWinningPosition);
    }
    let total_winning_shares = if winning == 0 {
        ctx.market.total_yes_shares
    } else if winning == 1 {
        ctx.market.total_no_shares
    } else {
        return Err(ZentroError::InvalidOutcome);
    };
    if total_winning_shares == 0 {
        return Err(ZentroError::NoWinningShares);
    }
    let user_share_ratio = ctx.position.shares as u128 * SHARE_RATIO_SCALE as u128
        / total_winning_shares as u128;
    let scaled = match (ctx.market.total_pool as u128).checked_mul(user_share_ratio) {
        Some(v) => v,
        None => {
            return Err(ZentroError::ArithmeticOverflow);
        },
    };
    let wide_winnings = scaled / SHARE_RATIO_SCALE as u128;
    if wide_winnings > u64::MAX as u128 {
        return Err(ZentroError::ArithmeticOverflow);
    }
    let winnings = wide_winnings as u64;
    if winnings == 0 {
        return Err(ZentroError::NoWinningsToClaim);
    }
    if ctx.vault.balance < winnings {
        return Err(ZentroError::InsufficientVaultBalance);
    }
    if ctx.market.total_claimed > u64::MAX - winnings {
        return Err(ZentroError::ArithmeticOverflow);
    }
    ctx.vault.balance = ctx.vault.balance - winnings;
    ctx.position.claimed = true;
    ctx.position.winnings_claimed = winnings;
    ctx.market.total_claimed = ctx.market.total_claimed + winnings;
    Ok(
        WinningsClaimedEvent {
            market: ctx.market_key,
            user: ctx.user,
            position: ctx.position_key,
            amount: winnings,
            outcome: ctx.position.outcome,
            shares: ctx.position.shares,
            timestamp: now,
        },
    )
}

/// A position is paid at most once: after a successful claim, claiming
/// again is refused as already claimed, and the vault has been debited by
/// the winnings exactly once.
pub proof fn lemma_claim_pays_once(ctx: ClaimWinnings)
    requires
        ctx.claim_outcome() is Ok,
    ensures
        ({
            let winnings = ctx.claim_outcome()->Ok_0;
            let after = ctx.after_claim(winnings);
            &&& after.claim_outcome() == Err::<u64, ZentroError>(ZentroError::AlreadyClaimed)
            &&& after.vault.balance == ctx.vault.balance - winnings
        }),
{
}

/// Claims never pay out more than the pool: when what was claimed and what
/// the vault holds fit within the pool before a claim, they still do after
/// it, and the claimed total has grown by exactly the winnings recorded on
/// the position.
pub proof fn lemma_claims_within_pool(ctx: ClaimWinnings)
    requires
        ctx.settlement_sound(),
        ctx.claim_outcome() is Ok,
    ensures
        ({
            let after = ctx.after_claim(ctx.claim_outcome()->Ok_0);
            &&& after.settlement_sound()
            &&& after.market.total_claimed == ctx.market.total_claimed + after.position.winnings_claimed
            &&& after.market.total_claimed <= after.market.total_pool
        }),
{
}

} // verus!
