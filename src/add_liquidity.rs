use vstd::prelude::*;
use crate::error::ZentroError;
use crate::key::Pubkey;
use crate::market::{Market, MarketStatus};

verus! {

/// A liquidity provider's claim on a market, in liquidity shares.
#[derive(Debug, Clone, Copy)]
pub struct LiquidityPosition {
    pub market: Pubkey,
    pub owner: Pubkey,
    pub shares: u64,
    pub bump: u8,
}

/// An open market, the provider's position in it (all-zero market key when
/// it was never filled in), the market vault's current holding, and the
/// provider.
#[derive(Debug, Clone)]
pub struct AddLiquidity {
    pub market: Market,
    pub market_key: Pubkey,
    pub liquidity_position: LiquidityPosition,
    pub market_vault_amount: u64,
    pub user: Pubkey,
}

/// Record of a liquidity deposit.
#[derive(Debug, Clone, Copy)]
pub struct LiquidityAddedEvent {
    pub market: Pubkey,
    pub user: Pubkey,
    pub amount: u64,
    pub shares: u64,
    pub total_liquidity: u64,
}

impl AddLiquidity {
    /// The provider holds no position in this market yet.
    pub open spec fn is_new_position(self) -> bool {
        self.liquidity_position.market.bytes@ == Seq::new(32, |i: int| 0u8)
    }

    /// Liquidity shares for a deposit of `amount`: the amount itself for the
    /// first provider, else its proportion of the vault's holding.
    pub open spec fn shares_for(self, amount: int) -> int {
        if self.market.total_liquidity == 0 {
            amount
        } else {
            amount * self.market.total_liquidity / (self.market_vault_amount as int)
        }
    }

    /// The error a deposit of `amount` at `now` meets, if any, in the order
    /// the checks are made.
    pub open spec fn deposit_error(self, amount: u64, now: i64) -> Option<ZentroError> {
        let shares = self.shares_for(amount as int);
        if amount == 0 {
            Some(ZentroError::InvalidAmount)
        } else if self.market.status != MarketStatus::Active {
            Some(ZentroError::MarketNotActive)
        } else if now >= self.market.resolution_time {
            Some(ZentroError::PredictionDeadlinePassed)
        } else if self.market.total_liquidity > 0 && self.market_vault_amount == 0 {
            Some(ZentroError::MathOverflow)
        } else if shares > u64::MAX {
            Some(ZentroError::MathOverflow)
        } else if shares == 0 {
            Some(ZentroError::InsufficientLiquidity)
        } else if !self.is_new_position() && self.liquidity_position.shares + shares > u64::MAX {
            Some(ZentroError::MathOverflow)
        } else if self.market.total_liquidity + shares > u64::MAX {
            Some(ZentroError::MathOverflow)
        } else if self.market_vault_amount + amount > u64::MAX {
            Some(ZentroError::MathOverflow)
        } else {
            None
        }
    }

    /// The records after a deposit of `amount` minting `shares`.
    pub open spec fn after_deposit(self, amount: u64, shares: u64, bump: u8) -> AddLiquidity {
        AddLiquidity {
            market: Market {
                total_liquidity: (self.market.total_liquidity + shares) as u64,
                ..self.market
            },
            liquidity_position: if self.is_new_position() {
                LiquidityPosition { market: self.market_key, owner: self.user, shares, bump }
            } else {
                LiquidityPosition {
                    shares: (self.liquidity_position.shares + shares) as u64,
                    ..self.liquidity_position
                }
            },
            market_vault_amount: (self.market_vault_amount + amount) as u64,
            ..self
        }
    }

    /// Deposits `amount` into an open market's vault and credits the
    /// provider with liquidity shares in proportion to the vault's holding;
    /// a first provider gets one share per unit.
    pub fn add_liquidity(&mut self, amount: u64, now: i64, bump: u8) -> (r: Result<
        LiquidityAddedEvent,
        ZentroError,
    >)
        ensures
            old(self).deposit_error(amount, now) matches Some(e) ==> r == Err::<
                LiquidityAddedEvent,
                ZentroError,
            >(e) && *final(self) == *old(self),
            old(self).deposit_error(amount, now) is None ==> r is Ok,
            r matches Ok(ev) ==> ev.shares == old(self).shares_for(amount as int) && *final(self) == old(
                self,
            ).after_deposit(amount, ev.shares, bump) && ev == (LiquidityAddedEvent {
                market: old(self).market_key,
                user: old(self).user,
                amount,
                shares: ev.shares,
                total_liquidity: final(self).market.total_liquidity,
            }),
    {
        if amount == 0 {
            return Err(ZentroError::InvalidAmount);
        }
        if self.market.status != MarketStatus::Active {
            return Err(ZentroError::MarketNotActive);
        }
        if now >= self.market.resolution_time {
            return Err(ZentroError::PredictionDeadlinePassed);
        }
        let total_liquidity = self.market.total_liquidity;
        let shares_to_mint: u64 = if total_liquidity == 0 {
            amount
        } else {
            if self.market_vault_amount == 0 {
                return Err(ZentroError::MathOverflow);
            }
            let wide_amount = amount as u128;
            let wide_total = total_liquidity as u128;
            assert(wide_amount * wide_total <= u64::MAX * u64::MAX) by (nonlinear_arith)
                requires wide_amount <= u64::MAX, wide_total <= u64::MAX;
            let wide_shares = wide_amount * wide_total / self.market_vault_amount as u128;
            if wide_shares > u64::MAX as u128 {
                return Err(ZentroError::MathOverflow);
            }
            wide_shares as u64
        };
        if shares_to_mint == 0 {
            return Err(ZentroError::InsufficientLiquidity);
        }
        let zero = Pubkey::zeroed();
        let is_new = self.liquidity_position.market.same(&zero);
        if !is_new && self.liquidity_position.shares > u64::MAX - shares_to_mint {
            return Err(ZentroError::MathOverflow);
        }
        if total_liquidity > u64::MAX - shares_to_mint {
            return Err(ZentroError::MathOverflow);
        }
        if self.market_vault_amount > u64::MAX - amount {
            return Err(ZentroError::MathOverflow);
        }
        if is_new {
            self.liquidity_position = LiquidityPosition {
                market: self.market_key,
                owner: self.user,
                shares: shares_to_mint,
                bump,
            };
        } else {
            self.liquidity_position.shares = self.liquidity_position.shares + shares_to_mint;
        }
        self.market.total_liquidity = total_liquidity + shares_to_mint;
        self.market_vault_amount = self.market_vault_amount + amount;
        Ok(
            LiquidityAddedEvent {
                market: self.market_key,
                user: self.user,
                amount,
                shares: shares_to_mint,
                total_liquidity: self.market.total_liquidity,
            },
        )
    }
}

} // verus!
