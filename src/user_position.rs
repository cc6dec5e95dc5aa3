use vstd::prelude::*;
use crate::key::Pubkey;

verus! {

/// Ways a change to a position can be refused.
#[derive(Debug, Clone, Copy, PartialEq, Eq, Structural)]
pub enum ErrorCode {
    /// More shares were to be removed than the position holds.
    InsufficientShares,
    /// A count or amount would leave the range of its type.
    ArithmeticOverflow,
    /// The position has been settled and can no longer change.
    PositionClaimed,
}

/// One user's holding of one outcome of one market.
#[derive(Debug, Clone, Copy)]
pub struct UserPosition {
    pub user: Pubkey,
    pub market: Pubkey,
    pub outcome: u8,
    pub shares: u64,
    /// Weighted-average acquisition price (floored).
    pub average_price: u64,
    pub total_invested: u64,
    pub created_at: i64,
    pub last_updated: i64,
    pub is_active: bool,
    pub claimed: bool,
    pub winnings_claimed: u64,
    pub bump: u8,
}

impl UserPosition {
    /// The invested capital covers the shares at their average price; the
    /// floor in the average leaves at most the rounding on top.
    pub open spec fn wf(self) -> bool {
        self.shares * self.average_price <= self.total_invested
    }

    /// Profit or loss of the position if marked at `current_price`.
    pub open spec fn pnl_at(self, current_price: int) -> int {
        self.shares * current_price - self.total_invested
    }

    /// Opens a position of `shares` bought at `price` at time `now`.
    pub fn new(
        user: Pubkey,
        market: Pubkey,
        outcome: u8,
        shares: u64,
        price: u64,
        bump: u8,
        now: i64,
    ) -> (r: Result<Self, ErrorCode>)
        ensures
            r is Ok <==> shares * price <= u64::MAX,
            r is Err ==> r == Err::<Self, ErrorCode>(ErrorCode::ArithmeticOverflow),
            r matches Ok(p) ==> p == (UserPosition {
                user,
                market,
                outcome,
                shares,
                average_price: price,
                total_invested: (shares * price) as u64,
                created_at: now,
                last_updated: now,
                is_active: true,
                claimed: false,
                winnings_claimed: 0,
                bump,
            }) && p.wf(),
    {
        match shares.checked_mul(price) {
            None => Err(ErrorCode::ArithmeticOverflow),
            Some(total_invested) => Ok(
                UserPosition {
                    user,
                    market,
                    outcome,
                    shares,
                    average_price: price,
                    total_invested,
                    created_at: now,
                    last_updated: now,
                    is_active: true,
                    claimed: false,
                    winnings_claimed: 0,
                    bump,
                },
            ),
        }
    }

    /// Adds `additional_shares` bought at `price`; the average price becomes
    /// the floor of total invested over total shares.
    pub fn add_shares(&mut self, additional_shares: u64, price: u64, now: i64) -> (r: Result<
        (),
        ErrorCode,
    >)
        requires
            additional_shares > 0,
        ensures
            old(self).claimed ==> r == Err::<(), ErrorCode>(ErrorCode::PositionClaimed),
            !old(self).claimed ==> (r is Ok <==> old(self).total_invested + additional_shares * price
                <= u64::MAX && old(self).shares + additional_shares <= u64::MAX),
            !old(self).claimed && r is Err ==> r == Err::<(), ErrorCode>(ErrorCode::ArithmeticOverflow),
            r is Ok ==> *final(self) == (UserPosition {
                shares: (old(self).shares + additional_shares) as u64,
                total_invested: (old(self).total_invested + additional_shares * price) as u64,
                average_price: ((old(self).total_invested + additional_shares * price) / (
                old(self).shares + additional_shares)) as u64,
                last_updated: now,
                ..*old(self)
            }),
            r is Ok ==> final(self).wf(),
            r is Err ==> *final(self) == *old(self),
    {
        if self.claimed {
            return Err(ErrorCode::PositionClaimed);
        }
        let additional_investment = match additional_shares.checked_mul(price) {
            Some(v) => v,
            None => {
                return Err(ErrorCode::ArithmeticOverflow);
            },
        };
        let new_total_invested = match self.total_invested.checked_add(additional_investment) {
            Some(v) => v,
            None => {
                return Err(ErrorCode::ArithmeticOverflow);
            },
        };
        let new_total_shares = match self.shares.checked_add(additional_shares) {
            Some(v) => v,
            None => {
                return Err(ErrorCode::ArithmeticOverflow);
            },
        };
        let average_price = new_total_invested / new_total_shares;
        proof {
            vstd::arithmetic::div_mod::lemma_fundamental_div_mod(
                new_total_invested as int,
                new_total_shares as int,
            );
            vstd::arithmetic::div_mod::lemma_mod_pos_bound(
                new_total_invested as int,
                new_total_shares as int,
            );
            assert(new_total_shares * average_price <= new_total_invested) by (nonlinear_arith)
                requires
                    new_total_invested == new_total_shares * average_price + new_total_invested
                        % new_total_shares,
                    new_total_invested % new_total_shares >= 0,
            ;
        }
        self.average_price = average_price;
        self.shares = new_total_shares;
        self.total_invested = new_total_invested;
        self.last_updated = now;
        Ok(())
    }

    /// Removes `shares_to_remove` shares at the average cost basis, which
    /// stays as it was; removing every share closes the position.
    pub fn remove_shares(&mut self, shares_to_remove: u64, now: i64) -> (r: Result<(), ErrorCode>)
        requires
            old(self).wf(),
        ensures
            old(self).claimed ==> r == Err::<(), ErrorCode>(ErrorCode::PositionClaimed),
            !old(self).claimed ==> (r is Ok <==> shares_to_remove <= old(self).shares),
            !old(self).claimed && shares_to_remove > old(self).shares ==> r == Err::<(), ErrorCode>(
                ErrorCode::InsufficientShares,
            ),
            r is Ok && shares_to_remove == old(self).shares ==> *final(self) == (UserPosition {
                shares: 0,
                total_invested: 0,
                is_active: false,
                last_updated: now,
                ..*old(self)
            }),
            r is Ok && shares_to_remove < old(self).shares ==> *final(self) == (UserPosition {
                shares: (old(self).shares - shares_to_remove) as u64,
                total_invested: (old(self).total_invested - shares_to_remove * old(self).average_price) as u64,
                last_updated: now,
                ..*old(self)
            }),
            final(self).wf(),
            r is Err ==> *final(self) == *old(self),
    {
        if self.claimed {
            return Err(ErrorCode::PositionClaimed);
        }
        if self.shares < shares_to_remove {
            return Err(ErrorCode::InsufficientShares);
        }
        let remaining_shares = self.shares - shares_to_remove;
        if remaining_shares == 0 {
            self.is_active = false;
            self.shares = 0;
            self.total_invested = 0;
        } else {
            proof {
                assert(shares_to_remove * self.average_price + remaining_shares * self.average_price
                    == self.shares * self.average_price) by (nonlinear_arith)
                    requires remaining_shares == self.shares - shares_to_remove;
                assert(0 <= remaining_shares * self.average_price) by (nonlinear_arith)
                    requires remaining_shares >= 0, self.average_price >= 0;
            }
            let investment_to_remove = shares_to_remove * self.average_price;
            self.shares = remaining_shares;
            self.total_invested = self.total_invested - investment_to_remove;
        }
        self.last_updated = now;
        Ok(())
    }

    /// Profit or loss if marked at `current_price`; fails when the value
    /// does not fit an `i64`.
    pub fn calculate_pnl(&self, current_price: u64) -> (r: Result<i64, ErrorCode>)
        ensures
            r is Ok <==> i64::MIN <= self.pnl_at(current_price as int) <= i64::MAX,
            r matches Ok(p) ==> p == self.pnl_at(current_price as int),
            r is Err ==> r == Err::<i64, ErrorCode>(ErrorCode::ArithmeticOverflow),
    {
        let wide_shares = self.shares as u128;
        let wide_price = current_price as u128;
        assert(wide_shares * wide_price <= u64::MAX * u64::MAX) by (nonlinear_arith)
            requires wide_shares <= u64::MAX, wide_price <= u64::MAX;
        let current_value = wide_shares * wide_price;
        let invested = self.total_invested as u128;
        if current_value >= invested {
            let gain = current_value - invested;
            if gain > i64::MAX as u128 {
                return Err(ErrorCode::ArithmeticOverflow);
            }
            Ok(gain as i64)
        } else {
            let loss = invested - current_value;
            if loss > 9223372036854775808u128 {
                return Err(ErrorCode::ArithmeticOverflow);
            }
            Ok((0i128 - loss as i128) as i64)
        }
    }
}

} // verus!
