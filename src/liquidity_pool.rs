use vstd::prelude::*;
use crate::error::ZentroError;
use crate::key::Pubkey;
use crate::arith::{lemma_div_at_least, lemma_div_at_most, lemma_div_below};

verus! {

/// The two reserves of a market's outcome shares, the liquidity tokens
/// issued against them, and the fees taken from swaps.
#[derive(Debug, Clone, Copy)]
pub struct LiquidityPool {
    pub authority: Pubkey,
    pub market: Pubkey,
    pub token_mint: Pubkey,
    pub token_vault: Pubkey,
    pub yes_token_mint: Pubkey,
    pub no_token_mint: Pubkey,
    pub yes_token_vault: Pubkey,
    pub no_token_vault: Pubkey,
    pub total_liquidity: u64,
    pub yes_reserves: u64,
    pub no_reserves: u64,
    /// Swap fee in basis points (100 = 1%).
    pub fee_rate: u16,
    pub accumulated_fees: u64,
    pub is_active: bool,
    pub created_at: i64,
    pub bump: u8,
}

/// The largest swap fee a pool accepts, in basis points (10%).
pub const MAX_FEE_RATE: u16 = 1000;

/// Fee taken from a swap of `amount_in` at `fee_rate` basis points.
pub open spec fn fee_of(amount_in: int, fee_rate: int) -> int {
    amount_in * fee_rate / 10000
}

/// Constant-product output of a swap: the input net of the fee, times the
/// outgoing reserve, over the incoming reserve plus the net input.
pub open spec fn swap_out(amount_in: int, fee_rate: int, reserve_in: int, reserve_out: int) -> int {
    let net = amount_in - fee_of(amount_in, fee_rate);
    net * reserve_out / (reserve_in + net)
}

/// Reserve share handed out for `tokens` of `total` liquidity tokens.
pub open spec fn share_of(reserve: int, tokens: int, total: int) -> int {
    reserve * tokens / total
}

impl LiquidityPool {
    /// The fee rate is within bounds, and a pool has liquidity tokens
    /// outstanding exactly when it holds reserves.
    pub open spec fn wf(self) -> bool {
        &&& self.fee_rate <= MAX_FEE_RATE
        &&& self.total_liquidity == 0 <==> (self.yes_reserves == 0 && self.no_reserves == 0)
    }

    /// Reserves plus uncollected fees: the value the pool holds.
    pub open spec fn held_value(self) -> int {
        self.yes_reserves + self.no_reserves + self.accumulated_fees
    }

    /// Liquidity tokens minted for a deposit of `amount`: the amount itself
    /// on the first deposit, else the proportional share.
    pub open spec fn minted_for(self, amount: int) -> int {
        if self.total_liquidity == 0 || self.yes_reserves + self.no_reserves == 0 {
            amount
        } else {
            amount * self.total_liquidity / (self.yes_reserves + self.no_reserves)
        }
    }

    /// A deposit of `amount` is positive, and puts at least one unit into
    /// each reserve when the pool holds none.
    pub open spec fn deposit_allowed(self, amount: int) -> bool {
        &&& amount > 0
        &&& amount == 1 ==> self.yes_reserves + self.no_reserves > 0
    }

    /// A deposit of `amount` keeps every counter within `u64`.
    pub open spec fn deposit_fits(self, amount: int) -> bool {
        &&& self.minted_for(amount) <= u64::MAX
        &&& self.yes_reserves + amount / 2 <= u64::MAX
        &&& self.no_reserves + amount / 2 <= u64::MAX
        &&& self.total_liquidity + self.minted_for(amount) <= u64::MAX
    }

    /// The pool after a deposit of `amount`, split evenly over both reserves.
    pub open spec fn deposited(self, amount: int) -> LiquidityPool {
        LiquidityPool {
            yes_reserves: (self.yes_reserves + amount / 2) as u64,
            no_reserves: (self.no_reserves + amount / 2) as u64,
            total_liquidity: (self.total_liquidity + self.minted_for(amount)) as u64,
            ..self
        }
    }

    /// The pool after `tokens` liquidity tokens are redeemed.
    pub open spec fn withdrawn(self, tokens: int) -> LiquidityPool {
        LiquidityPool {
            yes_reserves: (self.yes_reserves - share_of(
                self.yes_reserves as int,
                tokens,
                self.total_liquidity as int,
            )) as u64,
            no_reserves: (self.no_reserves - share_of(
                self.no_reserves as int,
                tokens,
                self.total_liquidity as int,
            )) as u64,
            total_liquidity: (self.total_liquidity - tokens) as u64,
            ..self
        }
    }

    /// Incoming and outgoing reserve of a swap in the given direction.
    pub open spec fn reserves_for(self, is_yes_to_no: bool) -> (int, int) {
        if is_yes_to_no {
            (self.yes_reserves as int, self.no_reserves as int)
        } else {
            (self.no_reserves as int, self.yes_reserves as int)
        }
    }

    /// A swap of `amount_in` for `amount_out` keeps every counter in range.
    pub open spec fn swap_fits(self, amount_in: int, amount_out: int, is_yes_to_no: bool) -> bool {
        let fee = fee_of(amount_in, self.fee_rate as int);
        let (reserve_in, reserve_out) = self.reserves_for(is_yes_to_no);
        &&& fee <= amount_in
        &&& self.accumulated_fees + fee <= u64::MAX
        &&& reserve_in + (amount_in - fee) <= u64::MAX
        &&& amount_out <= reserve_out
    }

    /// The pool after a swap: the fee is set aside, the rest of the input
    /// joins the incoming reserve, and the output leaves the other one.
    pub open spec fn swapped(self, amount_in: int, amount_out: int, is_yes_to_no: bool) -> LiquidityPool {
        let fee = fee_of(amount_in, self.fee_rate as int);
        if is_yes_to_no {
            LiquidityPool {
                accumulated_fees: (self.accumulated_fees + fee) as u64,
                yes_reserves: (self.yes_reserves + (amount_in - fee)) as u64,
                no_reserves: (self.no_reserves - amount_out) as u64,
                ..self
            }
        } else {
            LiquidityPool {
                accumulated_fees: (self.accumulated_fees + fee) as u64,
                no_reserves: (self.no_reserves + (amount_in - fee)) as u64,
                yes_reserves: (self.yes_reserves - amount_out) as u64,
                ..self
            }
        }
    }

    /// Sets the pool up empty and active; refuses a fee over 10%.
    pub fn initialize(
        &mut self,
        authority: Pubkey,
        market: Pubkey,
        token_mint: Pubkey,
        token_vault: Pubkey,
        yes_token_mint: Pubkey,
        no_token_mint: Pubkey,
        yes_token_vault: Pubkey,
        no_token_vault: Pubkey,
        fee_rate: u16,
        bump: u8,
        now: i64,
    ) -> (r: Result<(), ZentroError>)
        ensures
            fee_rate > MAX_FEE_RATE ==> r == Err::<(), ZentroError>(ZentroError::InvalidFeeRate)
                && *final(self) == *old(self),
            fee_rate <= MAX_FEE_RATE ==> r is Ok && *final(self) == (LiquidityPool {
                authority,
                market,
                token_mint,
                token_vault,
                yes_token_mint,
                no_token_mint,
                yes_token_vault,
                no_token_vault,
                total_liquidity: 0,
                yes_reserves: 0,
                no_reserves: 0,
                fee_rate,
                accumulated_fees: 0,
                is_active: true,
                created_at: now,
                bump,
            }),
            fee_rate <= MAX_FEE_RATE ==> final(self).wf(),
    {
        if fee_rate > MAX_FEE_RATE {
            return Err(ZentroError::InvalidFeeRate);
        }
        *self = LiquidityPool {
            authority,
            market,
            token_mint,
            token_vault,
            yes_token_mint,
            no_token_mint,
            yes_token_vault,
            no_token_vault,
            total_liquidity: 0,
            yes_reserves: 0,
            no_reserves: 0,
            fee_rate,
            accumulated_fees: 0,
            is_active: true,
            created_at: now,
            bump,
        };
        Ok(())
    }

    /// Deposits `amount`, half into each reserve, and mints liquidity tokens
    /// for it; returns the number minted. Zero is refused, and so is a
    /// deposit of 1 into a pool that holds no reserves: its halves would be
    /// empty, leaving tokens outstanding against empty reserves. Any other
    /// positive amount that fits is taken.
    pub fn add_liquidity(&mut self, amount: u64) -> (r: Result<u64, ZentroError>)
        ensures
            r is Ok <==> old(self).is_active && old(self).deposit_allowed(amount as int)
                && old(self).deposit_fits(amount as int),
            r matches Ok(t) ==> t == old(self).minted_for(amount as int)
                && *final(self) == old(self).deposited(amount as int),
            !old(self).is_active ==> r == Err::<u64, ZentroError>(ZentroError::PoolInactive),
            old(self).is_active && !old(self).deposit_allowed(amount as int) ==> r == Err::<
                u64,
                ZentroError,
            >(ZentroError::InvalidAmount),
            old(self).is_active && old(self).deposit_allowed(amount as int) && !old(self).deposit_fits(
                amount as int,
            )
                ==> r == Err::<u64, ZentroError>(ZentroError::MathOverflow),
            r is Err ==> *final(self) == *old(self),
            old(self).wf() ==> final(self).wf(),
    {
        if !self.is_active {
            return Err(ZentroError::PoolInactive);
        }
        if amount == 0 || (amount == 1 && self.yes_reserves == 0 && self.no_reserves == 0) {
            return Err(ZentroError::InvalidAmount);
        }
        let total_reserves: u128 = self.yes_reserves as u128 + self.no_reserves as u128;
        let liquidity_tokens: u64 = if self.total_liquidity == 0 || total_reserves == 0 {
            amount
        } else {
            let wide_amount = amount as u128;
            let wide_total = self.total_liquidity as u128;
            assert(wide_amount * wide_total <= u64::MAX * u64::MAX) by (nonlinear_arith)
                requires wide_amount <= u64::MAX, wide_total <= u64::MAX;
            let minted = wide_amount * wide_total / total_reserves;
            if minted > u64::MAX as u128 {
                return Err(ZentroError::MathOverflow);
            }
            minted as u64
        };
        let half_amount = amount / 2;
        if self.yes_reserves > u64::MAX - half_amount || self.no_reserves > u64::MAX - half_amount
            || self.total_liquidity > u64::MAX - liquidity_tokens {
            return Err(ZentroError::MathOverflow);
        }
        self.yes_reserves = self.yes_reserves + half_amount;
        self.no_reserves = self.no_reserves + half_amount;
        self.total_liquidity = self.total_liquidity + liquidity_tokens;
        Ok(liquidity_tokens)
    }

    /// Redeems `liquidity_tokens` for the matching share of each reserve;
    /// returns the (yes, no) amounts handed out.
    pub fn remove_liquidity(&mut self, liquidity_tokens: u64) -> (r: Result<(u64, u64), ZentroError>)
        ensures
            r is Ok <==> old(self).is_active && liquidity_tokens > 0
                && liquidity_tokens <= old(self).total_liquidity,
            r matches Ok(out) ==> out.0 == share_of(
                old(self).yes_reserves as int,
                liquidity_tokens as int,
                old(self).total_liquidity as int,
            ) && out.1 == share_of(
                old(self).no_reserves as int,
                liquidity_tokens as int,
                old(self).total_liquidity as int,
            ) && *final(self) == old(self).withdrawn(liquidity_tokens as int),
            !old(self).is_active ==> r == Err::<(u64, u64), ZentroError>(ZentroError::PoolInactive),
            old(self).is_active && (liquidity_tokens == 0 || liquidity_tokens > old(self).total_liquidity)
                ==> r == Err::<(u64, u64), ZentroError>(ZentroError::InsufficientLiquidity),
            r is Err ==> *final(self) == *old(self),
            old(self).wf() ==> final(self).wf(),
    {
        if !self.is_active {
            return Err(ZentroError::PoolInactive);
        }
        if liquidity_tokens == 0 || liquidity_tokens > self.total_liquidity {
            return Err(ZentroError::InsufficientLiquidity);
        }
        let yes_amount = Self::proportional(self.yes_reserves, liquidity_tokens, self.total_liquidity);
        let no_amount = Self::proportional(self.no_reserves, liquidity_tokens, self.total_liquidity);
        self.yes_reserves = self.yes_reserves - yes_amount;
        self.no_reserves = self.no_reserves - no_amount;
        self.total_liquidity = self.total_liquidity - liquidity_tokens;
        proof {
            if self.total_liquidity > 0 {
                let y = old(self).yes_reserves as int;
                let n = old(self).no_reserves as int;
                let t = liquidity_tokens as int;
                let l = old(self).total_liquidity as int;
                if y > 0 {
                    assert(y * t < y * l) by (nonlinear_arith)
                        requires y > 0, t < l;
                    assert(0 <= y * t) by (nonlinear_arith)
                        requires y >= 0, t >= 0;
                    lemma_div_below(y * t, y, l);
                }
                if n > 0 {
                    assert(n * t < n * l) by (nonlinear_arith)
                        requires n > 0, t < l;
                    assert(0 <= n * t) by (nonlinear_arith)
                        requires n >= 0, t >= 0;
                    lemma_div_below(n * t, n, l);
                }
            }
            if self.total_liquidity == 0 {
                assert(liquidity_tokens == old(self).total_liquidity);
                vstd::arithmetic::div_mod::lemma_div_by_multiple(
                    old(self).yes_reserves as int,
                    liquidity_tokens as int,
                );
                vstd::arithmetic::div_mod::lemma_div_by_multiple(
                    old(self).no_reserves as int,
                    liquidity_tokens as int,
                );
            }
        }
        Ok((yes_amount, no_amount))
    }

    /// Quotes the output of swapping `amount_in` of one side for the other:
    /// the fee comes off first, then the constant-product formula applies.
    pub fn get_swap_amount_out(&self, amount_in: u64, is_yes_to_no: bool) -> (r: Result<u64, ZentroError>)
        ensures
            r is Ok <==> self.is_active && amount_in > 0 && self.reserves_for(is_yes_to_no).0 > 0
                && self.reserves_for(is_yes_to_no).1 > 0 && fee_of(amount_in as int, self.fee_rate as int)
                <= amount_in,
            r matches Ok(out) ==> out == swap_out(
                amount_in as int,
                self.fee_rate as int,
                self.reserves_for(is_yes_to_no).0,
                self.reserves_for(is_yes_to_no).1,
            ) && out < self.reserves_for(is_yes_to_no).1,
            !self.is_active ==> r == Err::<u64, ZentroError>(ZentroError::PoolInactive),
            self.is_active && amount_in == 0 ==> r == Err::<u64, ZentroError>(ZentroError::InvalidAmount),
            self.is_active && amount_in > 0 && (self.reserves_for(is_yes_to_no).0 == 0
                || self.reserves_for(is_yes_to_no).1 == 0)
                ==> r == Err::<u64, ZentroError>(ZentroError::InsufficientLiquidity),
            self.wf() && self.is_active && amount_in > 0 && self.reserves_for(is_yes_to_no).0 > 0
                && self.reserves_for(is_yes_to_no).1 > 0 ==> r is Ok,
    {
        if !self.is_active {
            return Err(ZentroError::PoolInactive);
        }
        if amount_in == 0 {
            return Err(ZentroError::InvalidAmount);
        }
        let (reserve_in, reserve_out) = if is_yes_to_no {
            (self.yes_reserves, self.no_reserves)
        } else {
            (self.no_reserves, self.yes_reserves)
        };
        if reserve_in == 0 || reserve_out == 0 {
            return Err(ZentroError::InsufficientLiquidity);
        }
        let wide_fee = Self::fee_for(amount_in, self.fee_rate);
        proof {
            if self.wf() {
                assert(amount_in * self.fee_rate <= amount_in * 10000) by (nonlinear_arith)
                    requires self.fee_rate <= 1000, amount_in >= 0;
                lemma_div_at_most(amount_in * self.fee_rate, amount_in as int, 10000);
            }
        }
        if wide_fee > amount_in as u128 {
            return Err(ZentroError::MathOverflow);
        }
        let fee_amount = wide_fee as u64;
        let net = amount_in - fee_amount;
        let wide_net = net as u128;
        let wide_out = reserve_out as u128;
        assert(wide_net * wide_out <= u64::MAX * u64::MAX) by (nonlinear_arith)
            requires wide_net <= u64::MAX, wide_out <= u64::MAX;
        let numerator = wide_net * wide_out;
        let denominator = reserve_in as u128 + wide_net;
        let amount_out = numerator / denominator;
        proof {
            assert(numerator < wide_out * denominator) by (nonlinear_arith)
                requires
                    numerator == wide_net * wide_out,
                    denominator == reserve_in + wide_net,
                    reserve_in >= 1,
                    wide_out >= 1,
                    wide_net >= 0,
            ;
            lemma_div_below(numerator as int, wide_out as int, denominator as int);
        }
        if amount_out >= reserve_out as u128 {
            return Err(ZentroError::InsufficientLiquidity);
        }
        Ok(amount_out as u64)
    }

    /// The fee on `amount_in` at `fee_rate` basis points, kept wide: at a
    /// rate over 100% it exceeds the input.
    fn fee_for(amount_in: u64, fee_rate: u16) -> (r: u128)
        ensures
            r == fee_of(amount_in as int, fee_rate as int),
    {
        let wide_amount = amount_in as u128;
        let wide_rate = fee_rate as u128;
        assert(wide_amount * wide_rate <= u64::MAX * u16::MAX) by (nonlinear_arith)
            requires wide_amount <= u64::MAX, wide_rate <= u16::MAX, wide_amount >= 0;
        (wide_amount * wide_rate) / 10000
    }

    /// Applies a quoted swap: the fee is set aside, the net input is
    /// credited to the incoming reserve and `amount_out` debited from the
    /// other. The quote is not re-derived here.
    pub fn execute_swap(&mut self, amount_in: u64, amount_out: u64, is_yes_to_no: bool) -> (r: Result<
        (),
        ZentroError,
    >)
        ensures
            r is Ok <==> old(self).is_active && amount_in > 0 && amount_out > 0 && old(self).swap_fits(
                amount_in as int,
                amount_out as int,
                is_yes_to_no,
            ),
            r is Ok ==> *final(self) == old(self).swapped(amount_in as int, amount_out as int, is_yes_to_no),
            !old(self).is_active ==> r == Err::<(), ZentroError>(ZentroError::PoolInactive),
            old(self).is_active && (amount_in == 0 || amount_out == 0) ==> r == Err::<(), ZentroError>(
                ZentroError::InvalidAmount,
            ),
            old(self).is_active && amount_in > 0 && amount_out > 0 && !old(self).swap_fits(
                amount_in as int,
                amount_out as int,
                is_yes_to_no,
            ) ==> r == Err::<(), ZentroError>(ZentroError::MathOverflow),
            r is Err ==> *final(self) == *old(self),
            old(self).wf() ==> final(self).wf(),
    {
        if !self.is_active {
            return Err(ZentroError::PoolInactive);
        }
        if amount_in == 0 || amount_out == 0 {
            return Err(ZentroError::InvalidAmount);
        }
        let wide_fee = Self::fee_for(amount_in, self.fee_rate);
        if wide_fee > amount_in as u128 {
            return Err(ZentroError::MathOverflow);
        }
        let fee_amount = wide_fee as u64;
        proof {
            if self.wf() {
                assert(amount_in * self.fee_rate < amount_in * 10000) by (nonlinear_arith)
                    requires self.fee_rate <= 1000, amount_in >= 1;
                assert(0 <= amount_in * self.fee_rate) by (nonlinear_arith)
                    requires self.fee_rate >= 0, amount_in >= 0;
                lemma_div_below(amount_in * self.fee_rate, amount_in as int, 10000);
            }
        }
        if self.accumulated_fees > u64::MAX - fee_amount {
            return Err(ZentroError::MathOverflow);
        }
        let net = amount_in - fee_amount;
        if is_yes_to_no {
            if self.yes_reserves > u64::MAX - net || amount_out > self.no_reserves {
                return Err(ZentroError::MathOverflow);
            }
            self.yes_reserves = self.yes_reserves + net;
            self.no_reserves = self.no_reserves - amount_out;
        } else {
            if self.no_reserves > u64::MAX - net || amount_out > self.yes_reserves {
                return Err(ZentroError::MathOverflow);
            }
            self.no_reserves = self.no_reserves + net;
            self.yes_reserves = self.yes_reserves - amount_out;
        }
        self.accumulated_fees = self.accumulated_fees + fee_amount;
        Ok(())
    }

    /// Price of the "yes" side as `no / (yes + no)`, scaled by one million.
    pub fn get_current_price(&self) -> (r: Result<u64, ZentroError>)
        ensures
            r is Ok <==> self.yes_reserves > 0 && self.no_reserves > 0,
            r matches Ok(p) ==> p == self.no_reserves * 1000000 / (self.yes_reserves + self.no_reserves),
            r is Err ==> r == Err::<u64, ZentroError>(ZentroError::InsufficientLiquidity),
    {
        if self.yes_reserves == 0 || self.no_reserves == 0 {
            return Err(ZentroError::InsufficientLiquidity);
        }
        let numerator = self.no_reserves as u128 * 1000000;
        let denominator = self.yes_reserves as u128 + self.no_reserves as u128;
        let price = numerator / denominator;
        proof {
            lemma_div_at_most(numerator as int, 1000000, denominator as int);
        }
        Ok(price as u64)
    }

    /// Shuts the pool for good: later deposits, withdrawals and swaps fail.
    pub fn deactivate(&mut self) -> (r: Result<(), ZentroError>)
        ensures
            r is Ok,
            *final(self) == (LiquidityPool { is_active: false, ..*old(self) }),
            old(self).wf() ==> final(self).wf(),
    {
        self.is_active = false;
        Ok(())
    }

    /// Hands out the accumulated fees and zeroes the counter.
    pub fn collect_fees(&mut self) -> (r: Result<u64, ZentroError>)
        ensures
            r == Ok::<u64, ZentroError>(old(self).accumulated_fees),
            *final(self) == (LiquidityPool { accumulated_fees: 0, ..*old(self) }),
            old(self).wf() ==> final(self).wf(),
    {
        let fees = self.accumulated_fees;
        self.accumulated_fees = 0;
        Ok(fees)
    }

    /// `reserve * tokens / total` through a wide intermediate; never more
    /// than the reserve when `tokens <= total`.
    fn proportional(reserve: u64, tokens: u64, total: u64) -> (r: u64)
        requires
            0 < tokens <= total,
        ensures
            r == share_of(reserve as int, tokens as int, total as int),
            r <= reserve,
    {
        let wide_reserve = reserve as u128;
        let wide_tokens = tokens as u128;
        assert(wide_reserve * wide_tokens <= wide_reserve * total) by (nonlinear_arith)
            requires wide_tokens <= total, wide_reserve >= 0;
        assert(wide_reserve * total <= u64::MAX * u64::MAX) by (nonlinear_arith)
            requires wide_reserve <= u64::MAX, total <= u64::MAX;
        let share = wide_reserve * wide_tokens / (total as u128);
        proof {
            vstd::arithmetic::div_mod::lemma_div_is_ordered(
                wide_reserve * wide_tokens,
                wide_reserve * total,
                total as int,
            );
            vstd::arithmetic::div_mod::lemma_div_by_multiple(wide_reserve as int, total as int);
        }
        share as u64
    }
}

/// A swap changes the value a pool holds (both reserves plus uncollected
/// fees) by exactly the amount that came in less the amount that went out:
/// nothing is created or destroyed.
pub proof fn lemma_swap_conserves_value(
    pool: LiquidityPool,
    amount_in: u64,
    amount_out: u64,
    is_yes_to_no: bool,
)
    requires
        pool.swap_fits(amount_in as int, amount_out as int, is_yes_to_no),
    ensures
        pool.swapped(amount_in as int, amount_out as int, is_yes_to_no).held_value()
            == pool.held_value() + amount_in - amount_out,
{
}

/// The net input of a swap (input less fee) never shrinks as the input
/// grows, at any fee rate up to 100%.
proof fn lemma_net_input_monotone(fee_rate: int, a1: int, a2: int)
    requires
        0 <= fee_rate <= 10000,
        0 <= a1 <= a2,
    ensures
        a1 - fee_of(a1, fee_rate) <= a2 - fee_of(a2, fee_rate),
{
    vstd::arithmetic::div_mod::lemma_fundamental_div_mod(a1 * fee_rate, 10000);
    vstd::arithmetic::div_mod::lemma_fundamental_div_mod(a2 * fee_rate, 10000);
    let f1 = fee_of(a1, fee_rate);
    let f2 = fee_of(a2, fee_rate);
    let m1 = (a1 * fee_rate) % 10000;
    let m2 = (a2 * fee_rate) % 10000;
    assert((a2 - a1) * fee_rate <= (a2 - a1) * 10000) by (nonlinear_arith)
        requires fee_rate <= 10000, a2 - a1 >= 0;
    assert((f2 - f1) * 10000 < (a2 - a1 + 1) * 10000) by (nonlinear_arith)
        requires
            a1 * fee_rate == 10000 * f1 + m1,
            a2 * fee_rate == 10000 * f2 + m2,
            0 <= m1 < 10000,
            0 <= m2 < 10000,
            (a2 - a1) * fee_rate <= (a2 - a1) * 10000,
    ;
}

/// `x * r / (d + x)` never shrinks as `x` grows.
proof fn lemma_constant_product_monotone(x1: int, x2: int, reserve_in: int, reserve_out: int)
    requires
        0 <= x1 <= x2,
        reserve_in > 0,
        reserve_out >= 0,
    ensures
        x1 * reserve_out / (reserve_in + x1) <= x2 * reserve_out / (reserve_in + x2),
{
    let q1 = x1 * reserve_out / (reserve_in + x1);
    vstd::arithmetic::div_mod::lemma_fundamental_div_mod(x1 * reserve_out, reserve_in + x1);
    vstd::arithmetic::div_mod::lemma_mod_pos_bound(x1 * reserve_out, reserve_in + x1);
    assert(x1 * reserve_out <= reserve_out * (reserve_in + x1)) by (nonlinear_arith)
        requires x1 >= 0, reserve_in > 0, reserve_out >= 0;
    assert(0 <= x1 * reserve_out) by (nonlinear_arith)
        requires x1 >= 0, reserve_out >= 0;
    lemma_div_at_most(x1 * reserve_out, reserve_out, reserve_in + x1);
    assert(q1 * (reserve_in + x2) <= x2 * reserve_out) by (nonlinear_arith)
        requires
            q1 * (reserve_in + x1) <= x1 * reserve_out,
            q1 <= reserve_out,
            x1 <= x2,
    {
        assert(q1 * (reserve_in + x2) == q1 * (reserve_in + x1) + q1 * (x2 - x1)) by (nonlinear_arith);
        assert(q1 * (x2 - x1) <= reserve_out * (x2 - x1)) by (nonlinear_arith)
            requires q1 <= reserve_out, x2 - x1 >= 0;
    };
    lemma_div_at_least(x2 * reserve_out, q1, reserve_in + x2);
}

/// A quote never falls as the amount put in grows (other inputs fixed).
/// With integer flooring two different inputs can give the same output, so
/// the growth is not strict.
pub proof fn lemma_quote_grows_with_amount(
    fee_rate: u16,
    reserve_in: u64,
    reserve_out: u64,
    amount_in_1: u64,
    amount_in_2: u64,
)
    requires
        fee_rate <= MAX_FEE_RATE,
        reserve_in > 0,
        reserve_out > 0,
        0 < amount_in_1 <= amount_in_2,
    ensures
        swap_out(amount_in_1 as int, fee_rate as int, reserve_in as int, reserve_out as int)
            <= swap_out(amount_in_2 as int, fee_rate as int, reserve_in as int, reserve_out as int),
{
    lemma_net_input_monotone(fee_rate as int, amount_in_1 as int, amount_in_2 as int);
    let n1 = amount_in_1 - fee_of(amount_in_1 as int, fee_rate as int);
    let n2 = amount_in_2 - fee_of(amount_in_2 as int, fee_rate as int);
    assert(amount_in_1 * fee_rate <= amount_in_1 * 10000) by (nonlinear_arith)
        requires fee_rate <= 1000, amount_in_1 >= 0;
    assert(0 <= amount_in_1 * fee_rate) by (nonlinear_arith)
        requires fee_rate >= 0, amount_in_1 >= 0;
    lemma_div_at_most(amount_in_1 * fee_rate, amount_in_1 as int, 10000);
    lemma_constant_product_monotone(n1, n2, reserve_in as int, reserve_out as int);
}

/// A quote never rises as the incoming reserve grows (other inputs fixed);
/// with integer flooring it need not fall strictly.
pub proof fn lemma_quote_shrinks_with_reserve_in(
    fee_rate: u16,
    amount_in: u64,
    reserve_out: u64,
    reserve_in_1: u64,
    reserve_in_2: u64,
)
    requires
        fee_rate <= MAX_FEE_RATE,
        amount_in > 0,
        reserve_out > 0,
        0 < reserve_in_1 <= reserve_in_2,
    ensures
        swap_out(amount_in as int, fee_rate as int, reserve_in_2 as int, reserve_out as int)
            <= swap_out(amount_in as int, fee_rate as int, reserve_in_1 as int, reserve_out as int),
{
    let net = amount_in - fee_of(amount_in as int, fee_rate as int);
    assert(amount_in * fee_rate <= amount_in * 10000) by (nonlinear_arith)
        requires fee_rate <= 1000, amount_in >= 0;
    assert(0 <= amount_in * fee_rate) by (nonlinear_arith)
        requires fee_rate >= 0, amount_in >= 0;
    lemma_div_at_most(amount_in * fee_rate, amount_in as int, 10000);
    assert(0 <= net * reserve_out) by (nonlinear_arith)
        requires net >= 0, reserve_out >= 0;
    vstd::arithmetic::div_mod::lemma_div_is_ordered_by_denominator(
        net * reserve_out,
        reserve_in_1 + net,
        reserve_in_2 + net,
    );
}

/// Depositing `amount` and then redeeming the tokens minted for it brings
/// the token supply back to where it was and hands back no more than was
/// deposited; on a pool without liquidity the round trip returns exactly
/// half the deposit from each reserve and leaves the reserves empty again.
pub proof fn lemma_liquidity_round_trip(pool: LiquidityPool, amount: u64)
    requires
        pool.wf(),
        pool.is_active,
        pool.deposit_allowed(amount as int),
        pool.deposit_fits(amount as int),
        pool.minted_for(amount as int) > 0,
    ensures
        ({
            let after = pool.deposited(amount as int);
            let tokens = pool.minted_for(amount as int);
            let yes_back = share_of(after.yes_reserves as int, tokens, after.total_liquidity as int);
            let no_back = share_of(after.no_reserves as int, tokens, after.total_liquidity as int);
            &&& tokens <= after.total_liquidity
            &&& after.withdrawn(tokens).total_liquidity == pool.total_liquidity
            &&& yes_back + no_back <= amount
            &&& pool.total_liquidity == 0 ==> yes_back == amount / 2 && no_back == amount / 2
                && after.withdrawn(tokens).yes_reserves == 0 && after.withdrawn(tokens).no_reserves == 0
        }),
{
    let after = pool.deposited(amount as int);
    let tokens = pool.minted_for(amount as int);
    let half = amount / 2;
    let total = after.total_liquidity as int;
    let y = after.yes_reserves as int;
    let n = after.no_reserves as int;
    assert(total == pool.total_liquidity + tokens);
    if pool.total_liquidity == 0 {
        vstd::arithmetic::div_mod::lemma_div_by_multiple(half as int, amount as int);
    } else {
        let sum = pool.yes_reserves + pool.no_reserves;
        assert(0 <= y * tokens && 0 <= n * tokens) by (nonlinear_arith)
            requires y >= 0, n >= 0, tokens >= 0;
        vstd::arithmetic::div_mod::lemma_fundamental_div_mod(y * tokens, total);
        vstd::arithmetic::div_mod::lemma_fundamental_div_mod(n * tokens, total);
        vstd::arithmetic::div_mod::lemma_mod_pos_bound(y * tokens, total);
        vstd::arithmetic::div_mod::lemma_mod_pos_bound(n * tokens, total);
        let qy = y * tokens / total;
        let qn = n * tokens / total;
        if sum == 0 {
            assert(y == half && n == half);
            assert((y + n) * tokens <= amount * total) by (nonlinear_arith)
                requires y + n <= amount, tokens <= total, tokens >= 0, y + n >= 0;
        } else {
            vstd::arithmetic::div_mod::lemma_fundamental_div_mod(amount * pool.total_liquidity, sum);
            vstd::arithmetic::div_mod::lemma_mod_pos_bound(amount * pool.total_liquidity, sum);
            assert(tokens * sum <= amount * pool.total_liquidity) by (nonlinear_arith)
                requires
                    tokens == amount * pool.total_liquidity / sum,
                    amount * pool.total_liquidity == sum * tokens + (amount * pool.total_liquidity) % sum,
                    (amount * pool.total_liquidity) % sum >= 0,
            ;
            assert((y + n) * tokens <= amount * total) by (nonlinear_arith)
                requires
                    y + n == sum + 2 * half,
                    2 * half <= amount,
                    tokens * sum <= amount * pool.total_liquidity,
                    total == pool.total_liquidity + tokens,
                    tokens >= 0,
            ;
        }
        assert(qy + qn <= amount) by (nonlinear_arith)
            requires
                y * tokens == total * qy + (y * tokens) % total,
                n * tokens == total * qn + (n * tokens) % total,
                (y * tokens) % total >= 0,
                (n * tokens) % total >= 0,
                (y + n) * tokens <= amount * total,
                total > 0,
        ;
    }
}

} // verus!
