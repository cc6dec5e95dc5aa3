//! Settlement core of a binary-outcome prediction market: pricing, a
//! constant-product liquidity pool, per-user positions, the market life
//! cycle and the settlement of winnings.
pub mod add_liquidity;
mod arith;
pub mod claim_winnings;
pub mod error;
pub mod key;
pub mod liquidity_pool;
pub mod market;
pub mod place_bet;
pub mod pricing;
pub mod resolve_market;
pub mod user_position;
