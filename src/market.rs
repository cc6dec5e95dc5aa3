use vstd::prelude::*;
use crate::error::ZentroError;
use crate::key::Pubkey;

verus! {

/// Longest market identifier, in bytes.
pub const MAX_MARKET_ID_LEN: usize = 50;

/// Longest market title, in bytes.
pub const MAX_TITLE_LEN: usize = 200;

/// Longest market description, in bytes.
pub const MAX_DESCRIPTION_LEN: usize = 1000;

/// Where a market stands in its life: open for betting, or settled one way
/// or the other for good.
#[derive(Debug, Clone, Copy, PartialEq, Eq, Structural)]
pub enum MarketStatus {
    Active,
    Resolved,
    Cancelled,
}

/// A binary-outcome market. Outcome 0 is "yes", outcome 1 is "no".
#[derive(Debug, Clone)]
pub struct Market {
    pub authority: Pubkey,
    pub market_id: String,
    pub title: String,
    pub description: String,
    pub category: String,
    pub created_at: i64,
    pub end_time: i64,
    /// Bets and liquidity are taken only before this time.
    pub resolution_time: i64,
    pub status: MarketStatus,
    pub winning_outcome: Option<u8>,
    pub resolved_at: i64,
    pub total_bets: u64,
    pub total_volume: u64,
    pub yes_volume: u64,
    pub no_volume: u64,
    pub yes_bets: u64,
    pub no_bets: u64,
    /// Implied odds in percent; the two sum to 100.
    pub yes_odds: u8,
    pub no_odds: u8,
    pub min_bet_amount: u64,
    pub max_bet_amount: u64,
    pub total_yes_shares: u64,
    pub total_no_shares: u64,
    pub total_pool: u64,
    pub total_claimed: u64,
    pub total_liquidity: u64,
    pub bump: u8,
}

/// The custody account that holds a market's stakes.
#[derive(Debug, Clone, Copy)]
pub struct Vault {
    pub balance: u64,
    pub bump: u8,
}

/// Length of a text in bytes of UTF-8, as `str::len` reports it.
pub open spec fn byte_len(s: Seq<char>) -> nat {
    (vstd::utf8::encode_utf8(s).len() as usize) as nat
}

impl Market {
    /// The per-side volumes add up to the total and the odds to 100%.
    pub open spec fn wf(self) -> bool {
        &&& self.yes_volume + self.no_volume == self.total_volume
        &&& self.yes_odds + self.no_odds == 100
        &&& self.total_claimed <= self.total_pool
        &&& self.status == MarketStatus::Resolved <==> self.winning_outcome is Some
    }

    /// A market as it stands right after creation.
    pub open spec fn opened(
        authority: Pubkey,
        market_id: String,
        title: String,
        description: String,
        end_time: i64,
        category: String,
        min_bet_amount: u64,
        max_bet_amount: u64,
        now: i64,
        bump: u8,
    ) -> Market {
        Market {
            authority,
            market_id,
            title,
            description,
            category,
            created_at: now,
            end_time,
            resolution_time: end_time,
            status: MarketStatus::Active,
            winning_outcome: None,
            resolved_at: 0,
            total_bets: 0,
            total_volume: 0,
            yes_volume: 0,
            no_volume: 0,
            yes_bets: 0,
            no_bets: 0,
            yes_odds: 50,
            no_odds: 50,
            min_bet_amount,
            max_bet_amount,
            total_yes_shares: 0,
            total_no_shares: 0,
            total_pool: 0,
            total_claimed: 0,
            total_liquidity: 0,
            bump,
        }
    }
}

/// Who creates a market, and where it is stored.
#[derive(Debug, Clone, Copy)]
pub struct CreateMarket {
    pub market: Pubkey,
    pub authority: Pubkey,
    pub bump: u8,
}

/// Record of a market's creation.
#[derive(Debug, Clone)]
pub struct MarketCreated {
    pub market: Pubkey,
    pub authority: Pubkey,
    pub market_id: String,
    pub title: String,
    pub end_time: i64,
    pub created_at: i64,
}

/// Opens a market that ends at `end_time`, which must lie after `now`;
/// the identifier, title and description are bounded in length.
pub fn create_market(
    ctx: &CreateMarket,
    market_id: String,
    title: String,
    description: String,
    end_time: i64,
    category: String,
    min_bet_amount: u64,
    max_bet_amount: u64,
    now: i64,
) -> (r: Result<(Market, MarketCreated), ZentroError>)
    ensures
        r is Ok <==> end_time > now && byte_len(title@) <= MAX_TITLE_LEN && byte_len(description@)
            <= MAX_DESCRIPTION_LEN && byte_len(market_id@) <= MAX_MARKET_ID_LEN,
        end_time <= now ==> r == Err::<(Market, MarketCreated), ZentroError>(
            ZentroError::InvalidEndTime,
        ),
        end_time > now && byte_len(title@) > MAX_TITLE_LEN ==> r == Err::<
            (Market, MarketCreated),
            ZentroError,
        >(ZentroError::TitleTooLong),
        end_time > now && byte_len(title@) <= MAX_TITLE_LEN && byte_len(description@)
            > MAX_DESCRIPTION_LEN ==> r == Err::<(Market, MarketCreated), ZentroError>(
            ZentroError::DescriptionTooLong,
        ),
        end_time > now && byte_len(title@) <= MAX_TITLE_LEN && byte_len(description@)
            <= MAX_DESCRIPTION_LEN && byte_len(market_id@) > MAX_MARKET_ID_LEN ==> r == Err::<
            (Market, MarketCreated),
            ZentroError,
        >(ZentroError::MarketIdTooLong),
        r matches Ok((m, ev)) ==> m == Market::opened(
            ctx.authority,
            market_id,
            title,
            description,
            end_time,
            category,
            min_bet_amount,
            max_bet_amount,
            now,
            ctx.bump,
        ) && m.wf() && ev == (MarketCreated {
            market: ctx.market,
            authority: ctx.authority,
            market_id,
            title,
            end_time,
            created_at: now,
        }),
{
    if end_time <= now {
        return Err(ZentroError::InvalidEndTime);
    }
    if title.as_str().len() > MAX_TITLE_LEN {
        return Err(ZentroError::TitleTooLong);
    }
    if description.as_str().len() > MAX_DESCRIPTION_LEN {
        return Err(ZentroError::DescriptionTooLong);
    }
    if market_id.as_str().len() > MAX_MARKET_ID_LEN {
        return Err(ZentroError::MarketIdTooLong);
    }
    let event = MarketCreated {
        market: ctx.market,
        authority: ctx.authority,
        market_id: market_id.clone(),
        title: title.clone(),
        end_time,
        created_at: now,
    };
    let market = Market {
        authority: ctx.authority,
        market_id,
        title,
        description,
        category,
        created_at: now,
        end_time,
        resolution_time: end_time,
        status: MarketStatus::Active,
        winning_outcome: None,
        resolved_at: 0,
        total_bets: 0,
        total_volume: 0,
        yes_volume: 0,
        no_volume: 0,
        yes_bets: 0,
        no_bets: 0,
        yes_odds: 50,
        no_odds: 50,
        min_bet_amount,
        max_bet_amount,
        total_yes_shares: 0,
        total_no_shares: 0,
        total_pool: 0,
        total_claimed: 0,
        total_liquidity: 0,
        bump: ctx.bump,
    };
    Ok((market, event))
}

} // verus!
