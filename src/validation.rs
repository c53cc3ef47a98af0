use vstd::prelude::*;

use crate::constants::{MAX_BASIS_POINTS, MAX_PAGE_SIZE, TWENTY_FOUR_HOURS};
use crate::error::ErrorCode;
use crate::key::AccountKey;

verus! {

/// Which side of the pool holds the quote asset.
#[derive(Debug, Clone, Copy, PartialEq, Eq, Structural)]
pub enum TokenOrder {
    QuoteIsTokenA,
    QuoteIsTokenB,
}

/// What the checks need of a pool.
#[derive(Debug, Clone, Copy)]
pub struct PoolValidationData {
    pub token_mint_a: AccountKey,
    pub token_mint_b: AccountKey,
    pub current_price: u128,
    pub tick_current: i32,
    pub tick_spacing: u16,
}

/// What the checks need of a position.
#[derive(Debug, Clone, Copy)]
pub struct PositionValidationData {
    pub tick_lower: i32,
    pub tick_upper: i32,
    pub liquidity: u128,
}

pub open spec fn token_order_of(pool: PoolValidationData, quote_mint: AccountKey) -> Result<
    TokenOrder,
    ErrorCode,
> {
    if pool.token_mint_a@ == quote_mint@ {
        Ok(TokenOrder::QuoteIsTokenA)
    } else if pool.token_mint_b@ == quote_mint@ {
        Ok(TokenOrder::QuoteIsTokenB)
    } else {
        Err(ErrorCode::InvalidQuoteMint)
    }
}

/// The tick-range rule: an ordered range on the spacing grid, lying wholly on the quote side
/// of the current tick.
pub open spec fn tick_range_check(
    pool: PoolValidationData,
    position: PositionValidationData,
    order: TokenOrder,
) -> Result<(), ErrorCode> {
    let spacing = pool.tick_spacing as int;
    if position.tick_lower >= position.tick_upper {
        Err(ErrorCode::InvalidTickRange)
    } else if (position.tick_lower as int) % spacing != 0 {
        Err(ErrorCode::InvalidTickRange)
    } else if (position.tick_upper as int) % spacing != 0 {
        Err(ErrorCode::InvalidTickRange)
    } else {
        match order {
            TokenOrder::QuoteIsTokenA => if position.tick_lower > pool.tick_current {
                Ok(())
            } else {
                Err(ErrorCode::InvalidTickRange)
            },
            TokenOrder::QuoteIsTokenB => if position.tick_upper < pool.tick_current {
                Ok(())
            } else {
                Err(ErrorCode::InvalidTickRange)
            },
        }
    }
}

/// The preflight rule: some liquidity, a range that does not span the current tick, and a
/// buffer of two tick spacings on the quote side.
pub open spec fn preflight_check(
    pool: PoolValidationData,
    position: PositionValidationData,
    order: TokenOrder,
) -> Result<(), ErrorCode> {
    let buffer = 2 * pool.tick_spacing;
    if position.liquidity == 0 {
        Err(ErrorCode::InvalidPoolConfiguration)
    } else if position.tick_lower <= pool.tick_current && pool.tick_current < position.tick_upper {
        Err(ErrorCode::BaseFeeDetected)
    } else {
        match order {
            TokenOrder::QuoteIsTokenA => if position.tick_lower > pool.tick_current + buffer {
                Ok(())
            } else {
                Err(ErrorCode::InvalidTickRange)
            },
            TokenOrder::QuoteIsTokenB => if position.tick_upper < pool.tick_current - buffer {
                Ok(())
            } else {
                Err(ErrorCode::InvalidTickRange)
            },
        }
    }
}

/// Whether `x` is a multiple of `spacing`.
fn on_grid(x: i32, spacing: u16) -> (r: bool)
    requires
        spacing > 0,
    ensures
        r == ((x as int) % (spacing as int) == 0),
{
    let v = x as i64;
    let s = spacing as i64;
    if v >= 0 {
        v % s == 0
    } else {
        let m = (-v) % s;
        proof {
            let si = s as int;
            let q = (-v as int) / si;
            vstd::arithmetic::div_mod::lemma_fundamental_div_mod(-v as int, si);
            let q2 = (v as int) / si;
            vstd::arithmetic::div_mod::lemma_fundamental_div_mod(v as int, si);
            if m == 0 {
                assert(v as int == (-q) * si) by (nonlinear_arith)
                    requires
                        -v as int == si * q,
                ;
                vstd::arithmetic::div_mod::lemma_mod_multiples_basic(-q, si);
            }
            if (v as int) % si == 0 {
                assert(-v as int == (-q2) * si) by (nonlinear_arith)
                    requires
                        v as int == si * q2,
                ;
                vstd::arithmetic::div_mod::lemma_mod_multiples_basic(-q2, si);
            }
        }
        m == 0
    }
}

/// Finds the quote asset among the pool's two tokens.
pub fn validate_pool_token_order(pool_data: &PoolValidationData, quote_mint: &AccountKey) -> (r:
    Result<TokenOrder, ErrorCode>)
    ensures
        r == token_order_of(*pool_data, *quote_mint),
{
    if pool_data.token_mint_a.same_as(quote_mint) {
        Ok(TokenOrder::QuoteIsTokenA)
    } else if pool_data.token_mint_b.same_as(quote_mint) {
        Ok(TokenOrder::QuoteIsTokenB)
    } else {
        Err(ErrorCode::InvalidQuoteMint)
    }
}

/// Checks that a position can only earn fees in the quote asset.
pub fn validate_tick_range_for_quote_only(
    pool_data: &PoolValidationData,
    position_data: &PositionValidationData,
    token_order: TokenOrder,
) -> (r: Result<(), ErrorCode>)
    requires
        pool_data.tick_spacing > 0,
    ensures
        r == tick_range_check(*pool_data, *position_data, token_order),
{
    let current_tick = pool_data.tick_current;
    let tick_lower = position_data.tick_lower;
    let tick_upper = position_data.tick_upper;
    if tick_lower >= tick_upper {
        return Err(ErrorCode::InvalidTickRange);
    }
    if !on_grid(tick_lower, pool_data.tick_spacing) {
        return Err(ErrorCode::InvalidTickRange);
    }
    if !on_grid(tick_upper, pool_data.tick_spacing) {
        return Err(ErrorCode::InvalidTickRange);
    }
    match token_order {
        TokenOrder::QuoteIsTokenA => {
            if tick_lower <= current_tick {
                return Err(ErrorCode::InvalidTickRange);
            }
        },
        TokenOrder::QuoteIsTokenB => {
            if tick_upper >= current_tick {
                return Err(ErrorCode::InvalidTickRange);
            }
        },
    }
    Ok(())
}

/// Rejects a position that could earn base fees, keeping a buffer of two tick spacings.
pub fn preflight_validate_quote_only(
    pool_data: &PoolValidationData,
    position_data: &PositionValidationData,
    token_order: TokenOrder,
) -> (r: Result<(), ErrorCode>)
    ensures
        r == preflight_check(*pool_data, *position_data, token_order),
{
    let current_tick = pool_data.tick_current as i64;
    let tick_lower = position_data.tick_lower as i64;
    let tick_upper = position_data.tick_upper as i64;
    if position_data.liquidity == 0 {
        return Err(ErrorCode::InvalidPoolConfiguration);
    }
    if tick_lower <= current_tick && current_tick < tick_upper {
        return Err(ErrorCode::BaseFeeDetected);
    }
    let safety_buffer_ticks = (pool_data.tick_spacing as i64) * 2;
    match token_order {
        TokenOrder::QuoteIsTokenA => {
            if tick_lower <= current_tick + safety_buffer_ticks {
                return Err(ErrorCode::InvalidTickRange);
            }
        },
        TokenOrder::QuoteIsTokenB => {
            if tick_upper >= current_tick - safety_buffer_ticks {
                return Err(ErrorCode::InvalidTickRange);
            }
        },
    }
    Ok(())
}

/// The whole quote-only check of a pool and position: token order, tick range, preflight.
pub fn validate_quote_only_config(
    pool_data: &PoolValidationData,
    position_data: &PositionValidationData,
    quote_mint: &AccountKey,
) -> (r: Result<TokenOrder, ErrorCode>)
    requires
        pool_data.tick_spacing > 0,
    ensures
        r == (match token_order_of(*pool_data, *quote_mint) {
            Err(e) => Err(e),
            Ok(order) => match tick_range_check(*pool_data, *position_data, order) {
                Err(e) => Err(e),
                Ok(_) => match preflight_check(*pool_data, *position_data, order) {
                    Err(e) => Err(e),
                    Ok(_) => Ok(order),
                },
            },
        }),
{
    let token_order = match validate_pool_token_order(pool_data, quote_mint) {
        Ok(o) => o,
        Err(e) => {
            return Err(e);
        },
    };
    match validate_tick_range_for_quote_only(pool_data, position_data, token_order) {
        Ok(_) => {},
        Err(e) => {
            return Err(e);
        },
    }
    match preflight_validate_quote_only(pool_data, position_data, token_order) {
        Ok(_) => {},
        Err(e) => {
            return Err(e);
        },
    }
    Ok(token_order)
}

/// The quote-only guard on a claim: any base fees refuse it, whatever the quote amount.
pub fn validate_claimed_fees_quote_only(claimed_quote_amount: u64, claimed_base_amount: u64) -> (r:
    Result<(), ErrorCode>)
    ensures
        r == (if claimed_base_amount > 0 {
            Err(ErrorCode::BaseFeeDetected)
        } else {
            Ok(())
        }),
{
    if claimed_base_amount > 0 {
        return Err(ErrorCode::BaseFeeDetected);
    }
    Ok(())
}

/// Checks a page request: a page size between one and `MAX_PAGE_SIZE`, and a cursor within
/// the investor set.
pub fn validate_pagination_params(cursor: u32, page_size: u32, max_investors: u32) -> (r: Result<
    (),
    ErrorCode,
>)
    ensures
        r == (if page_size == 0 || page_size > MAX_PAGE_SIZE || cursor > max_investors {
            Err(ErrorCode::InvalidPaginationCursor)
        } else {
            Ok(())
        }),
{
    if page_size == 0 || page_size > MAX_PAGE_SIZE {
        return Err(ErrorCode::InvalidPaginationCursor);
    }
    if cursor > max_investors {
        return Err(ErrorCode::InvalidPaginationCursor);
    }
    Ok(())
}

/// Checks that 24 hours have passed since `last_distribution_ts`.
pub fn validate_cooldown(last_distribution_ts: i64, current_ts: i64) -> (r: Result<(), ErrorCode>)
    ensures
        r == (if current_ts - last_distribution_ts >= 86400 {
            Ok(())
        } else {
            Err(ErrorCode::CooldownNotElapsed)
        }),
{
    let elapsed = (current_ts as i128) - (last_distribution_ts as i128);
    if elapsed < TWENTY_FOUR_HOURS as i128 {
        return Err(ErrorCode::CooldownNotElapsed);
    }
    Ok(())
}

/// Checks an investor share in basis points.
pub fn validate_investor_fee_share(fee_share_bps: u16) -> (r: Result<(), ErrorCode>)
    ensures
        r == (if fee_share_bps > 10000 {
            Err(ErrorCode::InvalidInvestorFeeShare)
        } else {
            Ok(())
        }),
{
    if fee_share_bps > MAX_BASIS_POINTS {
        return Err(ErrorCode::InvalidInvestorFeeShare);
    }
    Ok(())
}

} // verus!
