use vstd::prelude::*;

use crate::error::ErrorCode;
use crate::key::AccountKey;

verus! {

/// What a position owes in fees, per token.
#[derive(Debug, Clone, Copy)]
pub struct PositionFeeData {
    pub fee_owed_a: u64,
    pub fee_owed_b: u64,
    pub token_mint_a: AccountKey,
    pub token_mint_b: AccountKey,
}

/// The fees of one claim, split by asset.
#[derive(Debug, Clone, Copy, PartialEq, Eq)]
pub struct FeeClaimResult {
    pub quote_amount: u64,
    pub base_amount: u64,
    pub quote_mint: AccountKey,
}

/// The `(quote, base)` fees of a position, or `None` when neither token is the quote asset.
pub open spec fn quote_and_base(fee_data: PositionFeeData, quote_mint: AccountKey) -> Option<
    (u64, u64),
> {
    if fee_data.token_mint_a@ == quote_mint@ {
        Some((fee_data.fee_owed_a, fee_data.fee_owed_b))
    } else if fee_data.token_mint_b@ == quote_mint@ {
        Some((fee_data.fee_owed_b, fee_data.fee_owed_a))
    } else {
        None
    }
}

/// Splits a position's fees into quote and base.
fn split_position_fees(fee_data: &PositionFeeData, quote_mint: &AccountKey) -> (r: Result<
    (u64, u64),
    ErrorCode,
>)
    ensures
        match quote_and_base(*fee_data, *quote_mint) {
            Some(qb) => r == Ok::<(u64, u64), ErrorCode>(qb),
            None => r == Err::<(u64, u64), ErrorCode>(ErrorCode::InvalidQuoteMint),
        },
{
    if fee_data.token_mint_a.same_as(quote_mint) {
        Ok((fee_data.fee_owed_a, fee_data.fee_owed_b))
    } else if fee_data.token_mint_b.same_as(quote_mint) {
        Ok((fee_data.fee_owed_b, fee_data.fee_owed_a))
    } else {
        Err(ErrorCode::InvalidQuoteMint)
    }
}

/// Checks that a position owes no fees in the base asset.
pub fn validate_quote_only_fees(fee_data: &PositionFeeData, quote_mint: &AccountKey) -> (r: Result<
    (),
    ErrorCode,
>)
    ensures
        r == (match quote_and_base(*fee_data, *quote_mint) {
            None => Err(ErrorCode::InvalidQuoteMint),
            Some((_, base)) => if base > 0 {
                Err(ErrorCode::BaseFeeDetected)
            } else {
                Ok(())
            },
        }),
{
    let (_quote_fees, base_fees) = match split_position_fees(fee_data, quote_mint) {
        Ok(qb) => qb,
        Err(e) => {
            return Err(e);
        },
    };
    if base_fees > 0 {
        return Err(ErrorCode::BaseFeeDetected);
    }
    Ok(())
}

/// The claim to make from a position: its quote fees, provided it owes no base fees.
pub fn compute_fee_claim(fee_data: &PositionFeeData, quote_mint: &AccountKey) -> (r: Result<
    FeeClaimResult,
    ErrorCode,
>)
    ensures
        match quote_and_base(*fee_data, *quote_mint) {
            None => r == Err::<FeeClaimResult, ErrorCode>(ErrorCode::InvalidQuoteMint),
            Some((quote, base)) => if base > 0 {
                r == Err::<FeeClaimResult, ErrorCode>(ErrorCode::BaseFeeDetected)
            } else {
                r matches Ok(c) && c.quote_amount == quote && c.base_amount == 0 && c.quote_mint
                    == *quote_mint
            },
        },
{
    let (quote_amount, base_amount) = match split_position_fees(fee_data, quote_mint) {
        Ok(qb) => qb,
        Err(e) => {
            return Err(e);
        },
    };
    if base_amount > 0 {
        return Err(ErrorCode::BaseFeeDetected);
    }
    Ok(FeeClaimResult { quote_amount, base_amount: 0, quote_mint: *quote_mint })
}

/// The instruction data of the pool's fee collection call: its eight-byte discriminator.
pub fn prepare_collect_fees_instruction_data() -> (r: Result<Vec<u8>, ErrorCode>)
    ensures
        r matches Ok(data) && data@ == seq![1u8, 2, 3, 4, 5, 6, 7, 8],
{
    let mut instruction_data: Vec<u8> = Vec::new();
    instruction_data.push(0x01);
    instruction_data.push(0x02);
    instruction_data.push(0x03);
    instruction_data.push(0x04);
    instruction_data.push(0x05);
    instruction_data.push(0x06);
    instruction_data.push(0x07);
    instruction_data.push(0x08);
    assert(instruction_data@ =~= seq![1u8, 2, 3, 4, 5, 6, 7, 8]);
    Ok(instruction_data)
}

/// Checks that the treasury token account holds the quote asset and belongs to the program's
/// authority.
pub fn ensure_treasury_ata(
    treasury_mint: &AccountKey,
    treasury_owner: &AccountKey,
    quote_mint: &AccountKey,
    program_authority: &AccountKey,
) -> (r: Result<(), ErrorCode>)
    ensures
        r == (if treasury_mint@ == quote_mint@ && treasury_owner@ == program_authority@ {
            Ok(())
        } else {
            Err(ErrorCode::InvalidTreasuryAta)
        }),
{
    if !treasury_mint.same_as(quote_mint) {
        return Err(ErrorCode::InvalidTreasuryAta);
    }
    if !treasury_owner.same_as(program_authority) {
        return Err(ErrorCode::InvalidTreasuryAta);
    }
    Ok(())
}

/// Checks that the treasury holds at least `expected_minimum_balance`.
pub fn validate_treasury_state(treasury_amount: u64, expected_minimum_balance: u64) -> (r: Result<
    (),
    ErrorCode,
>)
    ensures
        r == (if treasury_amount >= expected_minimum_balance {
            Ok(())
        } else {
            Err(ErrorCode::InsufficientFunds)
        }),
{
    if treasury_amount < expected_minimum_balance {
        return Err(ErrorCode::InsufficientFunds);
    }
    Ok(())
}

} // verus!
