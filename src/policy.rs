use vstd::prelude::*;

use crate::constants::MAX_BASIS_POINTS;
use crate::error::ErrorCode;
use crate::key::AccountKey;

verus! {

/// The distribution policy of one vault, fixed when the vault is set up.
#[derive(Debug, Clone, Copy)]
pub struct PolicyConfig {
    /// The vault this policy belongs to.
    pub vault: AccountKey,
    /// The asset in which fees are collected and paid.
    pub quote_mint: AccountKey,
    /// Who receives what investors are not owed.
    pub creator_wallet: AccountKey,
    /// Largest investor share of the fees, in basis points.
    pub investor_fee_share_bps: u16,
    /// Most that investors may be paid in one window, if anything limits it.
    pub daily_cap_lamports: Option<u64>,
    /// Smallest payout that is transferred; smaller shares become dust.
    pub min_payout_lamports: u64,
    /// Total investor allocation at launch.
    pub y0_total_allocation: u64,
    pub bump: u8,
}

impl PolicyConfig {
    /// Size of the persisted record: three keys, the share, an optional cap, the minimum
    /// payout, the launch allocation and the bump.
    pub const INIT_SPACE: usize = 32 + 32 + 32 + 2 + 9 + 8 + 8 + 1;

    /// The policy invariants: a share of at most 100%, a positive minimum payout, a positive
    /// launch allocation and, when set, a positive cap.
    pub open spec fn valid(&self) -> bool {
        &&& self.investor_fee_share_bps <= 10000
        &&& self.min_payout_lamports > 0
        &&& self.y0_total_allocation > 0
        &&& (self.daily_cap_lamports matches Some(cap) ==> cap > 0)
    }

    /// The first invariant that the policy breaks, if any.
    pub open spec fn check(&self) -> Result<(), ErrorCode> {
        if self.investor_fee_share_bps > 10000 {
            Err(ErrorCode::InvalidFeeShareBasisPoints)
        } else if self.min_payout_lamports == 0 {
            Err(ErrorCode::InvalidMinPayoutThreshold)
        } else if self.y0_total_allocation == 0 {
            Err(ErrorCode::InvalidTotalAllocation)
        } else if self.daily_cap_lamports matches Some(cap) && cap == 0 {
            Err(ErrorCode::InvalidDailyCap)
        } else {
            Ok(())
        }
    }

    /// Checks the policy invariants.
    pub fn validate(&self) -> (r: Result<(), ErrorCode>)
        ensures
            r == self.check(),
            r is Ok <==> self.valid(),
    {
        if self.investor_fee_share_bps > MAX_BASIS_POINTS {
            return Err(ErrorCode::InvalidFeeShareBasisPoints);
        }
        if self.min_payout_lamports == 0 {
            return Err(ErrorCode::InvalidMinPayoutThreshold);
        }
        if self.y0_total_allocation == 0 {
            return Err(ErrorCode::InvalidTotalAllocation);
        }
        if let Some(daily_cap) = self.daily_cap_lamports {
            if daily_cap == 0 {
                return Err(ErrorCode::InvalidDailyCap);
            }
        }
        Ok(())
    }

    /// Writes every field and then checks the invariants.
    pub fn initialize(
        &mut self,
        vault: AccountKey,
        quote_mint: AccountKey,
        creator_wallet: AccountKey,
        investor_fee_share_bps: u16,
        daily_cap_lamports: Option<u64>,
        min_payout_lamports: u64,
        y0_total_allocation: u64,
        bump: u8,
    ) -> (r: Result<(), ErrorCode>)
        ensures
            *final(self) == (PolicyConfig {
                vault,
                quote_mint,
                creator_wallet,
                investor_fee_share_bps,
                daily_cap_lamports,
                min_payout_lamports,
                y0_total_allocation,
                bump,
            }),
            r == final(self).check(),
            r is Ok <==> final(self).valid(),
    {
        self.vault = vault;
        self.quote_mint = quote_mint;
        self.creator_wallet = creator_wallet;
        self.investor_fee_share_bps = investor_fee_share_bps;
        self.daily_cap_lamports = daily_cap_lamports;
        self.min_payout_lamports = min_payout_lamports;
        self.y0_total_allocation = y0_total_allocation;
        self.bump = bump;
        self.validate()
    }
}

} // verus!
