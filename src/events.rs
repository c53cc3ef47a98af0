use vstd::prelude::*;

use crate::key::AccountKey;

verus! {

/// Record of a vault being set up.
#[derive(Debug, Clone, Copy)]
pub struct HonoraryPositionInitialized {
    pub vault: AccountKey,
    pub quote_mint: AccountKey,
    pub creator_wallet: AccountKey,
    pub investor_fee_share_bps: u16,
    pub daily_cap_lamports: Option<u64>,
    pub min_payout_lamports: u64,
    pub y0_total_allocation: u64,
    pub position_owner_pda: AccountKey,
    pub policy_config: AccountKey,
    pub distribution_progress: AccountKey,
    pub timestamp: i64,
}

/// Record of the fees claimed for a window; the base amount is always zero.
#[derive(Debug, Clone, Copy)]
pub struct QuoteFeesClaimed {
    pub vault: AccountKey,
    pub claimed_amount: u64,
    pub base_amount: u64,
    pub quote_mint: AccountKey,
    pub honorary_position: AccountKey,
    pub treasury_ata: AccountKey,
    pub timestamp: i64,
}

/// Record of one processed page of investors.
#[derive(Debug, Clone, Copy)]
pub struct InvestorPayoutPage {
    pub vault: AccountKey,
    pub page_start: u32,
    pub page_end: u32,
    pub total_distributed: u64,
    pub processed_count: u32,
    pub dust_carried_forward: u64,
    pub cumulative_day_distributed: u64,
    pub timestamp: i64,
}

/// Record of a window closed by the creator's payout.
#[derive(Debug, Clone, Copy)]
pub struct CreatorPayoutDayClosed {
    pub vault: AccountKey,
    pub creator_payout: u64,
    pub creator_wallet: AccountKey,
    pub total_day_distributed: u64,
    pub total_investors_processed: u32,
    pub final_dust_amount: u64,
    pub timestamp: i64,
}

} // verus!
