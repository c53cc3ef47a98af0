use vstd::prelude::*;

use crate::error::ErrorCode;
use crate::events::CreatorPayoutDayClosed;
use crate::key::AccountKey;
use crate::math::{calculate_distribution, investor_portion};
use crate::policy::PolicyConfig;
use crate::progress::DistributionProgress;

verus! {

/// The creator's part of a claimed amount under `policy`, or the error of the split.
pub open spec fn creator_share(
    policy: PolicyConfig,
    claimed: int,
    total_locked: int,
) -> Result<int, ErrorCode> {
    if policy.investor_fee_share_bps > 10000 {
        Err(ErrorCode::InvalidInvestorFeeShare)
    } else {
        Ok(
            claimed - investor_portion(
                claimed,
                total_locked,
                policy.y0_total_allocation as int,
                policy.investor_fee_share_bps as int,
            ),
        )
    }
}

/// The outcome of closing a window: the creator's payout, or why the window cannot close.
pub open spec fn settlement_result(
    policy: PolicyConfig,
    progress: DistributionProgress,
    claimed: int,
    total_locked: int,
    investor_count: int,
    treasury_balance: int,
) -> Result<int, ErrorCode> {
    if progress.pagination_cursor < investor_count {
        Err(ErrorCode::DayNotComplete)
    } else {
        match creator_share(policy, claimed, total_locked) {
            Err(e) => Err(e),
            Ok(creator) => if creator > 0 && treasury_balance < creator {
                Err(ErrorCode::InsufficientFunds)
            } else if progress.current_day_distributed + creator > u64::MAX || investor_count
                > u32::MAX {
                Err(ErrorCode::ArithmeticOverflow)
            } else {
                Ok(creator)
            },
        }
    }
}

/// `ev` records the close of the window that `before` describes.
pub open spec fn day_close_ok(
    ev: CreatorPayoutDayClosed,
    policy: PolicyConfig,
    before: DistributionProgress,
    claimed: int,
    total_locked: int,
    investor_count: int,
    treasury_balance: int,
    now: i64,
) -> bool {
    &&& settlement_result(policy, before, claimed, total_locked, investor_count, treasury_balance)
        == Ok::<int, ErrorCode>(ev.creator_payout as int)
    &&& ev.vault == policy.vault
    &&& ev.creator_wallet == policy.creator_wallet
    &&& ev.total_day_distributed == before.current_day_distributed + ev.creator_payout
    &&& ev.total_investors_processed == investor_count
    &&& ev.final_dust_amount == before.carry_over_dust
    &&& ev.timestamp == now
}

/// Figures of a closed window.
#[derive(Debug, Clone, Copy)]
pub struct DayCompletionStats {
    pub claimed_quote_amount: u64,
    pub total_investor_amount: u64,
    pub creator_amount: u64,
    pub investor_distributed: u64,
    pub total_distributed: u64,
    pub carry_over_dust: u64,
}

/// Creator remainder settlement.
pub struct CreatorDistribution;

impl CreatorDistribution {
    /// Closes the window once every investor has been processed: the creator is owed what the
    /// split leaves after investors, which the treasury must hold. The ledger is marked
    /// complete, and nothing else changes; on failure nothing changes at all.
    pub fn process_creator_payout(
        policy_config: &PolicyConfig,
        distribution_progress: &mut DistributionProgress,
        claimed_quote_amount: u64,
        total_locked_amount: u64,
        investor_count: usize,
        treasury_balance: u64,
        current_timestamp: i64,
    ) -> (r: Result<CreatorPayoutDayClosed, ErrorCode>)
        ensures
            match r {
                Ok(ev) => {
                    &&& day_close_ok(
                        ev,
                        *policy_config,
                        *old(distribution_progress),
                        claimed_quote_amount as int,
                        total_locked_amount as int,
                        investor_count as int,
                        treasury_balance as int,
                        current_timestamp,
                    )
                    &&& *final(distribution_progress) == (DistributionProgress {
                        day_complete: true,
                        ..*old(distribution_progress)
                    })
                },
                Err(e) => {
                    &&& settlement_result(
                        *policy_config,
                        *old(distribution_progress),
                        claimed_quote_amount as int,
                        total_locked_amount as int,
                        investor_count as int,
                        treasury_balance as int,
                    ) == Err::<int, ErrorCode>(e)
                    &&& *final(distribution_progress) == *old(distribution_progress)
                },
            },
    {
        if (distribution_progress.pagination_cursor as usize) < investor_count {
            return Err(ErrorCode::DayNotComplete);
        }
        let creator_amount = match Self::calculate_creator_remainder(
            policy_config,
            claimed_quote_amount,
            total_locked_amount,
        ) {
            Ok(c) => c,
            Err(e) => {
                return Err(e);
            },
        };
        if creator_amount > 0 && treasury_balance < creator_amount {
            return Err(ErrorCode::InsufficientFunds);
        }
        let total_day_distributed = match distribution_progress.current_day_distributed.checked_add(
            creator_amount,
        ) {
            Some(v) => v,
            None => {
                return Err(ErrorCode::ArithmeticOverflow);
            },
        };
        if investor_count > u32::MAX as usize {
            return Err(ErrorCode::ArithmeticOverflow);
        }
        let final_dust_amount = distribution_progress.carry_over_dust;
        distribution_progress.complete_day();
        Ok(
            CreatorPayoutDayClosed {
                vault: policy_config.vault,
                creator_payout: creator_amount,
                creator_wallet: policy_config.creator_wallet,
                total_day_distributed,
                total_investors_processed: investor_count as u32,
                final_dust_amount,
                timestamp: current_timestamp,
            },
        )
    }

    /// The creator's part of a claimed amount: what the split leaves after investors.
    pub fn calculate_creator_remainder(
        policy_config: &PolicyConfig,
        claimed_quote_amount: u64,
        total_locked_amount: u64,
    ) -> (r: Result<u64, ErrorCode>)
        ensures
            match r {
                Ok(c) => creator_share(
                    *policy_config,
                    claimed_quote_amount as int,
                    total_locked_amount as int,
                ) == Ok::<int, ErrorCode>(c as int),
                Err(e) => creator_share(
                    *policy_config,
                    claimed_quote_amount as int,
                    total_locked_amount as int,
                ) == Err::<int, ErrorCode>(e),
            },
    {
        match calculate_distribution(
            claimed_quote_amount,
            total_locked_amount,
            policy_config.y0_total_allocation,
            policy_config.investor_fee_share_bps,
        ) {
            Ok((_investor, creator)) => Ok(creator),
            Err(e) => Err(e),
        }
    }

    /// Checks that a token account belongs to the creator and holds the quote asset.
    pub fn validate_creator_ata(
        ata_owner: &AccountKey,
        ata_mint: &AccountKey,
        expected_owner: &AccountKey,
        expected_mint: &AccountKey,
    ) -> (r: Result<(), ErrorCode>)
        ensures
            r == (if ata_owner@ == expected_owner@ && ata_mint@ == expected_mint@ {
                Ok(())
            } else {
                Err(ErrorCode::InvalidCreatorAta)
            }),
    {
        if !ata_owner.same_as(expected_owner) {
            return Err(ErrorCode::InvalidCreatorAta);
        }
        if !ata_mint.same_as(expected_mint) {
            return Err(ErrorCode::InvalidCreatorAta);
        }
        Ok(())
    }

    /// Checks what a creator payout needs of its inputs: a valid policy.
    pub fn validate_creator_payout_params(
        policy_config: &PolicyConfig,
        distribution_progress: &DistributionProgress,
        claimed_quote_amount: u64,
    ) -> (r: Result<(), ErrorCode>)
        ensures
            r == policy_config.check(),
    {
        policy_config.validate()
    }

    /// The figures of a window closing with `claimed_quote_amount` claimed.
    pub fn calculate_day_completion_stats(
        policy_config: &PolicyConfig,
        distribution_progress: &DistributionProgress,
        claimed_quote_amount: u64,
        total_locked_amount: u64,
    ) -> (r: Result<DayCompletionStats, ErrorCode>)
        ensures
            match r {
                Ok(stats) => {
                    &&& policy_config.investor_fee_share_bps <= 10000
                    &&& stats.claimed_quote_amount == claimed_quote_amount
                    &&& stats.total_investor_amount == investor_portion(
                        claimed_quote_amount as int,
                        total_locked_amount as int,
                        policy_config.y0_total_allocation as int,
                        policy_config.investor_fee_share_bps as int,
                    )
                    &&& stats.creator_amount == claimed_quote_amount - stats.total_investor_amount
                    &&& stats.investor_distributed == distribution_progress.current_day_distributed
                    &&& stats.total_distributed == distribution_progress.current_day_distributed
                        + stats.creator_amount
                    &&& stats.carry_over_dust == distribution_progress.carry_over_dust
                },
                Err(e) => {
                    ||| policy_config.investor_fee_share_bps > 10000 && e
                        == ErrorCode::InvalidInvestorFeeShare
                    ||| policy_config.investor_fee_share_bps <= 10000 && e
                        == ErrorCode::ArithmeticOverflow
                        && distribution_progress.current_day_distributed + claimed_quote_amount
                        - investor_portion(
                        claimed_quote_amount as int,
                        total_locked_amount as int,
                        policy_config.y0_total_allocation as int,
                        policy_config.investor_fee_share_bps as int,
                    ) > u64::MAX
                },
            },
    {
        let (total_investor_amount, creator_amount) = match calculate_distribution(
            claimed_quote_amount,
            total_locked_amount,
            policy_config.y0_total_allocation,
            policy_config.investor_fee_share_bps,
        ) {
            Ok(split) => split,
            Err(e) => {
                return Err(e);
            },
        };
        let total_distributed = match distribution_progress.current_day_distributed.checked_add(
            creator_amount,
        ) {
            Some(v) => v,
            None => {
                return Err(ErrorCode::ArithmeticOverflow);
            },
        };
        Ok(
            DayCompletionStats {
                claimed_quote_amount,
                total_investor_amount,
                creator_amount,
                investor_distributed: distribution_progress.current_day_distributed,
                total_distributed,
                carry_over_dust: distribution_progress.carry_over_dust,
            },
        )
    }
}

} // verus!
