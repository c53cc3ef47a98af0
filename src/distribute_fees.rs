use vstd::prelude::*;

use crate::constants::MAX_PAGE_SIZE;
use crate::creator_distribution::{day_close_ok, settlement_result, CreatorDistribution};
use crate::error::ErrorCode;
use crate::events::{CreatorPayoutDayClosed, InvestorPayoutPage};
use crate::investor_distribution::{
    has_eligible,
    locked_sum,
    page_entries,
    page_locked_total,
    page_plan_ok,
    page_request_ok,
    page_result,
    BatchPayoutResult,
    InvestorDistribution,
};
use crate::key::AccountKey;
use crate::math::{calculate_distribution, investor_portion};
use crate::policy::PolicyConfig;
use crate::progress::{DistributionProgress, DistributionTimingState};
use crate::streamflow::InvestorData;

verus! {

/// The parameters of one crank call.
#[derive(Debug, Clone, Copy)]
pub struct DistributeFeesParams {
    /// Number of investors to process.
    pub page_size: u32,
    /// The page the caller means to process, for safe retries.
    pub cursor_position: Option<u32>,
}

/// The keys of the token accounts and addresses a crank call works with.
#[derive(Debug, Clone, Copy)]
pub struct DistributionAccounts {
    pub treasury_owner: AccountKey,
    pub treasury_mint: AccountKey,
    pub creator_ata_owner: AccountKey,
    pub creator_ata_mint: AccountKey,
    pub vault: AccountKey,
    pub position_owner_pda: AccountKey,
}

/// What one crank call decided.
#[derive(Debug, Clone)]
pub struct DistributionStep {
    pub timing_state: DistributionTimingState,
    /// The requested page had already been processed; nothing was done.
    pub already_processed: bool,
    /// The payout plan of the page, when one was paid.
    pub page: Option<BatchPayoutResult>,
    /// The record of that page.
    pub page_event: Option<InvestorPayoutPage>,
    /// The record of the window's close, when the creator was paid.
    pub day_closed: Option<CreatorPayoutDayClosed>,
}

/// The daily cap is set and already reached.
///
/// The crank treats this as a call that has nothing to do, not as a failure: the ledger stays
/// as it is, the cursor does not move, and the same page is processed once a later window
/// opens. `DailyCapExceeded` is what the cap itself (`enforce_daily_cap`) and the page
/// processor report when asked to pay past it.
pub open spec fn cap_reached(policy: PolicyConfig, progress: DistributionProgress) -> bool {
    policy.daily_cap_lamports matches Some(cap) && cap <= progress.current_day_distributed
}

/// The ledger after the page at the cursor: skipped when nobody in it has anything locked,
/// processed otherwise.
pub open spec fn after_page(
    policy: PolicyConfig,
    p0: DistributionProgress,
    investors: Seq<InvestorData>,
    amount: int,
    total_locked: int,
    size: int,
) -> Result<DistributionProgress, ErrorCode> {
    let start = p0.pagination_cursor as int;
    if !has_eligible(page_entries(investors, start, size)) {
        if p0.pagination_cursor + size > u32::MAX {
            Err(ErrorCode::ArithmeticOverflow)
        } else {
            Ok(DistributionProgress { pagination_cursor: (p0.pagination_cursor + size) as u32, ..p0 })
        }
    } else {
        match page_result(policy, p0, investors, amount, total_locked, start, size) {
            Err(e) => Err(e),
            Ok((sent, carried, _, _, _, _)) => Ok(
                DistributionProgress {
                    current_day_distributed: (p0.current_day_distributed + sent) as u64,
                    carry_over_dust: carried as u64,
                    pagination_cursor: (p0.pagination_cursor + size) as u32,
                    ..p0
                },
            ),
        }
    }
}

/// The page at the cursor brings it past the last investor, so the window closes.
pub open spec fn closes_day(
    policy: PolicyConfig,
    p0: DistributionProgress,
    investors: Seq<InvestorData>,
    amount: int,
    total_locked: int,
    size: int,
) -> bool {
    &&& !cap_reached(policy, p0)
    &&& after_page(policy, p0, investors, amount, total_locked, size) matches Ok(p1)
    &&& p1.pagination_cursor >= investors.len()
}

/// What the investor stage hands back, given the ledger before (`p0`) and after (`p2`): the
/// plan and record of the page when one was paid, and the record of the window's close when
/// the page reached the last investor.
pub open spec fn investor_stage_ok(
    page: Option<BatchPayoutResult>,
    page_event: Option<InvestorPayoutPage>,
    day_closed: Option<CreatorPayoutDayClosed>,
    policy: PolicyConfig,
    p0: DistributionProgress,
    p2: DistributionProgress,
    investors: Seq<InvestorData>,
    size: int,
    claimed: int,
    treasury: int,
    now: i64,
) -> bool {
    let tl = locked_sum(investors);
    let amount = investor_portion(
        claimed,
        tl,
        policy.y0_total_allocation as int,
        policy.investor_fee_share_bps as int,
    );
    let start = p0.pagination_cursor as int;
    &&& (page is Some <==> !cap_reached(policy, p0) && has_eligible(
        page_entries(investors, start, size),
    ))
    &&& (page_event is Some <==> page is Some)
    &&& (page matches Some(plan) ==> page_plan_ok(
        plan,
        policy,
        p0,
        investors,
        amount,
        tl,
        start,
        size,
    ))
    &&& (page_event matches Some(ev) ==> page matches Some(plan) && ev.vault == policy.vault
        && ev.page_start == p0.pagination_cursor && ev.page_end == p2.pagination_cursor
        && ev.total_distributed == plan.total_paid && ev.processed_count == plan.processed_count
        && ev.dust_carried_forward == plan.total_dust && ev.cumulative_day_distributed
        == p2.current_day_distributed && ev.timestamp == now)
    &&& (day_closed is Some <==> closes_day(policy, p0, investors, amount, tl, size))
    &&& (day_closed matches Some(ev) ==> after_page(
        policy,
        p0,
        investors,
        amount,
        tl,
        size,
    ) matches Ok(p1) && day_close_ok(
        ev,
        policy,
        p1,
        claimed,
        tl,
        investors.len() as int,
        treasury,
        now,
    ))
}

/// The crank call reaches the investor stage: not a repeat, some investors, and something to
/// pay.
pub open spec fn investor_stage_runs(
    p1: DistributionProgress,
    params: DistributeFeesParams,
    claimed_quote: int,
    investors: Seq<InvestorData>,
) -> bool {
    &&& !(params.cursor_position matches Some(c) && c < p1.pagination_cursor)
    &&& investors.len() > 0
    &&& (claimed_quote > 0 || p1.carry_over_dust > 0)
}

/// The ledger after the investor stage of a crank call: the page at the cursor, then the
/// creator's settlement once the cursor covers every investor.
pub open spec fn distribution_outcome(
    policy: PolicyConfig,
    p0: DistributionProgress,
    investors: Seq<InvestorData>,
    size: int,
    claimed: int,
    treasury: int,
) -> Result<DistributionProgress, ErrorCode> {
    if !page_request_ok(investors.len() as int, p0.pagination_cursor as int, size) {
        Err(ErrorCode::InvalidPaginationCursor)
    } else if locked_sum(investors) > u64::MAX {
        Err(ErrorCode::ArithmeticOverflow)
    } else if cap_reached(policy, p0) {
        Ok(p0)
    } else {
        let tl = locked_sum(investors);
        let amount = investor_portion(
            claimed,
            tl,
            policy.y0_total_allocation as int,
            policy.investor_fee_share_bps as int,
        );
        match after_page(policy, p0, investors, amount, tl, size) {
            Err(e) => Err(e),
            Ok(p1) => if p1.pagination_cursor < investors.len() {
                Ok(p1)
            } else {
                match settlement_result(policy, p1, claimed, tl, investors.len() as int, treasury) {
                    Err(e) => Err(e),
                    Ok(_) => Ok(DistributionProgress { day_complete: true, ..p1 }),
                }
            },
        }
    }
}

/// The ledger once the timing decision at `now` is applied: a new window opened, or the
/// ledger as it was.
pub open spec fn prepared_ledger(progress: DistributionProgress, now: i64) -> DistributionProgress {
    if progress.timing(now) == Ok::<DistributionTimingState, ErrorCode>(
        DistributionTimingState::NewDay,
    ) {
        progress.opened_at(now)
    } else {
        progress
    }
}

/// The ledger after a whole crank call, or the error that refuses it.
pub open spec fn step_outcome(
    policy: PolicyConfig,
    progress: DistributionProgress,
    params: DistributeFeesParams,
    now: i64,
    claimed_quote: int,
    claimed_base: int,
    investors: Seq<InvestorData>,
    treasury: int,
) -> Result<DistributionProgress, ErrorCode> {
    if claimed_base > 0 {
        Err(ErrorCode::BaseFeeDetected)
    } else if params.page_size == 0 || params.page_size > 50 {
        Err(ErrorCode::InvalidPaginationCursor)
    } else {
        match progress.timing(now) {
            Err(e) => Err(e),
            Ok(_) => {
                let p1 = prepared_ledger(progress, now);
                if params.cursor_position matches Some(c) && c > p1.pagination_cursor {
                    Err(ErrorCode::InvalidPaginationCursor)
                } else if params.cursor_position matches Some(c) && c < p1.pagination_cursor {
                    Ok(p1)
                } else if investors.len() == 0 || (claimed_quote == 0 && p1.carry_over_dust
                    == 0) {
                    Ok(p1)
                } else {
                    distribution_outcome(
                        policy,
                        p1,
                        investors,
                        params.page_size as int,
                        claimed_quote,
                        treasury,
                    )
                }
            },
        }
    }
}

/// Checks that the accounts of a crank call belong together: the treasury is the position
/// owner's and holds the quote asset, the creator's token account is the creator's and holds
/// the quote asset, and the policy and the ledger belong to the vault.
pub fn validate_distribution_accounts(
    accounts: &DistributionAccounts,
    policy_config: &PolicyConfig,
    distribution_progress: &DistributionProgress,
) -> (r: Result<(), ErrorCode>)
    ensures
        r == (if accounts.treasury_owner@ != accounts.position_owner_pda@ {
            Err(ErrorCode::InvalidTreasuryAta)
        } else if accounts.treasury_mint@ != policy_config.quote_mint@ {
            Err(ErrorCode::InvalidQuoteMint)
        } else if accounts.creator_ata_owner@ != policy_config.creator_wallet@ {
            Err(ErrorCode::InvalidCreatorAta)
        } else if accounts.creator_ata_mint@ != policy_config.quote_mint@ {
            Err(ErrorCode::InvalidQuoteMint)
        } else if policy_config.vault@ != accounts.vault@ {
            Err(ErrorCode::InvalidVaultAccount)
        } else if distribution_progress.vault@ != policy_config.vault@ {
            Err(ErrorCode::InvalidVaultAccount)
        } else {
            Ok(())
        }),
{
    if !accounts.treasury_owner.same_as(&accounts.position_owner_pda) {
        return Err(ErrorCode::InvalidTreasuryAta);
    }
    if !accounts.treasury_mint.same_as(&policy_config.quote_mint) {
        return Err(ErrorCode::InvalidQuoteMint);
    }
    if !accounts.creator_ata_owner.same_as(&policy_config.creator_wallet) {
        return Err(ErrorCode::InvalidCreatorAta);
    }
    if !accounts.creator_ata_mint.same_as(&policy_config.quote_mint) {
        return Err(ErrorCode::InvalidQuoteMint);
    }
    if !policy_config.vault.same_as(&accounts.vault) {
        return Err(ErrorCode::InvalidVaultAccount);
    }
    if !distribution_progress.vault.same_as(&policy_config.vault) {
        return Err(ErrorCode::InvalidVaultAccount);
    }
    Ok(())
}

/// The investor stage of a crank call: the page at the cursor, then, once the cursor covers
/// every investor, the creator's payout and the close of the window.
///
/// The split of `claimed_quote_amount` uses the locked amounts of all investors. A page whose
/// investors have nothing locked is skipped. While the daily cap is reached the call succeeds
/// and changes nothing (see `cap_reached`), so that a crank called again and again in that
/// state stays harmless. On failure the ledger is left as it was.
pub fn process_investor_distributions(
    policy_config: &PolicyConfig,
    distribution_progress: &mut DistributionProgress,
    investors: &[InvestorData],
    page_size: u32,
    claimed_quote_amount: u64,
    treasury_balance: u64,
    current_timestamp: i64,
) -> (r: Result<
    (Option<BatchPayoutResult>, Option<InvestorPayoutPage>, Option<CreatorPayoutDayClosed>),
    ErrorCode,
>)
    requires
        policy_config.valid(),
    ensures
        match r {
            Ok((page, page_event, day_closed)) => {
                &&& distribution_outcome(
                    *policy_config,
                    *old(distribution_progress),
                    investors@,
                    page_size as int,
                    claimed_quote_amount as int,
                    treasury_balance as int,
                ) == Ok::<DistributionProgress, ErrorCode>(*final(distribution_progress))
                &&& investor_stage_ok(
                    page,
                    page_event,
                    day_closed,
                    *policy_config,
                    *old(distribution_progress),
                    *final(distribution_progress),
                    investors@,
                    page_size as int,
                    claimed_quote_amount as int,
                    treasury_balance as int,
                    current_timestamp,
                )
            },
            Err(e) => {
                &&& distribution_outcome(
                    *policy_config,
                    *old(distribution_progress),
                    investors@,
                    page_size as int,
                    claimed_quote_amount as int,
                    treasury_balance as int,
                ) == Err::<DistributionProgress, ErrorCode>(e)
                &&& *final(distribution_progress) == *old(distribution_progress)
            },
        },
{
    let mut next = *distribution_progress;
    let page_start = next.pagination_cursor;
    match InvestorDistribution::validate_distribution_params(
        policy_config,
        investors,
        page_start as usize,
        page_size as usize,
    ) {
        Ok(_) => {},
        Err(e) => {
            return Err(e);
        },
    }
    let total_locked_amount = match page_locked_total(investors, 0, investors.len()) {
        Ok(t) => t,
        Err(e) => {
            assert(investors@.subrange(0, investors@.len() as int) =~= investors@);
            return Err(e);
        },
    };
    assert(investors@.subrange(0, investors@.len() as int) =~= investors@);
    let (total_investor_amount, _creator_amount) = match calculate_distribution(
        claimed_quote_amount,
        total_locked_amount,
        policy_config.y0_total_allocation,
        policy_config.investor_fee_share_bps,
    ) {
        Ok(split) => split,
        Err(e) => {
            return Err(e);
        },
    };
    if let Some(daily_cap) = policy_config.daily_cap_lamports {
        if daily_cap <= next.current_day_distributed {
            return Ok((None, None, None));
        }
    }
    let has_eligible_investors = match InvestorDistribution::validate_investor_eligibility(
        investors,
        page_start as usize,
        page_size as usize,
    ) {
        Ok(b) => b,
        Err(e) => {
            return Err(e);
        },
    };
    let mut page: Option<BatchPayoutResult> = None;
    let mut page_event: Option<InvestorPayoutPage> = None;
    if !has_eligible_investors {
        match next.advance_cursor(page_size) {
            Ok(_) => {},
            Err(e) => {
                return Err(e);
            },
        }
    } else {
        let plan = match InvestorDistribution::process_investor_page(
            policy_config,
            &mut next,
            investors,
            total_investor_amount,
            total_locked_amount,
            page_start as usize,
            page_size as usize,
        ) {
            Ok(plan) => plan,
            Err(e) => {
                return Err(e);
            },
        };
        page_event = Some(
            InvestorPayoutPage {
                vault: policy_config.vault,
                page_start,
                page_end: next.pagination_cursor,
                total_distributed: plan.total_paid,
                processed_count: plan.processed_count as u32,
                dust_carried_forward: plan.total_dust,
                cumulative_day_distributed: next.current_day_distributed,
                timestamp: current_timestamp,
            },
        );
        page = Some(plan);
    }
    let mut day_closed: Option<CreatorPayoutDayClosed> = None;
    if next.pagination_cursor as usize >= investors.len() {
        let ev = match CreatorDistribution::process_creator_payout(
            policy_config,
            &mut next,
            claimed_quote_amount,
            total_locked_amount,
            investors.len(),
            treasury_balance,
            current_timestamp,
        ) {
            Ok(ev) => ev,
            Err(e) => {
                return Err(e);
            },
        };
        day_closed = Some(ev);
    }
    *distribution_progress = next;
    Ok((page, page_event, day_closed))
}


/// One crank call, from the claimed fees to the ledger's new state.
///
/// A claim with any base fees is refused first. Then the timing decision opens a new window
/// or continues the current one; a requested cursor behind the ledger's is a repeat and does
/// nothing more, one ahead of it is refused. With investors and something to pay (fees claimed
/// for the window, or carried dust), the investor stage runs. On failure the ledger is left as
/// it was.
pub fn distribute_fees(
    policy_config: &PolicyConfig,
    distribution_progress: &mut DistributionProgress,
    params: &DistributeFeesParams,
    current_timestamp: i64,
    claimed_quote_amount: u64,
    claimed_base_amount: u64,
    investors: &[InvestorData],
    treasury_balance: u64,
) -> (r: Result<DistributionStep, ErrorCode>)
    requires
        policy_config.valid(),
    ensures
        match r {
            Ok(step) => {
                &&& step_outcome(
                    *policy_config,
                    *old(distribution_progress),
                    *params,
                    current_timestamp,
                    claimed_quote_amount as int,
                    claimed_base_amount as int,
                    investors@,
                    treasury_balance as int,
                ) == Ok::<DistributionProgress, ErrorCode>(*final(distribution_progress))
                &&& old(distribution_progress).timing(current_timestamp)
                    == Ok::<DistributionTimingState, ErrorCode>(step.timing_state)
                &&& step.already_processed == (params.cursor_position matches Some(c) && c
                    < prepared_ledger(*old(distribution_progress), current_timestamp).pagination_cursor)
                &&& investor_stage_runs(
                    prepared_ledger(*old(distribution_progress), current_timestamp),
                    *params,
                    claimed_quote_amount as int,
                    investors@,
                ) ==> investor_stage_ok(
                    step.page,
                    step.page_event,
                    step.day_closed,
                    *policy_config,
                    prepared_ledger(*old(distribution_progress), current_timestamp),
                    *final(distribution_progress),
                    investors@,
                    params.page_size as int,
                    claimed_quote_amount as int,
                    treasury_balance as int,
                    current_timestamp,
                )
                &&& !investor_stage_runs(
                    prepared_ledger(*old(distribution_progress), current_timestamp),
                    *params,
                    claimed_quote_amount as int,
                    investors@,
                ) ==> step.page is None && step.page_event is None && step.day_closed is None
            },
            Err(e) => {
                &&& step_outcome(
                    *policy_config,
                    *old(distribution_progress),
                    *params,
                    current_timestamp,
                    claimed_quote_amount as int,
                    claimed_base_amount as int,
                    investors@,
                    treasury_balance as int,
                ) == Err::<DistributionProgress, ErrorCode>(e)
                &&& *final(distribution_progress) == *old(distribution_progress)
            },
        },
{
    if claimed_base_amount > 0 {
        return Err(ErrorCode::BaseFeeDetected);
    }
    if params.page_size == 0 || params.page_size > MAX_PAGE_SIZE {
        return Err(ErrorCode::InvalidPaginationCursor);
    }
    let mut next = *distribution_progress;
    let timing_state = match next.prepare_for_distribution(current_timestamp) {
        Ok(t) => t,
        Err(e) => {
            return Err(e);
        },
    };
    if let Some(requested_cursor) = params.cursor_position {
        let is_retry = match next.validate_cursor_for_retry(requested_cursor) {
            Ok(b) => b,
            Err(e) => {
                return Err(e);
            },
        };
        if is_retry {
            *distribution_progress = next;
            return Ok(
                DistributionStep {
                    timing_state,
                    already_processed: true,
                    page: None,
                    page_event: None,
                    day_closed: None,
                },
            );
        }
    }
    let mut page: Option<BatchPayoutResult> = None;
    let mut page_event: Option<InvestorPayoutPage> = None;
    let mut day_closed: Option<CreatorPayoutDayClosed> = None;
    if investors.len() > 0 && (claimed_quote_amount > 0 || next.carry_over_dust > 0) {
        let (p, ev, closed) = match process_investor_distributions(
            policy_config,
            &mut next,
            investors,
            params.page_size,
            claimed_quote_amount,
            treasury_balance,
            current_timestamp,
        ) {
            Ok(res) => res,
            Err(e) => {
                return Err(e);
            },
        };
        page = p;
        page_event = ev;
        day_closed = closed;
    }
    *distribution_progress = next;
    Ok(DistributionStep { timing_state, already_processed: false, page, page_event, day_closed })
}

} // verus!
