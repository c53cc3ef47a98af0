use vstd::prelude::*;

use crate::constants::{MAX_PAGE_SIZE, WEIGHT_PRECISION};
use crate::error::ErrorCode;
use crate::key::AccountKey;
use crate::math::{
    all_payouts_fit,
    calculate_distribution,
    calculate_dust_payout,
    calculate_individual_payout,
    calculate_investor_weight,
    cap_allowance,
    dust_sum,
    enforce_daily_cap,
    investor_portion,
    min_int,
    paid_sum,
    payout_and_dust,
    raw_payout,
    weight_of,
};
use crate::policy::PolicyConfig;
use crate::progress::DistributionProgress;
use crate::streamflow::InvestorData;

verus! {

/// What one investor of a page is owed and will be sent.
#[derive(Debug, Clone, Copy)]
pub struct InvestorPayout {
    pub wallet: AccountKey,
    pub locked_amount: u64,
    pub weight: u128,
    /// The share owed, zero when it is below the minimum payout.
    pub payout_amount: u64,
    /// The share kept as dust because it is below the minimum payout.
    pub dust_amount: u64,
    /// The amount to transfer: the payout, scaled down when the daily cap binds.
    pub transfer_amount: u64,
}

/// The payout plan of one page.
///
/// Nothing is lost: what the page sends plus the dust it carries forward equals the dust it
/// found plus every share of the page, paid or below the minimum. What the daily cap or the
/// rounding of its scaling holds back stays in the carried dust.
#[derive(Debug, Clone)]
pub struct BatchPayoutResult {
    /// What the page sends: the scaled payouts and the scaled flush.
    pub total_paid: u64,
    /// The dust carried forward after the page.
    pub total_dust: u64,
    /// The number of investors in the page.
    pub processed_count: usize,
    /// One entry per investor of the page, in order.
    pub payouts: Vec<InvestorPayout>,
    /// Whole multiples of the minimum payout flushed out of the accumulated dust.
    pub dust_payout: u64,
    /// The flush as sent, scaled like the payouts. It goes to the creator's token account:
    /// flushed dust belongs to no single investor.
    pub dust_transfer: u64,
    /// What the page would pay without the daily cap: the payouts and the flush.
    pub requested_total: u64,
    /// What the daily cap allows of `requested_total`.
    pub allowed_total: u64,
}

/// The page processor.
pub struct InvestorDistribution;

/// Summary of a page of investors.
#[derive(Debug, Clone, Copy)]
pub struct PageStatistics {
    pub total_investors: usize,
    pub eligible_investors: usize,
    pub total_locked_amount: u64,
    pub total_allocation_amount: u64,
    pub page_start: usize,
    pub page_size: usize,
}

/// The investors of the page that starts at `start` and holds at most `size` of them.
pub open spec fn page_entries(investors: Seq<InvestorData>, start: int, size: int) -> Seq<
    InvestorData,
> {
    investors.subrange(start, min_int(start + size, investors.len() as int))
}

/// The `(locked, weight)` pairs of a page.
pub open spec fn weighted(page: Seq<InvestorData>, total_locked: int) -> Seq<(u64, u128)> {
    Seq::new(
        page.len(),
        |i: int| (page[i].locked_amount, weight_of(page[i].locked_amount as int, total_locked) as u128),
    )
}

/// Whether a page request is well formed.
pub open spec fn page_request_ok(len: int, start: int, size: int) -> bool {
    0 < size <= 50 && start < len
}

/// Sum of the payouts of `inv` scaled by `factor`.
pub open spec fn scaled_paid_sum(
    inv: Seq<(u64, u128)>,
    amount: int,
    min_payout: int,
    factor: int,
) -> int
    decreases inv.len(),
{
    if inv.len() == 0 {
        0
    } else {
        scaled_paid_sum(inv.drop_last(), amount, min_payout, factor) + scaled_amount(
            payout_and_dust(raw_payout(amount, inv.last().1 as int), min_payout).0,
            factor,
        )
    }
}

/// The outcome of a page, or the error that stops it: `(sent, carried, flushed, flush sent,
/// requested, allowed)`.
///
/// The page's shares are computed; its dust joins the carried dust, from which whole
/// multiples of the minimum payout are flushed. `requested` is the payouts plus the flush, and
/// `allowed` what the daily cap leaves of it. Every payout and the flush are scaled by
/// `allowed / requested` (rounded down), and `sent` is their sum. What is not sent, whether
/// held back by the cap or by rounding, stays in the carried dust.
pub open spec fn page_result(
    policy: PolicyConfig,
    progress: DistributionProgress,
    investors: Seq<InvestorData>,
    amount: int,
    total_locked: int,
    start: int,
    size: int,
) -> Result<(int, int, int, int, int, int), ErrorCode> {
    if !page_request_ok(investors.len() as int, start, size) {
        Err(ErrorCode::InvalidPaginationCursor)
    } else {
        let w = weighted(page_entries(investors, start, size), total_locked);
        let minp = policy.min_payout_lamports as int;
        let paid = paid_sum(w, amount, minp);
        let dust = dust_sum(w, amount, minp);
        let acc = dust + progress.carry_over_dust;
        let dust_payout = acc / minp * minp;
        let requested = paid + dust_payout;
        if !all_payouts_fit(w, amount) || paid > u64::MAX || dust > u64::MAX || acc > u64::MAX
            || requested > u64::MAX {
            Err(ErrorCode::ArithmeticOverflow)
        } else {
            match cap_allowance(
                progress.current_day_distributed as int,
                requested,
                policy.daily_cap_lamports,
            ) {
                Err(e) => Err(e),
                Ok(allowed) => {
                    let factor = scale_factor_of(allowed, requested);
                    let flush_sent = scaled_amount(dust_payout, factor);
                    let sent = scaled_paid_sum(w, amount, minp, factor) + flush_sent;
                    let carried = acc - dust_payout + (requested - sent);
                    if progress.pagination_cursor + size > u32::MAX
                        || progress.current_day_distributed + sent > u64::MAX || carried
                        > u64::MAX {
                        Err(ErrorCode::ArithmeticOverflow)
                    } else {
                        Ok((sent, carried, dust_payout, flush_sent, requested, allowed))
                    }
                },
            }
        }
    }
}

/// The fixed-point factor by which payouts are scaled under the cap.
pub open spec fn scale_factor_of(capped_total: int, uncapped_total: int) -> int {
    if uncapped_total > 0 {
        capped_total * 1_000_000 / uncapped_total
    } else {
        1_000_000
    }
}

/// A payout scaled by a factor: unchanged at or above `WEIGHT_PRECISION`, reduced below it.
pub open spec fn scaled_amount(payout: int, factor: int) -> int {
    if factor < 1_000_000 {
        payout * factor / 1_000_000
    } else {
        payout
    }
}

/// The entry of the plan for `investor`.
pub open spec fn payout_entry_ok(
    p: InvestorPayout,
    investor: InvestorData,
    amount: int,
    total_locked: int,
    min_payout: int,
    factor: int,
) -> bool {
    let w = weight_of(investor.locked_amount as int, total_locked);
    let pd = payout_and_dust(raw_payout(amount, w), min_payout);
    &&& p.wallet == investor.wallet
    &&& p.locked_amount == investor.locked_amount
    &&& p.weight == w
    &&& p.payout_amount == pd.0
    &&& p.dust_amount == pd.1
    &&& p.transfer_amount == scaled_amount(pd.0, factor)
}

/// `res` is the payout plan of the page: the totals of `page_result`, one entry per investor
/// of the page, in order, scaled by the cap's factor, and no more sent than the cap allows.
pub open spec fn page_plan_ok(
    res: BatchPayoutResult,
    policy: PolicyConfig,
    before: DistributionProgress,
    investors: Seq<InvestorData>,
    amount: int,
    total_locked: int,
    start: int,
    size: int,
) -> bool {
    let page = page_entries(investors, start, size);
    &&& page_result(policy, before, investors, amount, total_locked, start, size) matches Ok(
        (sent, carried, flushed, flush_sent, requested, capped),
    )
    &&& res.total_paid == sent
    &&& res.total_dust == carried
    &&& res.dust_payout == flushed
    &&& res.dust_transfer == flush_sent
    &&& res.requested_total == requested
    &&& res.allowed_total == capped
    &&& sent <= capped
    &&& res.processed_count == page.len()
    &&& res.payouts@.len() == page.len()
    &&& forall|i: int|
        0 <= i < page.len() ==> #[trigger] payout_entry_ok(
            res.payouts@[i],
            page[i],
            amount,
            total_locked,
            policy.min_payout_lamports as int,
            scale_factor_of(capped, requested),
        )
}

/// The transfers of a plan: each non-zero scaled payout, in order.
pub open spec fn transfers_of(payouts: Seq<InvestorPayout>, factor: int) -> Seq<(AccountKey, u64)>
    decreases payouts.len(),
{
    if payouts.len() == 0 {
        Seq::empty()
    } else {
        let rest = transfers_of(payouts.drop_last(), factor);
        let amount = scaled_amount(payouts.last().payout_amount as int, factor);
        if amount == 0 {
            rest
        } else {
            rest.push((payouts.last().wallet, amount as u64))
        }
    }
}

/// Sum of the amounts of a list of transfers.
pub open spec fn transfer_sum(transfers: Seq<(AccountKey, u64)>) -> int
    decreases transfers.len(),
{
    if transfers.len() == 0 {
        0
    } else {
        transfer_sum(transfers.drop_last()) + transfers.last().1
    }
}

proof fn lemma_transfer_sum_push(transfers: Seq<(AccountKey, u64)>, t: (AccountKey, u64))
    ensures
        transfer_sum(transfers.push(t)) == transfer_sum(transfers) + t.1,
{
    assert(transfers.push(t).drop_last() =~= transfers);
}

/// Sum of the payouts of a plan, before scaling.
pub open spec fn payout_total(payouts: Seq<InvestorPayout>) -> int
    decreases payouts.len(),
{
    if payouts.len() == 0 {
        0
    } else {
        payout_total(payouts.drop_last()) + payouts.last().payout_amount
    }
}

proof fn lemma_transfers_scaled(payouts: Seq<InvestorPayout>, factor: int)
    requires
        0 <= factor <= 1_000_000,
    ensures
        0 <= payout_total(payouts),
        0 <= transfer_sum(transfers_of(payouts, factor)),
        1_000_000 * transfer_sum(transfers_of(payouts, factor)) <= factor * payout_total(payouts),
    decreases payouts.len(),
{
    if payouts.len() > 0 {
        let d = payouts.drop_last();
        lemma_transfers_scaled(d, factor);
        let p = payouts.last().payout_amount as int;
        lemma_scaled_item(p, factor);
        let amount = scaled_amount(p, factor);
        if amount != 0 {
            lemma_transfer_sum_push(transfers_of(d, factor), (payouts.last().wallet, amount as u64));
        }
        vstd::arithmetic::mul::lemma_mul_is_distributive_add(factor, payout_total(d), p);
    }
}

proof fn lemma_transfers_monotonic(payouts: Seq<InvestorPayout>, k: int, factor: int)
    requires
        0 <= k <= payouts.len(),
        0 <= factor <= 1_000_000,
    ensures
        0 <= transfer_sum(transfers_of(payouts.subrange(0, k), factor)) <= transfer_sum(
            transfers_of(payouts, factor),
        ),
    decreases payouts.len() - k,
{
    if k == payouts.len() {
        assert(payouts.subrange(0, k) =~= payouts);
        lemma_transfer_sum_nonneg(transfers_of(payouts, factor));
    } else {
        lemma_transfers_monotonic(payouts, k + 1, factor);
        let pre = payouts.subrange(0, k + 1);
        assert(pre.drop_last() =~= payouts.subrange(0, k));
        let t = transfers_of(payouts.subrange(0, k), factor);
        lemma_transfer_sum_nonneg(t);
        let amount = scaled_amount(pre.last().payout_amount as int, factor);
        if amount != 0 {
            lemma_transfer_sum_push(t, (pre.last().wallet, amount as u64));
            assert(0 <= pre.last().payout_amount as int * factor) by (nonlinear_arith)
                requires
                    0 <= factor,
            ;
            vstd::arithmetic::div_mod::lemma_div_pos_is_pos(
                pre.last().payout_amount as int * factor,
                1_000_000,
            );
        }
    }
}

proof fn lemma_transfer_sum_nonneg(transfers: Seq<(AccountKey, u64)>)
    ensures
        0 <= transfer_sum(transfers),
    decreases transfers.len(),
{
    if transfers.len() > 0 {
        lemma_transfer_sum_nonneg(transfers.drop_last());
    }
}

proof fn lemma_scaled_item(p: int, factor: int)
    requires
        0 <= p,
        0 <= factor <= 1_000_000,
    ensures
        0 <= scaled_amount(p, factor) <= p,
        1_000_000 * scaled_amount(p, factor) <= factor * p,
{
    if factor < 1_000_000 {
        assert(0 <= p * factor <= p * 1_000_000) by (nonlinear_arith)
            requires
                0 <= p,
                0 <= factor <= 1_000_000,
        ;
        vstd::arithmetic::div_mod::lemma_fundamental_div_mod(p * factor, 1_000_000);
        vstd::arithmetic::div_mod::lemma_mod_pos_bound(p * factor, 1_000_000);
        vstd::arithmetic::div_mod::lemma_div_pos_is_pos(p * factor, 1_000_000);
        vstd::arithmetic::div_mod::lemma_div_is_ordered(p * factor, p * 1_000_000, 1_000_000);
        vstd::arithmetic::div_mod::lemma_div_by_multiple(p, 1_000_000);
        vstd::arithmetic::mul::lemma_mul_is_commutative(p, factor);
    } else {
        assert(1_000_000 * p <= factor * p) by (nonlinear_arith)
            requires
                0 <= p,
                factor == 1_000_000,
        ;
    }
}

proof fn lemma_scaled_paid_sum(inv: Seq<(u64, u128)>, amount: int, minp: int, factor: int)
    requires
        0 <= amount,
        0 <= minp,
        0 <= factor <= 1_000_000,
    ensures
        0 <= scaled_paid_sum(inv, amount, minp, factor) <= paid_sum(inv, amount, minp),
        1_000_000 * scaled_paid_sum(inv, amount, minp, factor) <= factor * paid_sum(
            inv,
            amount,
            minp,
        ),
    decreases inv.len(),
{
    if inv.len() > 0 {
        let d = inv.drop_last();
        lemma_scaled_paid_sum(d, amount, minp, factor);
        assert(0 <= amount * (inv.last().1 as int)) by (nonlinear_arith)
            requires
                0 <= amount,
                0 <= inv.last().1,
        ;
        vstd::arithmetic::div_mod::lemma_div_pos_is_pos(amount * (inv.last().1 as int), 1_000_000);
        let p = payout_and_dust(raw_payout(amount, inv.last().1 as int), minp).0;
        lemma_scaled_item(p, factor);
        vstd::arithmetic::mul::lemma_mul_is_distributive_add(factor, paid_sum(d, amount, minp), p);
    }
}

proof fn lemma_scaled_step(inv: Seq<(u64, u128)>, j: int, amount: int, minp: int, factor: int)
    requires
        0 <= j < inv.len(),
    ensures
        scaled_paid_sum(inv.subrange(0, j + 1), amount, minp, factor) == scaled_paid_sum(
            inv.subrange(0, j),
            amount,
            minp,
            factor,
        ) + scaled_amount(payout_and_dust(raw_payout(amount, inv[j].1 as int), minp).0, factor),
{
    assert(inv.subrange(0, j + 1).drop_last() =~= inv.subrange(0, j));
}

/// What scaling by the cap's factor sends never exceeds what the cap allows.
proof fn lemma_sent_within_allowance(
    scaled_payouts: int,
    payouts: int,
    flush_sent: int,
    flush: int,
    allowed: int,
    requested: int,
)
    requires
        0 <= scaled_payouts,
        0 <= flush_sent,
        0 <= payouts,
        0 <= flush,
        payouts + flush <= requested,
        0 <= allowed <= requested,
        1_000_000 * scaled_payouts <= scale_factor_of(allowed, requested) * payouts,
        1_000_000 * flush_sent <= scale_factor_of(allowed, requested) * flush,
    ensures
        scaled_payouts + flush_sent <= allowed,
{
    let f = scale_factor_of(allowed, requested);
    vstd::arithmetic::mul::lemma_mul_is_distributive_add(f, payouts, flush);
    if requested > 0 {
        vstd::arithmetic::div_mod::lemma_div_pos_is_pos(allowed * 1_000_000, requested);
        assert(f * (payouts + flush) <= f * requested) by (nonlinear_arith)
            requires
                0 <= f,
                payouts + flush <= requested,
        ;
        vstd::arithmetic::div_mod::lemma_fundamental_div_mod(allowed * 1_000_000, requested);
        vstd::arithmetic::div_mod::lemma_mod_pos_bound(allowed * 1_000_000, requested);
        vstd::arithmetic::mul::lemma_mul_is_commutative(f, requested);
        assert(f * requested <= allowed * 1_000_000);
        assert(1_000_000 * (scaled_payouts + flush_sent) <= 1_000_000 * allowed);
    }
}

/// The cap's scale factor for a capped and an uncapped total.
pub fn payout_scale_factor(capped_total: u64, uncapped_total: u64) -> (r: u128)
    requires
        capped_total <= uncapped_total,
    ensures
        r == scale_factor_of(capped_total as int, uncapped_total as int),
        r <= WEIGHT_PRECISION,
{
    if uncapped_total > 0 {
        proof {
            vstd::arithmetic::div_mod::lemma_div_is_ordered(
                capped_total as int * 1_000_000,
                uncapped_total as int * 1_000_000,
                uncapped_total as int,
            );
            vstd::arithmetic::div_mod::lemma_div_by_multiple(1_000_000, uncapped_total as int);
            vstd::arithmetic::mul::lemma_mul_is_commutative(1_000_000, uncapped_total as int);
        }
        (capped_total as u128) * 1_000_000 / (uncapped_total as u128)
    } else {
        WEIGHT_PRECISION
    }
}

/// Scales one payout by a factor of at most `WEIGHT_PRECISION`, rounding down.
pub fn scale_payout(payout: u64, scale_factor: u128) -> (r: u64)
    requires
        scale_factor <= WEIGHT_PRECISION,
    ensures
        r == scaled_amount(payout as int, scale_factor as int),
        r <= payout,
{
    if scale_factor < WEIGHT_PRECISION {
        proof {
            assert(payout as int * scale_factor as int <= payout as int * 1_000_000)
                by (nonlinear_arith)
                requires
                    scale_factor <= 1_000_000,
            ;
            vstd::arithmetic::div_mod::lemma_div_is_ordered(
                payout as int * scale_factor as int,
                payout as int * 1_000_000,
                1_000_000,
            );
        }
        ((payout as u128) * scale_factor / 1_000_000) as u64
    } else {
        payout
    }
}

proof fn lemma_weighted_step(
    page: Seq<InvestorData>,
    i: int,
    total_locked: int,
    amount: int,
    minp: int,
)
    requires
        0 <= i < page.len(),
    ensures
        weighted(page, total_locked).subrange(0, i + 1).drop_last() == weighted(
            page,
            total_locked,
        ).subrange(0, i),
        weighted(page, total_locked)[i] == (
        page[i].locked_amount,
        weight_of(page[i].locked_amount as int, total_locked) as u128,
        ),
        paid_sum(weighted(page, total_locked).subrange(0, i + 1), amount, minp) == paid_sum(
            weighted(page, total_locked).subrange(0, i),
            amount,
            minp,
        ) + payout_and_dust(
            raw_payout(amount, weight_of(page[i].locked_amount as int, total_locked) as u128 as int),
            minp,
        ).0,
        dust_sum(weighted(page, total_locked).subrange(0, i + 1), amount, minp) == dust_sum(
            weighted(page, total_locked).subrange(0, i),
            amount,
            minp,
        ) + payout_and_dust(
            raw_payout(amount, weight_of(page[i].locked_amount as int, total_locked) as u128 as int),
            minp,
        ).1,
{
    let w = weighted(page, total_locked);
    assert(w.subrange(0, i + 1).drop_last() =~= w.subrange(0, i));
}

/// Some investor of `page` has something locked.
pub open spec fn has_eligible(page: Seq<InvestorData>) -> bool {
    exists|i: int| 0 <= i < page.len() && #[trigger] page[i].locked_amount > 0
}

/// Sum of the locked amounts of `page`.
pub open spec fn locked_sum(page: Seq<InvestorData>) -> int
    decreases page.len(),
{
    if page.len() == 0 {
        0
    } else {
        locked_sum(page.drop_last()) + page.last().locked_amount
    }
}

/// Sum of the allocations of `page`.
pub open spec fn allocation_sum(page: Seq<InvestorData>) -> int
    decreases page.len(),
{
    if page.len() == 0 {
        0
    } else {
        allocation_sum(page.drop_last()) + page.last().total_allocation
    }
}

/// Number of investors of `page` with something locked.
pub open spec fn eligible_count(page: Seq<InvestorData>) -> int
    decreases page.len(),
{
    if page.len() == 0 {
        0
    } else {
        eligible_count(page.drop_last()) + if page.last().locked_amount > 0 {
            1int
        } else {
            0
        }
    }
}

proof fn lemma_page_sums_prefix(page: Seq<InvestorData>, k: int)
    requires
        0 <= k <= page.len(),
    ensures
        0 <= locked_sum(page.subrange(0, k)) <= locked_sum(page),
        0 <= allocation_sum(page.subrange(0, k)) <= allocation_sum(page),
        0 <= eligible_count(page.subrange(0, k)) <= k,
    decreases page.len() - k,
{
    if k == page.len() {
        assert(page.subrange(0, k) =~= page);
        lemma_page_sums_nonneg(page);
    } else {
        lemma_page_sums_prefix(page, k + 1);
        assert(page.subrange(0, k + 1).drop_last() =~= page.subrange(0, k));
        lemma_page_sums_nonneg(page.subrange(0, k));
    }
}

proof fn lemma_page_sums_nonneg(page: Seq<InvestorData>)
    ensures
        0 <= locked_sum(page),
        0 <= allocation_sum(page),
        0 <= eligible_count(page) <= page.len(),
    decreases page.len(),
{
    if page.len() > 0 {
        lemma_page_sums_nonneg(page.drop_last());
    }
}

/// The slice of `investors` that a page covers, or `None` when `page_start` lies beyond it.
fn page_bounds(len: usize, page_start: usize, page_size: usize) -> (r: Option<usize>)
    ensures
        page_start > len ==> r is None,
        page_start <= len ==> r == Some(min_int(page_start + page_size, len as int) as usize),
{
    if page_start > len {
        None
    } else if len - page_start >= page_size {
        Some(page_start + page_size)
    } else {
        Some(len)
    }
}

/// The locked amount of a page.
pub(crate) fn page_locked_total(investors: &[InvestorData], page_start: usize, end_index: usize) -> (r:
    Result<u64, ErrorCode>)
    requires
        page_start <= end_index <= investors@.len(),
    ensures
        match r {
            Ok(locked) => locked == locked_sum(
                investors@.subrange(page_start as int, end_index as int),
            ),
            Err(e) => e == ErrorCode::ArithmeticOverflow && locked_sum(
                investors@.subrange(page_start as int, end_index as int),
            ) > u64::MAX,
        },
{
    let ghost page = investors@.subrange(page_start as int, end_index as int);
    let mut locked: u64 = 0;
    let mut i: usize = page_start;
    while i < end_index
        invariant
            page_start <= i <= end_index <= investors@.len(),
            page == investors@.subrange(page_start as int, end_index as int),
            locked == locked_sum(page.subrange(0, i - page_start)),
        decreases end_index - i,
    {
        let ghost k = i - page_start;
        proof {
            assert(page.subrange(0, k + 1).drop_last() =~= page.subrange(0, k));
            assert(page[k] == investors@[i as int]);
            lemma_page_sums_prefix(page, k + 1);
        }
        locked = match locked.checked_add(investors[i].locked_amount) {
            Some(v) => v,
            None => {
                return Err(ErrorCode::ArithmeticOverflow);
            },
        };
        i = i + 1;
    }
    assert(page.subrange(0, end_index - page_start) =~= page);
    Ok(locked)
}

/// The totals of a page: locked amount, allocation and investors with something locked.
fn page_totals(investors: &[InvestorData], page_start: usize, end_index: usize) -> (r: Result<
    (u64, u64, usize),
    ErrorCode,
>)
    requires
        page_start <= end_index <= investors@.len(),
    ensures
        match r {
            Ok((locked, allocation, eligible)) => {
                let page = investors@.subrange(page_start as int, end_index as int);
                &&& locked == locked_sum(page)
                &&& allocation == allocation_sum(page)
                &&& eligible == eligible_count(page)
            },
            Err(e) => {
                let page = investors@.subrange(page_start as int, end_index as int);
                &&& e == ErrorCode::ArithmeticOverflow
                &&& (locked_sum(page) > u64::MAX || allocation_sum(page) > u64::MAX)
            },
        },
{
    let ghost page = investors@.subrange(page_start as int, end_index as int);
    let mut locked: u64 = 0;
    let mut allocation: u64 = 0;
    let mut eligible: usize = 0;
    let mut i: usize = page_start;
    while i < end_index
        invariant
            page_start <= i <= end_index <= investors@.len(),
            page == investors@.subrange(page_start as int, end_index as int),
            locked == locked_sum(page.subrange(0, i - page_start)),
            allocation == allocation_sum(page.subrange(0, i - page_start)),
            eligible == eligible_count(page.subrange(0, i - page_start)),
            eligible <= i - page_start,
        decreases end_index - i,
    {
        let ghost k = i - page_start;
        proof {
            assert(page.subrange(0, k + 1).drop_last() =~= page.subrange(0, k));
            assert(page[k] == investors@[i as int]);
            lemma_page_sums_prefix(page, k + 1);
        }
        let inv = investors[i];
        locked = match locked.checked_add(inv.locked_amount) {
            Some(v) => v,
            None => {
                return Err(ErrorCode::ArithmeticOverflow);
            },
        };
        allocation = match allocation.checked_add(inv.total_allocation) {
            Some(v) => v,
            None => {
                return Err(ErrorCode::ArithmeticOverflow);
            },
        };
        if inv.locked_amount > 0 {
            eligible = eligible + 1;
        }
        i = i + 1;
    }
    assert(page.subrange(0, end_index - page_start) =~= page);
    Ok((locked, allocation, eligible))
}

impl InvestorDistribution {
    /// Processes one page of investors.
    ///
    /// Each investor of the page gets its weight out of `total_locked_amount` and its payout or
    /// dust out of `total_investor_amount`. The page's dust joins the carried dust, whole multiples
    /// of the minimum payout are flushed out of it (the flush goes to the creator), and the daily
    /// cap limits what the page pays: when it binds, every payout and the flush are scaled down
    /// by the same factor. What is not sent stays in the carried dust, so the amount sent plus
    /// the new carried dust equals the old carried dust plus the page's shares. On success the
    /// ledger records the amount sent, the dust carried and a cursor moved by `page_size`; on
    /// failure it is left as it was.
    pub fn process_investor_page(
        policy_config: &PolicyConfig,
        distribution_progress: &mut DistributionProgress,
        investors: &[InvestorData],
        total_investor_amount: u64,
        total_locked_amount: u64,
        page_start: usize,
        page_size: usize,
    ) -> (r: Result<BatchPayoutResult, ErrorCode>)
        requires
            policy_config.valid(),
        ensures
            match r {
                Ok(res) => {
                    &&& page_plan_ok(
                        res,
                        *policy_config,
                        *old(distribution_progress),
                        investors@,
                        total_investor_amount as int,
                        total_locked_amount as int,
                        page_start as int,
                        page_size as int,
                    )
                    &&& page_result(
                        *policy_config,
                        *old(distribution_progress),
                        investors@,
                        total_investor_amount as int,
                        total_locked_amount as int,
                        page_start as int,
                        page_size as int,
                    ) matches Ok((sent, carried, flushed, flush_sent, requested, allowed))
                    &&& *final(distribution_progress) == (DistributionProgress {
                        current_day_distributed: (old(distribution_progress).current_day_distributed
                            + sent) as u64,
                        carry_over_dust: carried as u64,
                        pagination_cursor: (old(distribution_progress).pagination_cursor
                            + page_size) as u32,
                        ..*old(distribution_progress)
                    })
                    &&& res.total_paid + final(distribution_progress).carry_over_dust == old(
                        distribution_progress,
                    ).carry_over_dust + paid_sum(
                        weighted(
                            page_entries(investors@, page_start as int, page_size as int),
                            total_locked_amount as int,
                        ),
                        total_investor_amount as int,
                        policy_config.min_payout_lamports as int,
                    ) + dust_sum(
                        weighted(
                            page_entries(investors@, page_start as int, page_size as int),
                            total_locked_amount as int,
                        ),
                        total_investor_amount as int,
                        policy_config.min_payout_lamports as int,
                    )
                },
                Err(e) => {
                    &&& page_result(
                        *policy_config,
                        *old(distribution_progress),
                        investors@,
                        total_investor_amount as int,
                        total_locked_amount as int,
                        page_start as int,
                        page_size as int,
                    ) == Err::<(int, int, int, int, int, int), ErrorCode>(e)
                    &&& *final(distribution_progress) == *old(distribution_progress)
                },
            },
    {
        if page_size == 0 || page_size > MAX_PAGE_SIZE as usize {
            return Err(ErrorCode::InvalidPaginationCursor);
        }
        if page_start >= investors.len() {
            return Err(ErrorCode::InvalidPaginationCursor);
        }
        let end_index = if investors.len() - page_start >= page_size {
            page_start + page_size
        } else {
            investors.len()
        };
        let ghost page = page_entries(investors@, page_start as int, page_size as int);
        let ghost tl = total_locked_amount as int;
        let ghost w = weighted(page, tl);
        let ghost amount = total_investor_amount as int;
        let min_payout = policy_config.min_payout_lamports;
        let ghost minp = min_payout as int;
        assert(page.len() == end_index - page_start);
        let mut payouts: Vec<InvestorPayout> = Vec::new();
        let mut total_paid: u64 = 0;
        let mut total_dust: u64 = 0;
        let mut i: usize = page_start;
        while i < end_index
            invariant
                page_start <= i <= end_index <= investors@.len(),
                page_request_ok(investors@.len() as int, page_start as int, page_size as int),
                page == page_entries(investors@, page_start as int, page_size as int),
                page.len() == end_index - page_start,
                w == weighted(page, tl),
                tl == total_locked_amount,
                amount == total_investor_amount,
                minp == min_payout,
                min_payout == policy_config.min_payout_lamports,
                payouts@.len() == i - page_start,
                forall|j: int|
                    0 <= j < i - page_start ==> #[trigger] payout_entry_ok(
                        payouts@[j],
                        page[j],
                        amount,
                        tl,
                        minp,
                        1_000_000,
                    ),
                forall|j: int|
                    0 <= j < i - page_start ==> #[trigger] raw_payout(amount, w[j].1 as int)
                        <= u64::MAX,
                total_paid == paid_sum(w.subrange(0, i - page_start), amount, minp),
                total_dust == dust_sum(w.subrange(0, i - page_start), amount, minp),
            decreases end_index - i,
        {
            let k: Ghost<int> = Ghost(i - page_start);
            let investor = investors[i];
            assert(investor == page[k@]);
            proof {
                lemma_weighted_step(page, k@, tl, amount, minp);
            }
            let weight = match calculate_investor_weight(investor.locked_amount, total_locked_amount) {
                Ok(w) => w,
                Err(e) => {
                    return Err(e);
                },
            };
            let (payout, dust) = match calculate_individual_payout(
                total_investor_amount,
                weight,
                min_payout,
            ) {
                Ok(pd) => pd,
                Err(e) => {
                    assert(w[k@].1 == weight);
                    assert(!all_payouts_fit(w, amount));
                    return Err(e);
                },
            };
            assert(w[k@].1 == weight);
            assert(paid_sum(w.subrange(0, k@ + 1), amount, minp) == total_paid + payout);
            assert(dust_sum(w.subrange(0, k@ + 1), amount, minp) == total_dust + dust);
            total_paid = match total_paid.checked_add(payout) {
                Some(v) => v,
                None => {
                    proof {
                        crate::math::lemma_sums_prefix(w, k@ + 1, amount, minp);
                    }
                    return Err(ErrorCode::ArithmeticOverflow);
                },
            };
            total_dust = match total_dust.checked_add(dust) {
                Some(v) => v,
                None => {
                    proof {
                        crate::math::lemma_sums_prefix(w, k@ + 1, amount, minp);
                    }
                    return Err(ErrorCode::ArithmeticOverflow);
                },
            };
            payouts.push(
                InvestorPayout {
                    wallet: investor.wallet,
                    locked_amount: investor.locked_amount,
                    weight,
                    payout_amount: payout,
                    dust_amount: dust,
                    transfer_amount: payout,
                },
            );
            i = i + 1;
        }
        proof {
            assert(w.subrange(0, w.len() as int) =~= w);
            assert(all_payouts_fit(w, amount));
        }
        let accumulated = match total_dust.checked_add(distribution_progress.carry_over_dust) {
            Some(v) => v,
            None => {
                return Err(ErrorCode::ArithmeticOverflow);
            },
        };
        let (dust_payout, remaining_dust) = calculate_dust_payout(accumulated, min_payout);
        let requested = match total_paid.checked_add(dust_payout) {
            Some(v) => v,
            None => {
                return Err(ErrorCode::ArithmeticOverflow);
            },
        };
        let capped = match enforce_daily_cap(
            distribution_progress,
            requested,
            policy_config.daily_cap_lamports,
        ) {
            Ok(c) => c,
            Err(e) => {
                return Err(e);
            },
        };
        let new_cursor = match distribution_progress.pagination_cursor.checked_add(page_size as u32) {
            Some(v) => v,
            None => {
                return Err(ErrorCode::ArithmeticOverflow);
            },
        };
        let factor = payout_scale_factor(capped, requested);
        let ghost f = factor as int;
        let mut planned: Vec<InvestorPayout> = Vec::new();
        let mut sent_to_investors: u64 = 0;
        let mut j: usize = 0;
        while j < payouts.len()
            invariant
                payouts@.len() == page.len(),
                planned@.len() == j,
                j <= payouts@.len(),
                factor <= WEIGHT_PRECISION,
                f == factor,
                page.len() == w.len(),
                w == weighted(page, tl),
                amount == total_investor_amount,
                0 <= minp,
                total_paid == paid_sum(w, amount, minp),
                sent_to_investors == scaled_paid_sum(w.subrange(0, j as int), amount, minp, f),
                forall|t: int|
                    0 <= t < page.len() ==> #[trigger] payout_entry_ok(
                        payouts@[t],
                        page[t],
                        amount,
                        tl,
                        minp,
                        1_000_000,
                    ),
                forall|t: int|
                    0 <= t < j ==> #[trigger] payout_entry_ok(
                        planned@[t],
                        page[t],
                        amount,
                        tl,
                        minp,
                        f,
                    ),
            decreases payouts@.len() - j,
        {
            let p = payouts[j];
            assert(payout_entry_ok(payouts@[j as int], page[j as int], amount, tl, minp, 1_000_000));
            proof {
                lemma_scaled_step(w, j as int, amount, minp, f);
                lemma_scaled_paid_sum(w.subrange(0, j + 1), amount, minp, f);
                crate::math::lemma_sums_prefix(w, j + 1, amount, minp);
                assert(w[j as int].1 == p.weight);
            }
            let scaled = scale_payout(p.payout_amount, factor);
            sent_to_investors = sent_to_investors + scaled;
            planned.push(InvestorPayout { transfer_amount: scaled, ..p });
            j = j + 1;
        }
        proof {
            assert(w.subrange(0, w.len() as int) =~= w);
            lemma_scaled_paid_sum(w, amount, minp, f);
            crate::math::lemma_sums_prefix(w, 0, amount, minp);
        }
        let dust_transfer = scale_payout(dust_payout, factor);
        proof {
            lemma_scaled_item(dust_payout as int, f);
            lemma_sent_within_allowance(
                sent_to_investors as int,
                total_paid as int,
                dust_transfer as int,
                dust_payout as int,
                capped as int,
                requested as int,
            );
        }
        let sent = sent_to_investors + dust_transfer;
        let new_distributed = match distribution_progress.current_day_distributed.checked_add(sent) {
            Some(v) => v,
            None => {
                return Err(ErrorCode::ArithmeticOverflow);
            },
        };
        let carried = match remaining_dust.checked_add(requested - sent) {
            Some(v) => v,
            None => {
                return Err(ErrorCode::ArithmeticOverflow);
            },
        };
        distribution_progress.current_day_distributed = new_distributed;
        distribution_progress.carry_over_dust = carried;
        distribution_progress.pagination_cursor = new_cursor;
        let processed_count = planned.len();
        Ok(
            BatchPayoutResult {
                total_paid: sent,
                total_dust: carried,
                processed_count,
                payouts: planned,
                dust_payout,
                dust_transfer,
                requested_total: requested,
                allowed_total: capped,
            },
        )
    }

    /// The transfers of a page's plan: every payout, and the flushed dust, scaled by
    /// `capped_total / uncapped_total` (rounded down), with zero payouts left out; returns the
    /// investor transfers and the scaled flush, which goes to the creator. When the payouts and
    /// the flush add up to no more than `uncapped_total`, everything sent stays within
    /// `capped_total`. Fails when what is sent does not fit in a `u64`.
    pub fn execute_investor_payouts(
        payouts: &[InvestorPayout],
        capped_total: u64,
        uncapped_total: u64,
        dust_payout: u64,
    ) -> (r: Result<(Vec<(AccountKey, u64)>, u64), ErrorCode>)
        requires
            capped_total <= uncapped_total,
        ensures
            match r {
                Ok((transfers, flush_sent)) => {
                    &&& transfers@ == transfers_of(
                        payouts@,
                        scale_factor_of(capped_total as int, uncapped_total as int),
                    )
                    &&& flush_sent == scaled_amount(
                        dust_payout as int,
                        scale_factor_of(capped_total as int, uncapped_total as int),
                    )
                    &&& transfer_sum(transfers@) + flush_sent <= u64::MAX
                    &&& payout_total(payouts@) + dust_payout <= uncapped_total ==> transfer_sum(
                        transfers@,
                    ) + flush_sent <= capped_total
                },
                Err(e) => {
                    &&& e == ErrorCode::ArithmeticOverflow
                    &&& transfer_sum(
                        transfers_of(
                            payouts@,
                            scale_factor_of(capped_total as int, uncapped_total as int),
                        ),
                    ) + scaled_amount(
                        dust_payout as int,
                        scale_factor_of(capped_total as int, uncapped_total as int),
                    ) > u64::MAX
                },
            },
    {
        let factor = payout_scale_factor(capped_total, uncapped_total);
        let ghost f = factor as int;
        let mut transfers: Vec<(AccountKey, u64)> = Vec::new();
        let mut total_transferred: u64 = 0;
        let mut i: usize = 0;
        while i < payouts.len()
            invariant
                0 <= i <= payouts@.len(),
                f == factor,
                factor <= WEIGHT_PRECISION,
                f == scale_factor_of(capped_total as int, uncapped_total as int),
                transfers@ == transfers_of(payouts@.subrange(0, i as int), f),
                total_transferred == transfer_sum(transfers@),
            decreases payouts@.len() - i,
        {
            proof {
                assert(payouts@.subrange(0, i + 1).drop_last() =~= payouts@.subrange(0, i as int));
                lemma_transfers_monotonic(payouts@, i + 1, f);
                lemma_scaled_item(dust_payout as int, f);
            }
            let p = payouts[i];
            let scaled = scale_payout(p.payout_amount, factor);
            if scaled != 0 {
                proof {
                    lemma_transfer_sum_push(transfers@, (p.wallet, scaled));
                }
                total_transferred = match total_transferred.checked_add(scaled) {
                    Some(v) => v,
                    None => {
                        return Err(ErrorCode::ArithmeticOverflow);
                    },
                };
                transfers.push((p.wallet, scaled));
            }
            i = i + 1;
        }
        assert(payouts@.subrange(0, payouts@.len() as int) =~= payouts@);
        let flush_sent = scale_payout(dust_payout, factor);
        proof {
            lemma_transfers_scaled(payouts@, f);
            lemma_scaled_item(dust_payout as int, f);
            if payout_total(payouts@) + dust_payout <= uncapped_total {
                lemma_sent_within_allowance(
                    transfer_sum(transfers@),
                    payout_total(payouts@),
                    flush_sent as int,
                    dust_payout as int,
                    capped_total as int,
                    uncapped_total as int,
                );
            }
        }
        match total_transferred.checked_add(flush_sent) {
            Some(_) => Ok((transfers, flush_sent)),
            None => Err(ErrorCode::ArithmeticOverflow),
        }
    }

    /// The part of the investors' amount that falls to one page, in proportion to the page's
    /// locked amount, together with that locked amount.
    pub fn calculate_page_distribution(
        policy_config: &PolicyConfig,
        investors: &[InvestorData],
        claimed_quote_amount: u64,
        total_locked_amount: u64,
        page_start: usize,
        page_size: usize,
    ) -> (r: Result<(u64, u64), ErrorCode>)
        ensures
            match r {
                Ok((page_amount, page_locked)) => {
                    let page = page_entries(investors@, page_start as int, page_size as int);
                    let investor_amount = investor_portion(
                        claimed_quote_amount as int,
                        total_locked_amount as int,
                        policy_config.y0_total_allocation as int,
                        policy_config.investor_fee_share_bps as int,
                    );
                    &&& policy_config.investor_fee_share_bps <= 10000
                    &&& page_start <= investors@.len()
                    &&& page_locked == locked_sum(page)
                    &&& page_amount == (if total_locked_amount > 0 {
                        investor_amount * page_locked / (total_locked_amount as int)
                    } else {
                        0
                    })
                },
                Err(e) => {
                    let page = page_entries(investors@, page_start as int, page_size as int);
                    let investor_amount = investor_portion(
                        claimed_quote_amount as int,
                        total_locked_amount as int,
                        policy_config.y0_total_allocation as int,
                        policy_config.investor_fee_share_bps as int,
                    );
                    ||| policy_config.investor_fee_share_bps > 10000 && e
                        == ErrorCode::InvalidInvestorFeeShare
                    ||| policy_config.investor_fee_share_bps <= 10000 && page_start
                        > investors@.len() && e == ErrorCode::InvalidPaginationCursor
                    ||| policy_config.investor_fee_share_bps <= 10000 && page_start
                        <= investors@.len() && e == ErrorCode::ArithmeticOverflow && (
                    locked_sum(page) > u64::MAX || (total_locked_amount > 0 && investor_amount
                        * locked_sum(page) / (total_locked_amount as int) > u64::MAX))
                },
            },
    {
        let (total_investor_amount, _creator) = match calculate_distribution(
            claimed_quote_amount,
            total_locked_amount,
            policy_config.y0_total_allocation,
            policy_config.investor_fee_share_bps,
        ) {
            Ok(split) => split,
            Err(e) => {
                return Err(e);
            },
        };
        let end_index = match page_bounds(investors.len(), page_start, page_size) {
            Some(e) => e,
            None => {
                return Err(ErrorCode::InvalidPaginationCursor);
            },
        };
        assert(page_entries(investors@, page_start as int, page_size as int) =~= investors@.subrange(
            page_start as int,
            end_index as int,
        ));
        let page_locked = match page_locked_total(investors, page_start, end_index) {
            Ok(t) => t,
            Err(e) => {
                return Err(e);
            },
        };
        if total_locked_amount == 0 {
            return Ok((0, page_locked));
        }
        proof {
            assert(total_investor_amount as int * page_locked as int <= u64::MAX as int
                * u64::MAX as int) by (nonlinear_arith);
        }
        let page_amount = (total_investor_amount as u128) * (page_locked as u128) / (
        total_locked_amount as u128);
        if page_amount > u64::MAX as u128 {
            return Err(ErrorCode::ArithmeticOverflow);
        }
        Ok((page_amount as u64, page_locked))
    }

    /// Checks a page request against the investor set and the policy.
    pub fn validate_distribution_params(
        policy_config: &PolicyConfig,
        investors: &[InvestorData],
        page_start: usize,
        page_size: usize,
    ) -> (r: Result<(), ErrorCode>)
        ensures
            r == (if !page_request_ok(investors@.len() as int, page_start as int, page_size as int) {
                Err(ErrorCode::InvalidPaginationCursor)
            } else {
                policy_config.check()
            }),
    {
        if page_size == 0 || page_size > MAX_PAGE_SIZE as usize {
            return Err(ErrorCode::InvalidPaginationCursor);
        }
        if page_start >= investors.len() {
            return Err(ErrorCode::InvalidPaginationCursor);
        }
        policy_config.validate()
    }

    /// Whether some investor of the page has something locked.
    pub fn validate_investor_eligibility(
        investors: &[InvestorData],
        page_start: usize,
        page_size: usize,
    ) -> (r: Result<bool, ErrorCode>)
        ensures
            page_start > investors@.len() ==> r == Err::<bool, ErrorCode>(
                ErrorCode::InvalidPaginationCursor,
            ),
            page_start <= investors@.len() ==> r == Ok::<bool, ErrorCode>(
                has_eligible(page_entries(investors@, page_start as int, page_size as int)),
            ),
    {
        let end_index = match page_bounds(investors.len(), page_start, page_size) {
            Some(e) => e,
            None => {
                return Err(ErrorCode::InvalidPaginationCursor);
            },
        };
        let ghost page = page_entries(investors@, page_start as int, page_size as int);
        assert(page =~= investors@.subrange(page_start as int, end_index as int));
        let mut i: usize = page_start;
        while i < end_index
            invariant
                page_start <= i <= end_index <= investors@.len(),
                page == investors@.subrange(page_start as int, end_index as int),
                page == page_entries(investors@, page_start as int, page_size as int),
                forall|j: int| 0 <= j < i - page_start ==> #[trigger] page[j].locked_amount == 0,
            decreases end_index - i,
        {
            assert(page[i - page_start] == investors@[i as int]);
            if investors[i].locked_amount > 0 {
                assert(page[i - page_start].locked_amount > 0);
                return Ok(true);
            }
            i = i + 1;
        }
        Ok(false)
    }

    /// Counts and totals of a page of investors.
    pub fn get_page_statistics(
        investors: &[InvestorData],
        page_start: usize,
        page_size: usize,
    ) -> (r: Result<PageStatistics, ErrorCode>)
        ensures
            match r {
                Ok(stats) => {
                    let page = page_entries(investors@, page_start as int, page_size as int);
                    &&& page_start <= investors@.len()
                    &&& stats.total_investors == page.len()
                    &&& stats.eligible_investors == eligible_count(page)
                    &&& stats.total_locked_amount == locked_sum(page)
                    &&& stats.total_allocation_amount == allocation_sum(page)
                    &&& stats.page_start == page_start
                    &&& stats.page_size == page.len()
                },
                Err(e) => {
                    let page = page_entries(investors@, page_start as int, page_size as int);
                    ||| page_start > investors@.len() && e == ErrorCode::InvalidPaginationCursor
                    ||| page_start <= investors@.len() && e == ErrorCode::ArithmeticOverflow && (
                    locked_sum(page) > u64::MAX || allocation_sum(page) > u64::MAX)
                },
            },
    {
        let end_index = match page_bounds(investors.len(), page_start, page_size) {
            Some(e) => e,
            None => {
                return Err(ErrorCode::InvalidPaginationCursor);
            },
        };
        assert(page_entries(investors@, page_start as int, page_size as int) =~= investors@.subrange(
            page_start as int,
            end_index as int,
        ));
        let (total_locked, total_allocation, eligible) = match page_totals(
            investors,
            page_start,
            end_index,
        ) {
            Ok(t) => t,
            Err(e) => {
                return Err(e);
            },
        };
        Ok(
            PageStatistics {
                total_investors: end_index - page_start,
                eligible_investors: eligible,
                total_locked_amount: total_locked,
                total_allocation_amount: total_allocation,
                page_start,
                page_size: end_index - page_start,
            },
        )
    }
}

} // verus!
