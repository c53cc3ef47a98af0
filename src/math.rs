use vstd::prelude::*;

use crate::constants::{MAX_BASIS_POINTS, WEIGHT_PRECISION};
use crate::error::ErrorCode;
use crate::progress::DistributionProgress;

verus! {

pub open spec fn min_int(a: int, b: int) -> int {
    if a <= b {
        a
    } else {
        b
    }
}

/// Share of the launch allocation that is still locked, in basis points, rounded down.
pub open spec fn locked_fraction_bps(locked_total: int, total_allocation: int) -> int {
    locked_total * 10000 / total_allocation
}

/// Basis points of the claimed amount that go to investors.
pub open spec fn eligible_share_bps(locked_total: int, total_allocation: int, share_bps: int) -> int {
    min_int(share_bps, locked_fraction_bps(locked_total, total_allocation))
}

/// The investor part of a claimed amount.
pub open spec fn investor_portion(
    claimed: int,
    locked_total: int,
    total_allocation: int,
    share_bps: int,
) -> int {
    if total_allocation == 0 || claimed == 0 {
        0
    } else {
        claimed * eligible_share_bps(locked_total, total_allocation, share_bps) / 10000
    }
}

/// The weight of one investor: its locked amount as a fraction of `WEIGHT_PRECISION`.
pub open spec fn weight_of(locked: int, total_locked: int) -> int {
    if total_locked == 0 {
        0
    } else {
        locked * 1_000_000 / total_locked
    }
}

/// What one investor would receive before the minimum-payout rule.
pub open spec fn raw_payout(amount: int, weight: int) -> int {
    amount * weight / 1_000_000
}

/// The payout rule: a share below `min_payout` is paid nothing and becomes dust.
pub open spec fn payout_and_dust(raw: int, min_payout: int) -> (int, int) {
    if raw < min_payout {
        (0, raw)
    } else {
        (raw, 0)
    }
}

proof fn lemma_portion_bounds(claimed: int, eligible: int)
    requires
        0 <= claimed,
        0 <= eligible <= 10000,
    ensures
        0 <= claimed * eligible / 10000 <= claimed,
        claimed * eligible <= claimed * 10000,
{
    assert(0 <= claimed * eligible <= claimed * 10000) by (nonlinear_arith)
        requires
            0 <= claimed,
            0 <= eligible <= 10000,
    ;
    assert(claimed * 10000 / 10000 == claimed);
    vstd::arithmetic::div_mod::lemma_div_is_ordered(claimed * eligible, claimed * 10000, 10000);
    vstd::arithmetic::div_mod::lemma_div_pos_is_pos(claimed * eligible, 10000);
}

/// With the claimed amount, the launch allocation and the share fixed, more locked tokens
/// never give investors less.
pub proof fn lemma_investor_portion_monotonic(
    claimed: u64,
    locked_low: u64,
    locked_high: u64,
    total_allocation: u64,
    share_bps: u16,
)
    requires
        locked_low <= locked_high,
        share_bps <= 10000,
    ensures
        investor_portion(claimed as int, locked_low as int, total_allocation as int, share_bps as int)
            <= investor_portion(
            claimed as int,
            locked_high as int,
            total_allocation as int,
            share_bps as int,
        ),
{
    if total_allocation != 0 && claimed != 0 {
        let a = total_allocation as int;
        vstd::arithmetic::div_mod::lemma_div_is_ordered(
            locked_low as int * 10000,
            locked_high as int * 10000,
            a,
        );
        let e1 = eligible_share_bps(locked_low as int, a, share_bps as int);
        let e2 = eligible_share_bps(locked_high as int, a, share_bps as int);
        assert(e1 <= e2);
        assert(claimed as int * e1 <= claimed as int * e2) by (nonlinear_arith)
            requires
                0 <= claimed,
                e1 <= e2,
        ;
        vstd::arithmetic::div_mod::lemma_div_is_ordered(
            claimed as int * e1,
            claimed as int * e2,
            10000,
        );
    }
}

/// A weight never exceeds `WEIGHT_PRECISION` when the investor's locked amount is part of
/// the total.
pub proof fn lemma_weight_bounded(locked: u64, total_locked: u64)
    requires
        locked <= total_locked,
    ensures
        0 <= weight_of(locked as int, total_locked as int) <= WEIGHT_PRECISION,
{
    if total_locked != 0 {
        let t = total_locked as int;
        assert(locked as int * 1_000_000 <= t * 1_000_000);
        vstd::arithmetic::div_mod::lemma_div_is_ordered(locked as int * 1_000_000, t * 1_000_000, t);
        vstd::arithmetic::div_mod::lemma_div_by_multiple(1_000_000, t);
        vstd::arithmetic::div_mod::lemma_div_pos_is_pos(locked as int * 1_000_000, t);
        vstd::arithmetic::mul::lemma_mul_is_commutative(1_000_000, t);
    }
}

/// Splits a claimed amount between investors and the creator.
///
/// Investors get `eligible_share_bps` of the claim, rounded down; the creator gets the rest.
pub fn calculate_distribution(
    claimed_quote: u64,
    locked_total: u64,
    y0_total: u64,
    investor_fee_share_bps: u16,
) -> (r: Result<(u64, u64), ErrorCode>)
    ensures
        match r {
            Ok((investor, creator)) => {
                &&& investor_fee_share_bps <= 10000
                &&& investor == investor_portion(
                    claimed_quote as int,
                    locked_total as int,
                    y0_total as int,
                    investor_fee_share_bps as int,
                )
                &&& creator == claimed_quote - investor
                &&& investor + creator == claimed_quote
            },
            Err(e) => investor_fee_share_bps > 10000 && e == ErrorCode::InvalidInvestorFeeShare,
        },
{
    if investor_fee_share_bps > MAX_BASIS_POINTS {
        return Err(ErrorCode::InvalidInvestorFeeShare);
    }
    if y0_total == 0 || claimed_quote == 0 {
        return Ok((0, claimed_quote));
    }
    let f_locked: u128 = (locked_total as u128) * 10000 / (y0_total as u128);
    let eligible: u128 = if (investor_fee_share_bps as u128) <= f_locked {
        investor_fee_share_bps as u128
    } else {
        f_locked
    };
    proof {
        lemma_portion_bounds(claimed_quote as int, eligible as int);
    }
    let investor: u128 = (claimed_quote as u128) * eligible / 10000;
    let creator: u128 = (claimed_quote as u128) - investor;
    Ok((investor as u64, creator as u64))
}

/// The weight of an investor with `investor_locked` out of `total_locked`; zero when nothing
/// is locked.
pub fn calculate_investor_weight(investor_locked: u64, total_locked: u64) -> (r: Result<
    u128,
    ErrorCode,
>)
    ensures
        r matches Ok(w) && w == weight_of(investor_locked as int, total_locked as int),
        investor_locked <= total_locked ==> (r matches Ok(w) && w <= WEIGHT_PRECISION),
{
    if total_locked == 0 {
        return Ok(0);
    }
    proof {
        lemma_weight_bounded(0, total_locked);
        if investor_locked <= total_locked {
            lemma_weight_bounded(investor_locked, total_locked);
        }
    }
    Ok((investor_locked as u128) * 1_000_000 / (total_locked as u128))
}

/// One investor's payout and dust: `raw = amount * weight / WEIGHT_PRECISION`, paid when it
/// reaches `min_payout`, kept as dust otherwise.
pub fn calculate_individual_payout(
    total_investor_amount: u64,
    investor_weight: u128,
    min_payout: u64,
) -> (r: Result<(u64, u64), ErrorCode>)
    ensures
        match r {
            Ok((payout, dust)) => {
                let raw = raw_payout(total_investor_amount as int, investor_weight as int);
                &&& raw <= u64::MAX
                &&& (payout as int, dust as int) == payout_and_dust(raw, min_payout as int)
            },
            Err(e) => {
                &&& raw_payout(total_investor_amount as int, investor_weight as int) > u64::MAX
                &&& e == ErrorCode::ArithmeticOverflow
            },
        },
{
    let product = match (total_investor_amount as u128).checked_mul(investor_weight) {
        Some(p) => p,
        None => {
            return Err(ErrorCode::ArithmeticOverflow);
        },
    };
    let raw = product / WEIGHT_PRECISION;
    if raw > u64::MAX as u128 {
        return Err(ErrorCode::ArithmeticOverflow);
    }
    let raw = raw as u64;
    if raw < min_payout {
        return Ok((0, raw));
    }
    Ok((raw, 0))
}

/// Sum of the payouts that the investors of `inv` are owed, before any clamping.
pub open spec fn paid_sum(inv: Seq<(u64, u128)>, amount: int, min_payout: int) -> int
    decreases inv.len(),
{
    if inv.len() == 0 {
        0
    } else {
        paid_sum(inv.drop_last(), amount, min_payout) + payout_and_dust(
            raw_payout(amount, inv.last().1 as int),
            min_payout,
        ).0
    }
}

/// Sum of the below-threshold amounts of the investors of `inv`.
pub open spec fn dust_sum(inv: Seq<(u64, u128)>, amount: int, min_payout: int) -> int
    decreases inv.len(),
{
    if inv.len() == 0 {
        0
    } else {
        dust_sum(inv.drop_last(), amount, min_payout) + payout_and_dust(
            raw_payout(amount, inv.last().1 as int),
            min_payout,
        ).1
    }
}

/// Sum of the raw shares of the investors of `inv`.
pub open spec fn raw_sum(inv: Seq<(u64, u128)>, amount: int) -> int
    decreases inv.len(),
{
    if inv.len() == 0 {
        0
    } else {
        raw_sum(inv.drop_last(), amount) + raw_payout(amount, inv.last().1 as int)
    }
}

/// Every raw share of `inv` fits in a `u64`.
pub open spec fn all_payouts_fit(inv: Seq<(u64, u128)>, amount: int) -> bool {
    forall|i: int| 0 <= i < inv.len() ==> #[trigger] raw_payout(amount, inv[i].1 as int) <= u64::MAX
}

/// Above this much carried dust a batch pays nothing and keeps the whole amount as dust.
pub open spec fn carry_ceiling() -> int {
    u64::MAX as int / 2
}

/// The outcome of a batch: `Some((paid, dust))`, or `None` where a sum of payouts does not fit
/// in a `u64`.
///
/// With the carried dust at the ceiling the batch pays nothing and keeps the whole amount as
/// dust, `(0, amount)`. Otherwise the paid total is clamped to `amount` and what it overshot
/// becomes dust; whatever of `amount` is neither paid nor counted as dust (rounding loss) is
/// added to the dust as well. Should that dust, added to the carry, not fit in a `u64`, the
/// batch falls back to `(0, amount)` too, so that it never fails on account of the carry.
pub open spec fn batch_result(
    inv: Seq<(u64, u128)>,
    amount: int,
    min_payout: int,
    carry: int,
) -> Option<(int, int)> {
    if carry >= carry_ceiling() {
        Some((0, amount))
    } else if !all_payouts_fit(inv, amount) {
        None
    } else {
        let paid = paid_sum(inv, amount, min_payout);
        let loop_dust = dust_sum(inv, amount, min_payout);
        let adjusted = min_int(paid, amount);
        let loop_dust2 = loop_dust + (paid - adjusted);
        let remainder = amount - adjusted;
        let unmatched = if remainder > loop_dust2 {
            remainder - loop_dust2
        } else {
            0
        };
        let total_dust = carry + loop_dust2 + unmatched;
        if paid > u64::MAX || loop_dust > u64::MAX || loop_dust2 > u64::MAX {
            None
        } else if total_dust > u64::MAX {
            Some((0, amount))
        } else {
            Some((adjusted, total_dust))
        }
    }
}

proof fn lemma_sums_step(inv: Seq<(u64, u128)>, i: int, amount: int, min_payout: int)
    requires
        0 <= i < inv.len(),
    ensures
        paid_sum(inv.subrange(0, i + 1), amount, min_payout) == paid_sum(
            inv.subrange(0, i),
            amount,
            min_payout,
        ) + payout_and_dust(raw_payout(amount, inv[i].1 as int), min_payout).0,
        dust_sum(inv.subrange(0, i + 1), amount, min_payout) == dust_sum(
            inv.subrange(0, i),
            amount,
            min_payout,
        ) + payout_and_dust(raw_payout(amount, inv[i].1 as int), min_payout).1,
        raw_sum(inv.subrange(0, i + 1), amount) == raw_sum(inv.subrange(0, i), amount)
            + raw_payout(amount, inv[i].1 as int),
{
    assert(inv.subrange(0, i + 1).drop_last() =~= inv.subrange(0, i));
}

pub proof fn lemma_sums_prefix(inv: Seq<(u64, u128)>, k: int, amount: int, min_payout: int)
    requires
        0 <= k <= inv.len(),
        0 <= amount,
        0 <= min_payout,
    ensures
        paid_sum(inv.subrange(0, k), amount, min_payout) <= paid_sum(inv, amount, min_payout),
        dust_sum(inv.subrange(0, k), amount, min_payout) <= dust_sum(inv, amount, min_payout),
        0 <= paid_sum(inv.subrange(0, k), amount, min_payout),
        0 <= dust_sum(inv.subrange(0, k), amount, min_payout),
    decreases inv.len() - k,
{
    lemma_sums_nonneg(inv.subrange(0, k), amount, min_payout);
    if k == inv.len() {
        assert(inv.subrange(0, k) =~= inv);
        lemma_sums_nonneg(inv, amount, min_payout);
    } else {
        lemma_sums_prefix(inv, k + 1, amount, min_payout);
        lemma_sums_step(inv, k, amount, min_payout);
        vstd::arithmetic::div_mod::lemma_div_pos_is_pos(
            amount * (inv[k].1 as int),
            1_000_000,
        );
        assert(0 <= amount * (inv[k].1 as int)) by (nonlinear_arith)
            requires
                0 <= amount,
                0 <= inv[k].1,
        ;
    }
}

proof fn lemma_sums_nonneg(inv: Seq<(u64, u128)>, amount: int, min_payout: int)
    requires
        0 <= amount,
        0 <= min_payout,
    ensures
        0 <= paid_sum(inv, amount, min_payout),
        0 <= dust_sum(inv, amount, min_payout),
        paid_sum(inv, amount, min_payout) + dust_sum(inv, amount, min_payout) == raw_sum(
            inv,
            amount,
        ),
    decreases inv.len(),
{
    if inv.len() > 0 {
        lemma_sums_nonneg(inv.drop_last(), amount, min_payout);
        assert(0 <= amount * (inv.last().1 as int)) by (nonlinear_arith)
            requires
                0 <= amount,
                0 <= inv.last().1,
        ;
        vstd::arithmetic::div_mod::lemma_div_pos_is_pos(
            amount * (inv.last().1 as int),
            1_000_000,
        );
    }
}

/// Pays a batch of investors out of `total_investor_amount`.
///
/// Each `(locked, weight)` pair gets `calculate_individual_payout`; the paid total is clamped to
/// the amount, and the dust returned adds `carry_over_dust`, the below-threshold shares, the
/// overshoot and the rounding loss. When `carry_over_dust` is already near the top of the `u64`
/// range, or the dust it would return does not fit in a `u64`, the batch pays nothing and
/// returns the whole amount as dust. Weights that add up to at most `WEIGHT_PRECISION`, as
/// those of one investor set do, never make it fail.
pub fn calculate_batch_payout(
    investors: &[(u64, u128)],
    total_investor_amount: u64,
    min_payout: u64,
    carry_over_dust: u64,
) -> (r: Result<(u64, u64), ErrorCode>)
    ensures
        match r {
            Ok((paid, dust)) => batch_result(
                investors@,
                total_investor_amount as int,
                min_payout as int,
                carry_over_dust as int,
            ) == Some((paid as int, dust as int)),
            Err(e) => batch_result(
                investors@,
                total_investor_amount as int,
                min_payout as int,
                carry_over_dust as int,
            ) is None && e == ErrorCode::ArithmeticOverflow,
        },
        weight_sum(investors@) <= WEIGHT_PRECISION ==> r is Ok,
{
    proof {
        if weight_sum(investors@) <= WEIGHT_PRECISION {
            lemma_batch_conservation_for_weights(
                investors@,
                total_investor_amount,
                min_payout,
                carry_over_dust,
            );
        }
    }
    if carry_over_dust >= u64::MAX / 2 {
        return Ok((0, total_investor_amount));
    }
    let ghost inv = investors@;
    let ghost amount = total_investor_amount as int;
    let ghost minp = min_payout as int;
    let mut total_paid: u64 = 0;
    let mut loop_dust: u64 = 0;
    let mut i: usize = 0;
    while i < investors.len()
        invariant
            inv == investors@,
            amount == total_investor_amount,
            minp == min_payout,
            carry_over_dust < u64::MAX / 2,
            weight_sum(inv) <= WEIGHT_PRECISION ==> batch_result(
                inv,
                amount,
                minp,
                carry_over_dust as int,
            ) is Some,
            0 <= i <= inv.len(),
            forall|j: int| 0 <= j < i ==> #[trigger] raw_payout(amount, inv[j].1 as int) <= u64::MAX,
            total_paid == paid_sum(inv.subrange(0, i as int), amount, minp),
            loop_dust == dust_sum(inv.subrange(0, i as int), amount, minp),
        decreases inv.len() - i,
    {
        let weight = investors[i].1;
        assert(inv[i as int].1 == weight);
        proof {
            lemma_sums_step(inv, i as int, amount, minp);
        }
        let (payout, dust) = match calculate_individual_payout(
            total_investor_amount,
            weight,
            min_payout,
        ) {
            Ok(pd) => pd,
            Err(e) => {
                assert(!all_payouts_fit(inv, amount));
                return Err(e);
            },
        };
        total_paid = match total_paid.checked_add(payout) {
            Some(v) => v,
            None => {
                proof {
                    lemma_sums_prefix(inv, i + 1, amount, minp);
                }
                return Err(ErrorCode::ArithmeticOverflow);
            },
        };
        loop_dust = match loop_dust.checked_add(dust) {
            Some(v) => v,
            None => {
                proof {
                    lemma_sums_prefix(inv, i + 1, amount, minp);
                }
                return Err(ErrorCode::ArithmeticOverflow);
            },
        };
        i = i + 1;
    }
    proof {
        assert(inv.subrange(0, inv.len() as int) =~= inv);
        assert(all_payouts_fit(inv, amount));
    }
    let (adjusted_paid, overshoot) = if total_paid > total_investor_amount {
        (total_investor_amount, total_paid - total_investor_amount)
    } else {
        (total_paid, 0)
    };
    if overshoot > 0 {
        loop_dust = match loop_dust.checked_add(overshoot) {
            Some(v) => v,
            None => {
                return Err(ErrorCode::ArithmeticOverflow);
            },
        };
    }
    let remainder = total_investor_amount - adjusted_paid;
    let unmatched_distribution = remainder.saturating_sub(loop_dust);
    let with_carry = match carry_over_dust.checked_add(loop_dust) {
        Some(v) => v,
        None => {
            return Ok((0, total_investor_amount));
        },
    };
    let total_dust = match with_carry.checked_add(unmatched_distribution) {
        Some(v) => v,
        None => {
            return Ok((0, total_investor_amount));
        },
    };
    Ok((adjusted_paid, total_dust))
}

/// Sum of the weights of `inv`.
pub open spec fn weight_sum(inv: Seq<(u64, u128)>) -> int
    decreases inv.len(),
{
    if inv.len() == 0 {
        0
    } else {
        weight_sum(inv.drop_last()) + inv.last().1
    }
}

proof fn lemma_raw_sum_scaled(inv: Seq<(u64, u128)>, amount: int)
    requires
        0 <= amount,
    ensures
        1_000_000 * raw_sum(inv, amount) <= amount * weight_sum(inv),
        0 <= weight_sum(inv),
    decreases inv.len(),
{
    if inv.len() > 0 {
        let d = inv.drop_last();
        let w = inv.last().1 as int;
        lemma_raw_sum_scaled(d, amount);
        assert(0 <= amount * w) by (nonlinear_arith)
            requires
                0 <= amount,
                0 <= w,
        ;
        vstd::arithmetic::div_mod::lemma_fundamental_div_mod(amount * w, 1_000_000);
        vstd::arithmetic::div_mod::lemma_mod_pos_bound(amount * w, 1_000_000);
        vstd::arithmetic::mul::lemma_mul_is_distributive_add(amount, weight_sum(d), w);
    }
}

/// When the weights of a batch add up to at most `WEIGHT_PRECISION`, as the weights of one
/// investor set do, the raw shares add up to at most the amount, so that batch conservation
/// applies.
pub proof fn lemma_raw_sum_within_amount(investors: Seq<(u64, u128)>, total_investor_amount: u64)
    requires
        weight_sum(investors) <= WEIGHT_PRECISION,
    ensures
        raw_sum(investors, total_investor_amount as int) <= total_investor_amount,
{
    let a = total_investor_amount as int;
    lemma_raw_sum_scaled(investors, a);
    assert(a * weight_sum(investors) <= a * 1_000_000) by (nonlinear_arith)
        requires
            0 <= a,
            weight_sum(investors) <= 1_000_000,
    ;
}

proof fn lemma_raw_le_sum(inv: Seq<(u64, u128)>, amount: int, i: int)
    requires
        0 <= amount,
        0 <= i < inv.len(),
    ensures
        raw_payout(amount, inv[i].1 as int) <= raw_sum(inv, amount),
    decreases inv.len(),
{
    let d = inv.drop_last();
    lemma_raw_sum_nonneg(d, amount);
    assert(0 <= amount * (inv.last().1 as int)) by (nonlinear_arith)
        requires
            0 <= amount,
            0 <= inv.last().1,
    ;
    vstd::arithmetic::div_mod::lemma_div_pos_is_pos(amount * (inv.last().1 as int), 1_000_000);
    if i < inv.len() - 1 {
        lemma_raw_le_sum(d, amount, i);
        assert(d[i] == inv[i]);
    }
}

proof fn lemma_raw_sum_nonneg(inv: Seq<(u64, u128)>, amount: int)
    requires
        0 <= amount,
    ensures
        0 <= raw_sum(inv, amount),
    decreases inv.len(),
{
    if inv.len() > 0 {
        lemma_raw_sum_nonneg(inv.drop_last(), amount);
        assert(0 <= amount * (inv.last().1 as int)) by (nonlinear_arith)
            requires
                0 <= amount,
                0 <= inv.last().1,
        ;
        vstd::arithmetic::div_mod::lemma_div_pos_is_pos(
            amount * (inv.last().1 as int),
            1_000_000,
        );
    }
}

/// Batch conservation: with the carry below the ceiling and raw shares that add up to no more
/// than the amount, wherever the new dust fits in a `u64` (the carry plus the unpaid part of
/// the amount), the batch succeeds, and what it pays plus the dust it adds beyond the carry is
/// exactly the amount.
pub proof fn lemma_batch_conservation(
    investors: Seq<(u64, u128)>,
    total_investor_amount: u64,
    min_payout: u64,
    carry_over_dust: u64,
)
    requires
        carry_over_dust < carry_ceiling(),
        raw_sum(investors, total_investor_amount as int) <= total_investor_amount,
        carry_over_dust + total_investor_amount - paid_sum(
            investors,
            total_investor_amount as int,
            min_payout as int,
        ) <= u64::MAX,
    ensures
        batch_result(
            investors,
            total_investor_amount as int,
            min_payout as int,
            carry_over_dust as int,
        ) matches Some((paid, dust)) && paid + (dust - carry_over_dust) == total_investor_amount,
{
    lemma_batch_succeeds(investors, total_investor_amount, min_payout, carry_over_dust);
    lemma_sums_nonneg(investors, total_investor_amount as int, min_payout as int);
}

/// With raw shares that add up to no more than the amount, a batch never fails.
proof fn lemma_batch_succeeds(
    investors: Seq<(u64, u128)>,
    total_investor_amount: u64,
    min_payout: u64,
    carry_over_dust: u64,
)
    requires
        raw_sum(investors, total_investor_amount as int) <= total_investor_amount,
    ensures
        batch_result(
            investors,
            total_investor_amount as int,
            min_payout as int,
            carry_over_dust as int,
        ) is Some,
{
    let a = total_investor_amount as int;
    lemma_sums_nonneg(investors, a, min_payout as int);
    assert forall|i: int| 0 <= i < investors.len() implies #[trigger] raw_payout(
        a,
        investors[i].1 as int,
    ) <= u64::MAX by {
        lemma_raw_le_sum(investors, a, i);
    }
}

/// Batch conservation for one investor set: when the weights add up to at most
/// `WEIGHT_PRECISION` the batch never fails; with the carry below the ceiling and the new dust
/// fitting in a `u64`, what it pays plus the dust it adds beyond the carry is exactly the
/// amount.
pub proof fn lemma_batch_conservation_for_weights(
    investors: Seq<(u64, u128)>,
    total_investor_amount: u64,
    min_payout: u64,
    carry_over_dust: u64,
)
    requires
        weight_sum(investors) <= WEIGHT_PRECISION,
    ensures
        batch_result(
            investors,
            total_investor_amount as int,
            min_payout as int,
            carry_over_dust as int,
        ) is Some,
        carry_over_dust < carry_ceiling() && carry_over_dust + total_investor_amount - paid_sum(
            investors,
            total_investor_amount as int,
            min_payout as int,
        ) <= u64::MAX ==> (batch_result(
            investors,
            total_investor_amount as int,
            min_payout as int,
            carry_over_dust as int,
        ) matches Some((paid, dust)) && paid + (dust - carry_over_dust) == total_investor_amount),
{
    lemma_raw_sum_within_amount(investors, total_investor_amount);
    lemma_batch_succeeds(investors, total_investor_amount, min_payout, carry_over_dust);
    if carry_over_dust < carry_ceiling() && carry_over_dust + total_investor_amount - paid_sum(
        investors,
        total_investor_amount as int,
        min_payout as int,
    ) <= u64::MAX {
        lemma_batch_conservation(investors, total_investor_amount, min_payout, carry_over_dust);
    }
}

/// A carry at or above the ceiling makes the batch keep the whole amount as dust, without
/// failing.
pub proof fn lemma_batch_near_overflow(
    investors: Seq<(u64, u128)>,
    total_investor_amount: u64,
    min_payout: u64,
    carry_over_dust: u64,
)
    requires
        carry_over_dust >= carry_ceiling(),
    ensures
        batch_result(
            investors,
            total_investor_amount as int,
            min_payout as int,
            carry_over_dust as int,
        ) == Some((0int, total_investor_amount as int)),
{
}

/// Sum of a sequence of amounts.
pub open spec fn sum_u64(s: Seq<u64>) -> int
    decreases s.len(),
{
    if s.len() == 0 {
        0
    } else {
        sum_u64(s.drop_last()) + s.last()
    }
}

/// Sum of a sequence of weights.
pub open spec fn sum_u128(s: Seq<u128>) -> int
    decreases s.len(),
{
    if s.len() == 0 {
        0
    } else {
        sum_u128(s.drop_last()) + s.last()
    }
}

proof fn lemma_sum_u64_prefix(s: Seq<u64>, k: int)
    requires
        0 <= k <= s.len(),
    ensures
        0 <= sum_u64(s.subrange(0, k)) <= sum_u64(s),
    decreases s.len() - k,
{
    lemma_sum_u64_nonneg(s.subrange(0, k));
    if k == s.len() {
        assert(s.subrange(0, k) =~= s);
    } else {
        lemma_sum_u64_prefix(s, k + 1);
        assert(s.subrange(0, k + 1).drop_last() =~= s.subrange(0, k));
    }
}

proof fn lemma_sum_u64_nonneg(s: Seq<u64>)
    ensures
        0 <= sum_u64(s),
    decreases s.len(),
{
    if s.len() > 0 {
        lemma_sum_u64_nonneg(s.drop_last());
    }
}

proof fn lemma_sum_u128_prefix(s: Seq<u128>, k: int)
    requires
        0 <= k <= s.len(),
    ensures
        0 <= sum_u128(s.subrange(0, k)) <= sum_u128(s),
    decreases s.len() - k,
{
    lemma_sum_u128_nonneg(s.subrange(0, k));
    if k == s.len() {
        assert(s.subrange(0, k) =~= s);
    } else {
        lemma_sum_u128_prefix(s, k + 1);
        assert(s.subrange(0, k + 1).drop_last() =~= s.subrange(0, k));
    }
}

proof fn lemma_sum_u128_nonneg(s: Seq<u128>)
    ensures
        0 <= sum_u128(s),
    decreases s.len(),
{
    if s.len() > 0 {
        lemma_sum_u128_nonneg(s.drop_last());
    }
}

/// Adds up locked amounts; fails when the total does not fit in a `u64`.
pub fn calculate_total_locked(investors: &[u64]) -> (r: Result<u64, ErrorCode>)
    ensures
        match r {
            Ok(total) => total == sum_u64(investors@),
            Err(e) => sum_u64(investors@) > u64::MAX && e == ErrorCode::ArithmeticOverflow,
        },
{
    let mut total: u64 = 0;
    let mut i: usize = 0;
    while i < investors.len()
        invariant
            0 <= i <= investors@.len(),
            total == sum_u64(investors@.subrange(0, i as int)),
        decreases investors@.len() - i,
    {
        proof {
            assert(investors@.subrange(0, i + 1).drop_last() =~= investors@.subrange(0, i as int));
        }
        total = match total.checked_add(investors[i]) {
            Some(v) => v,
            None => {
                proof {
                    lemma_sum_u64_prefix(investors@, i + 1);
                }
                return Err(ErrorCode::ArithmeticOverflow);
            },
        };
        i = i + 1;
    }
    assert(investors@.subrange(0, investors@.len() as int) =~= investors@);
    Ok(total)
}

/// The weight of each investor out of `total_locked`, in order.
pub fn calculate_all_weights(investors: &[u64], total_locked: u64) -> (r: Result<
    Vec<u128>,
    ErrorCode,
>)
    ensures
        r matches Ok(w) && w@.len() == investors@.len() && forall|i: int|
            0 <= i < investors@.len() ==> #[trigger] w@[i] == weight_of(
                investors@[i] as int,
                total_locked as int,
            ),
{
    let mut weights: Vec<u128> = Vec::new();
    let mut i: usize = 0;
    while i < investors.len()
        invariant
            0 <= i <= investors@.len(),
            weights@.len() == i,
            forall|j: int|
                0 <= j < i ==> #[trigger] weights@[j] == weight_of(
                    investors@[j] as int,
                    total_locked as int,
                ),
        decreases investors@.len() - i,
    {
        let w = match calculate_investor_weight(investors[i], total_locked) {
            Ok(w) => w,
            Err(e) => {
                return Err(e);
            },
        };
        weights.push(w);
        i = i + 1;
    }
    Ok(weights)
}

/// Whether weights add up to `WEIGHT_PRECISION` within one unit of rounding per weight.
pub open spec fn weight_sum_close(weights: Seq<u128>) -> bool {
    let total = sum_u128(weights);
    let diff = if total > 1_000_000 {
        total - 1_000_000
    } else {
        1_000_000 - total
    };
    diff <= weights.len()
}

/// Accepts weights whose sum is within `weights.len()` of `WEIGHT_PRECISION`.
pub fn verify_weight_sum(weights: &[u128]) -> (r: Result<(), ErrorCode>)
    ensures
        r == (if weight_sum_close(weights@) {
            Ok(())
        } else {
            Err(ErrorCode::ArithmeticOverflow)
        }),
{
    let mut total: u128 = 0;
    let mut i: usize = 0;
    while i < weights.len()
        invariant
            0 <= i <= weights@.len(),
            total == sum_u128(weights@.subrange(0, i as int)),
        decreases weights@.len() - i,
    {
        proof {
            assert(weights@.subrange(0, i + 1).drop_last() =~= weights@.subrange(0, i as int));
        }
        total = match total.checked_add(weights[i]) {
            Some(v) => v,
            None => {
                proof {
                    lemma_sum_u128_prefix(weights@, i + 1);
                }
                return Err(ErrorCode::ArithmeticOverflow);
            },
        };
        i = i + 1;
    }
    assert(weights@.subrange(0, weights@.len() as int) =~= weights@);
    let max_rounding_error = weights.len() as u128;
    let diff = if total > WEIGHT_PRECISION {
        total - WEIGHT_PRECISION
    } else {
        WEIGHT_PRECISION - total
    };
    if diff <= max_rounding_error {
        Ok(())
    } else {
        Err(ErrorCode::ArithmeticOverflow)
    }
}

/// How much of `requested` the daily cap still allows.
pub open spec fn cap_allowance(already: int, requested: int, daily_cap: Option<u64>) -> Result<
    int,
    ErrorCode,
> {
    match daily_cap {
        None => Ok(requested),
        Some(cap) => if already >= cap {
            Err(ErrorCode::DailyCapExceeded)
        } else {
            Ok(min_int(requested, cap - already))
        },
    }
}

/// Limits `additional_amount` to what the daily cap leaves in the current window; fails when
/// the window is already at or over its cap.
pub fn enforce_daily_cap(
    progress: &DistributionProgress,
    additional_amount: u64,
    daily_cap: Option<u64>,
) -> (r: Result<u64, ErrorCode>)
    ensures
        match r {
            Ok(a) => cap_allowance(
                progress.current_day_distributed as int,
                additional_amount as int,
                daily_cap,
            ) == Ok::<int, ErrorCode>(a as int),
            Err(e) => cap_allowance(
                progress.current_day_distributed as int,
                additional_amount as int,
                daily_cap,
            ) == Err::<int, ErrorCode>(e),
        },
{
    let cap = match daily_cap {
        None => {
            return Ok(additional_amount);
        },
        Some(c) => c,
    };
    if progress.current_day_distributed >= cap {
        return Err(ErrorCode::DailyCapExceeded);
    }
    let available_capacity = cap - progress.current_day_distributed;
    if additional_amount <= available_capacity {
        Ok(additional_amount)
    } else {
        Ok(available_capacity)
    }
}

/// Pays accumulated dust out in whole multiples of `min_payout` and keeps the rest.
pub fn calculate_dust_payout(accumulated_dust: u64, min_payout: u64) -> (r: (u64, u64))
    requires
        min_payout > 0,
    ensures
        r.0 == (accumulated_dust / min_payout) * min_payout,
        r.1 == accumulated_dust - r.0,
        r.1 < min_payout,
{
    proof {
        vstd::arithmetic::div_mod::lemma_fundamental_div_mod(
            accumulated_dust as int,
            min_payout as int,
        );
        vstd::arithmetic::mul::lemma_mul_is_commutative(
            min_payout as int,
            (accumulated_dust / min_payout) as int,
        );
    }
    if accumulated_dust >= min_payout {
        let payout_multiples = accumulated_dust / min_payout;
        let payout_amount = payout_multiples * min_payout;
        let remaining_dust = accumulated_dust - payout_amount;
        (payout_amount, remaining_dust)
    } else {
        proof {
            vstd::arithmetic::div_mod::lemma_basic_div(accumulated_dust as int, min_payout as int);
        }
        (0, accumulated_dust)
    }
}

/// Checks the parameters of a distribution: the share, the launch allocation and the minimum
/// payout, in that order.
pub fn validate_distribution_params(
    claimed_quote: u64,
    y0_total: u64,
    investor_fee_share_bps: u16,
    min_payout: u64,
) -> (r: Result<(), ErrorCode>)
    ensures
        r == (if investor_fee_share_bps > 10000 {
            Err(ErrorCode::InvalidInvestorFeeShare)
        } else if y0_total == 0 {
            Err(ErrorCode::InvalidY0TotalAllocation)
        } else if min_payout == 0 {
            Err(ErrorCode::InvalidMinPayoutThreshold)
        } else {
            Ok(())
        }),
{
    if investor_fee_share_bps > MAX_BASIS_POINTS {
        return Err(ErrorCode::InvalidInvestorFeeShare);
    }
    if y0_total == 0 {
        return Err(ErrorCode::InvalidY0TotalAllocation);
    }
    if min_payout == 0 {
        return Err(ErrorCode::InvalidMinPayoutThreshold);
    }
    Ok(())
}

} // verus!
