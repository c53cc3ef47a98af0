use vstd::prelude::*;

verus! {

/// Length of one distribution window, in seconds.
pub const TWENTY_FOUR_HOURS: i64 = 86400;

/// One hundred percent, in basis points.
pub const MAX_BASIS_POINTS: u16 = 10000;

/// Fixed-point scale of an investor weight.
pub const WEIGHT_PRECISION: u128 = 1_000_000;

/// Minimum payout used when a policy names none.
pub const DEFAULT_MIN_PAYOUT: u64 = 1000;

/// Largest number of investors handled in one page.
pub const MAX_PAGE_SIZE: u32 = 50;

} // verus!
