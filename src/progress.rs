use vstd::prelude::*;

use crate::constants::TWENTY_FOUR_HOURS;
use crate::error::ErrorCode;
use crate::key::AccountKey;

verus! {

/// What a call to the crank may do at a given time.
#[derive(Debug, Clone, Copy, PartialEq, Eq, Structural)]
pub enum DistributionTimingState {
    /// A new 24-hour window starts.
    NewDay,
    /// Pages of the current window go on.
    ContinueSameDay,
}

/// A snapshot of the timing state, for monitoring.
#[derive(Debug, Clone, Copy)]
pub struct DistributionPeriodInfo {
    pub last_distribution_ts: i64,
    pub current_timestamp: i64,
    pub time_until_next: i64,
    pub can_start_new_day: bool,
    pub is_same_day: bool,
    pub day_complete: bool,
    pub pagination_cursor: u32,
}

/// The progress ledger of one vault: the current window, what it has paid, the dust carried
/// forward and the pagination cursor.
#[derive(Debug, Clone, Copy)]
pub struct DistributionProgress {
    /// The vault this ledger belongs to.
    pub vault: AccountKey,
    /// Start of the current window; zero before the first distribution.
    pub last_distribution_ts: i64,
    /// Amount paid to investors in the current window.
    pub current_day_distributed: u64,
    /// Dust carried forward to later pages and windows.
    pub carry_over_dust: u64,
    /// Index of the next investor to process.
    pub pagination_cursor: u32,
    /// Whether the creator has been paid and the window closed.
    pub day_complete: bool,
    pub bump: u8,
}

pub open spec fn day_seconds() -> int {
    86400
}

impl DistributionProgress {
    /// Size of the persisted record: the vault key, the window start, the window total, the
    /// dust, the cursor, the completion flag and the bump.
    pub const INIT_SPACE: usize = 32 + 8 + 8 + 8 + 4 + 1 + 1;

    /// No distribution has ever run.
    pub open spec fn never_run(&self) -> bool {
        self.last_distribution_ts == 0
    }

    /// Seconds since the start of the current window.
    pub open spec fn elapsed(&self, now: i64) -> int {
        now - self.last_distribution_ts
    }

    pub open spec fn new_day_allowed(&self, now: i64) -> bool {
        self.never_run() || self.elapsed(now) >= day_seconds()
    }

    pub open spec fn within_day(&self, now: i64) -> bool {
        !self.never_run() && 0 <= self.elapsed(now) < day_seconds()
    }

    /// The timing decision at `now`.
    pub open spec fn timing(&self, now: i64) -> Result<DistributionTimingState, ErrorCode> {
        if self.new_day_allowed(now) {
            Ok(DistributionTimingState::NewDay)
        } else if self.within_day(now) && !self.day_complete {
            Ok(DistributionTimingState::ContinueSameDay)
        } else if self.within_day(now) {
            Err(ErrorCode::DayAlreadyComplete)
        } else {
            Err(ErrorCode::CooldownNotElapsed)
        }
    }

    /// The ledger after a new window opens at `now`: the cursor, the window total and the
    /// completion flag are reset; the dust is kept.
    pub open spec fn opened_at(self, now: i64) -> DistributionProgress {
        DistributionProgress {
            last_distribution_ts: now,
            current_day_distributed: 0,
            pagination_cursor: 0,
            day_complete: false,
            ..self
        }
    }

    /// Resets the ledger of `vault` to its never-run state.
    pub fn initialize(&mut self, vault: AccountKey, bump: u8) -> (r: Result<(), ErrorCode>)
        ensures
            r is Ok,
            *final(self) == (DistributionProgress {
                vault,
                last_distribution_ts: 0,
                current_day_distributed: 0,
                carry_over_dust: 0,
                pagination_cursor: 0,
                day_complete: false,
                bump,
            }),
    {
        self.vault = vault;
        self.last_distribution_ts = 0;
        self.current_day_distributed = 0;
        self.carry_over_dust = 0;
        self.pagination_cursor = 0;
        self.day_complete = false;
        self.bump = bump;
        Ok(())
    }

    /// Whether a new window may open at `current_timestamp`: never run, or 24 hours passed.
    pub fn can_start_new_day(&self, current_timestamp: i64) -> (r: bool)
        ensures
            r == self.new_day_allowed(current_timestamp),
    {
        self.last_distribution_ts == 0 || (current_timestamp as i128) - (
        self.last_distribution_ts as i128) >= TWENTY_FOUR_HOURS as i128
    }

    /// Whether `current_timestamp` lies in the current window.
    pub fn is_same_day(&self, current_timestamp: i64) -> (r: bool)
        ensures
            r == self.within_day(current_timestamp),
    {
        if self.last_distribution_ts == 0 {
            return false;
        }
        let time_diff = (current_timestamp as i128) - (self.last_distribution_ts as i128);
        time_diff >= 0 && time_diff < TWENTY_FOUR_HOURS as i128
    }

    /// The end of the current window.
    pub fn get_day_boundary(&self) -> (r: i64)
        requires
            self.last_distribution_ts + day_seconds() <= i64::MAX,
        ensures
            r == self.last_distribution_ts + day_seconds(),
    {
        self.last_distribution_ts + TWENTY_FOUR_HOURS
    }

    /// Whether pages of the current window may go on at `current_timestamp`.
    pub fn can_continue_same_day(&self, current_timestamp: i64) -> (r: bool)
        ensures
            r == (self.within_day(current_timestamp) && !self.day_complete),
    {
        self.is_same_day(current_timestamp) && !self.day_complete
    }

    /// The timing decision: a new window, more pages of the current one, or why neither.
    pub fn validate_distribution_timing(&self, current_timestamp: i64) -> (r: Result<
        DistributionTimingState,
        ErrorCode,
    >)
        ensures
            r == self.timing(current_timestamp),
    {
        if self.can_start_new_day(current_timestamp) {
            Ok(DistributionTimingState::NewDay)
        } else if self.can_continue_same_day(current_timestamp) {
            Ok(DistributionTimingState::ContinueSameDay)
        } else if self.is_same_day(current_timestamp) && self.day_complete {
            Err(ErrorCode::DayAlreadyComplete)
        } else {
            Err(ErrorCode::CooldownNotElapsed)
        }
    }

    /// Opens a new window at `current_timestamp`, when one may open.
    pub fn start_new_day(&mut self, current_timestamp: i64) -> (r: Result<(), ErrorCode>)
        ensures
            old(self).new_day_allowed(current_timestamp) ==> r is Ok && *final(self) == old(
                self,
            ).opened_at(current_timestamp),
            !old(self).new_day_allowed(current_timestamp) ==> r == Err::<(), ErrorCode>(
                ErrorCode::CooldownNotElapsed,
            ) && *final(self) == *old(self),
    {
        if !self.can_start_new_day(current_timestamp) {
            return Err(ErrorCode::CooldownNotElapsed);
        }
        self.last_distribution_ts = current_timestamp;
        self.current_day_distributed = 0;
        self.pagination_cursor = 0;
        self.day_complete = false;
        Ok(())
    }

    /// Whether paying `additional_amount` more keeps the window within `daily_cap`.
    pub fn check_daily_cap(&self, additional_amount: u64, daily_cap: Option<u64>) -> (r: Result<
        (),
        ErrorCode,
    >)
        ensures
            r == (match daily_cap {
                None => Ok(()),
                Some(cap) => if self.current_day_distributed + additional_amount > u64::MAX {
                    Err(ErrorCode::ArithmeticOverflow)
                } else if self.current_day_distributed + additional_amount > cap {
                    Err(ErrorCode::DailyCapExceeded)
                } else {
                    Ok(())
                },
            }),
    {
        if let Some(cap) = daily_cap {
            let new_total = match self.current_day_distributed.checked_add(additional_amount) {
                Some(v) => v,
                None => {
                    return Err(ErrorCode::ArithmeticOverflow);
                },
            };
            if new_total > cap {
                return Err(ErrorCode::DailyCapExceeded);
            }
        }
        Ok(())
    }

    /// Adds `amount` to what the window has paid.
    pub fn add_distributed(&mut self, amount: u64) -> (r: Result<(), ErrorCode>)
        ensures
            old(self).current_day_distributed + amount <= u64::MAX ==> r is Ok && *final(self)
                == (DistributionProgress {
                current_day_distributed: (old(self).current_day_distributed + amount) as u64,
                ..*old(self)
            }),
            old(self).current_day_distributed + amount > u64::MAX ==> r == Err::<(), ErrorCode>(
                ErrorCode::ArithmeticOverflow,
            ) && *final(self) == *old(self),
    {
        match self.current_day_distributed.checked_add(amount) {
            Some(v) => {
                self.current_day_distributed = v;
                Ok(())
            },
            None => Err(ErrorCode::ArithmeticOverflow),
        }
    }

    /// Moves the cursor to `new_cursor`, never backwards.
    pub fn update_cursor(&mut self, new_cursor: u32) -> (r: Result<(), ErrorCode>)
        ensures
            new_cursor >= old(self).pagination_cursor ==> r is Ok && *final(self) == (
            DistributionProgress { pagination_cursor: new_cursor, ..*old(self) }),
            new_cursor < old(self).pagination_cursor ==> r == Err::<(), ErrorCode>(
                ErrorCode::InvalidPaginationCursor,
            ) && *final(self) == *old(self),
    {
        if new_cursor < self.pagination_cursor {
            return Err(ErrorCode::InvalidPaginationCursor);
        }
        self.pagination_cursor = new_cursor;
        Ok(())
    }

    /// Moves the cursor forward by `page_size` and returns its new value.
    pub fn advance_cursor(&mut self, page_size: u32) -> (r: Result<u32, ErrorCode>)
        ensures
            old(self).pagination_cursor + page_size <= u32::MAX ==> r == Ok::<u32, ErrorCode>(
                (old(self).pagination_cursor + page_size) as u32,
            ) && *final(self) == (DistributionProgress {
                pagination_cursor: (old(self).pagination_cursor + page_size) as u32,
                ..*old(self)
            }),
            old(self).pagination_cursor + page_size > u32::MAX ==> r == Err::<u32, ErrorCode>(
                ErrorCode::ArithmeticOverflow,
            ) && *final(self) == *old(self),
    {
        match self.pagination_cursor.checked_add(page_size) {
            Some(v) => {
                self.pagination_cursor = v;
                Ok(v)
            },
            None => Err(ErrorCode::ArithmeticOverflow),
        }
    }

    /// Whether the investor at `cursor_position` was already processed in this window.
    pub fn is_cursor_processed(&self, cursor_position: u32) -> (r: bool)
        ensures
            r == (cursor_position < self.pagination_cursor),
    {
        cursor_position < self.pagination_cursor
    }

    /// Classifies a requested cursor: `true` for a page already processed (a repeat, to be
    /// treated as done), `false` for the next page, an error for one ahead of the cursor.
    pub fn validate_cursor_for_retry(&self, requested_cursor: u32) -> (r: Result<
        bool,
        ErrorCode,
    >)
        ensures
            r == (if requested_cursor < self.pagination_cursor {
                Ok(true)
            } else if requested_cursor == self.pagination_cursor {
                Ok(false)
            } else {
                Err(ErrorCode::InvalidPaginationCursor)
            }),
    {
        if requested_cursor < self.pagination_cursor {
            Ok(true)
        } else if requested_cursor == self.pagination_cursor {
            Ok(false)
        } else {
            Err(ErrorCode::InvalidPaginationCursor)
        }
    }

    /// Moves the cursor back to `cursor_position`, for recovery after a partial failure.
    pub fn reset_cursor_to(&mut self, cursor_position: u32) -> (r: Result<(), ErrorCode>)
        ensures
            cursor_position <= old(self).pagination_cursor ==> r is Ok && *final(self) == (
            DistributionProgress { pagination_cursor: cursor_position, ..*old(self) }),
            cursor_position > old(self).pagination_cursor ==> r == Err::<(), ErrorCode>(
                ErrorCode::InvalidPaginationCursor,
            ) && *final(self) == *old(self),
    {
        if cursor_position > self.pagination_cursor {
            return Err(ErrorCode::InvalidPaginationCursor);
        }
        self.pagination_cursor = cursor_position;
        Ok(())
    }

    /// Closes the current window.
    pub fn complete_day(&mut self)
        ensures
            *final(self) == (DistributionProgress { day_complete: true, ..*old(self) }),
    {
        self.day_complete = true;
    }

    /// Adds `dust_amount` to the carried dust.
    pub fn add_dust(&mut self, dust_amount: u64) -> (r: Result<(), ErrorCode>)
        ensures
            old(self).carry_over_dust + dust_amount <= u64::MAX ==> r is Ok && *final(self) == (
            DistributionProgress {
                carry_over_dust: (old(self).carry_over_dust + dust_amount) as u64,
                ..*old(self)
            }),
            old(self).carry_over_dust + dust_amount > u64::MAX ==> r == Err::<(), ErrorCode>(
                ErrorCode::ArithmeticOverflow,
            ) && *final(self) == *old(self),
    {
        match self.carry_over_dust.checked_add(dust_amount) {
            Some(v) => {
                self.carry_over_dust = v;
                Ok(())
            },
            None => Err(ErrorCode::ArithmeticOverflow),
        }
    }

    /// Takes up to `amount` out of the carried dust and returns what was taken.
    pub fn consume_dust(&mut self, amount: u64) -> (r: Result<u64, ErrorCode>)
        ensures
            r matches Ok(c) && c == (if old(self).carry_over_dust <= amount {
                old(self).carry_over_dust
            } else {
                amount
            }) && *final(self) == (DistributionProgress {
                carry_over_dust: (old(self).carry_over_dust - c) as u64,
                ..*old(self)
            }),
    {
        let consumed = if self.carry_over_dust <= amount {
            self.carry_over_dust
        } else {
            amount
        };
        self.carry_over_dust = self.carry_over_dust - consumed;
        Ok(consumed)
    }

    /// Restarts the pages of the current window; its start and its total stay.
    pub fn reset_for_continuation(&mut self)
        ensures
            *final(self) == (DistributionProgress {
                pagination_cursor: 0,
                day_complete: false,
                ..*old(self)
            }),
    {
        self.pagination_cursor = 0;
        self.day_complete = false;
    }

    /// Seconds until a new window may open; zero when one may open now.
    pub fn time_until_next_distribution(&self, current_timestamp: i64) -> (r: i64)
        requires
            self.last_distribution_ts == 0 || self.last_distribution_ts + day_seconds()
                - current_timestamp <= i64::MAX,
        ensures
            r == (if self.new_day_allowed(current_timestamp) {
                0
            } else {
                self.last_distribution_ts + day_seconds() - current_timestamp
            }),
    {
        if self.last_distribution_ts == 0 {
            return 0;
        }
        let next_allowed = (self.last_distribution_ts as i128) + (TWENTY_FOUR_HOURS as i128);
        if (current_timestamp as i128) >= next_allowed {
            0
        } else {
            (next_allowed - (current_timestamp as i128)) as i64
        }
    }

    /// The timing decision at `current_timestamp`.
    pub fn can_distribute(&self, current_timestamp: i64) -> (r: Result<
        DistributionTimingState,
        ErrorCode,
    >)
        ensures
            r == self.timing(current_timestamp),
    {
        self.validate_distribution_timing(current_timestamp)
    }

    /// Takes the timing decision at `current_timestamp` and, for a new window, opens it.
    /// A continuing window and a refusal leave the ledger as it was.
    pub fn prepare_for_distribution(&mut self, current_timestamp: i64) -> (r: Result<
        DistributionTimingState,
        ErrorCode,
    >)
        ensures
            r == old(self).timing(current_timestamp),
            r == Ok::<DistributionTimingState, ErrorCode>(DistributionTimingState::NewDay)
                ==> *final(self) == old(self).opened_at(current_timestamp),
            r != Ok::<DistributionTimingState, ErrorCode>(DistributionTimingState::NewDay)
                ==> *final(self) == *old(self),
    {
        let timing_state = match self.validate_distribution_timing(current_timestamp) {
            Ok(t) => t,
            Err(e) => {
                return Err(e);
            },
        };
        match timing_state {
            DistributionTimingState::NewDay => {
                self.last_distribution_ts = current_timestamp;
                self.current_day_distributed = 0;
                self.pagination_cursor = 0;
                self.day_complete = false;
            },
            DistributionTimingState::ContinueSameDay => {},
        }
        Ok(timing_state)
    }

    /// Records that the page starting at `page_start` with `page_size` investors was
    /// processed; pages must come in order.
    pub fn mark_page_processed(&mut self, page_start: u32, page_size: u32) -> (r: Result<
        (),
        ErrorCode,
    >)
        ensures
            page_start != old(self).pagination_cursor ==> r == Err::<(), ErrorCode>(
                ErrorCode::InvalidPaginationCursor,
            ) && *final(self) == *old(self),
            page_start == old(self).pagination_cursor && page_start + page_size > u32::MAX ==> r
                == Err::<(), ErrorCode>(ErrorCode::ArithmeticOverflow) && *final(self) == *old(
                self,
            ),
            page_start == old(self).pagination_cursor && page_start + page_size <= u32::MAX ==> r
                is Ok && *final(self) == (DistributionProgress {
                pagination_cursor: (page_start + page_size) as u32,
                ..*old(self)
            }),
    {
        if page_start != self.pagination_cursor {
            return Err(ErrorCode::InvalidPaginationCursor);
        }
        match page_start.checked_add(page_size) {
            Some(v) => {
                self.pagination_cursor = v;
                Ok(())
            },
            None => Err(ErrorCode::ArithmeticOverflow),
        }
    }

    /// Whether a call at `current_timestamp` opens a new window.
    pub fn is_new_distribution_period(&self, current_timestamp: i64) -> (r: bool)
        ensures
            r == (self.timing(current_timestamp) == Ok::<DistributionTimingState, ErrorCode>(
                DistributionTimingState::NewDay,
            )),
    {
        match self.validate_distribution_timing(current_timestamp) {
            Ok(DistributionTimingState::NewDay) => true,
            _ => false,
        }
    }

    /// A snapshot of the timing state at `current_timestamp`.
    pub fn get_distribution_period_info(&self, current_timestamp: i64) -> (r:
        DistributionPeriodInfo)
        requires
            self.last_distribution_ts == 0 || self.last_distribution_ts + day_seconds()
                - current_timestamp <= i64::MAX,
        ensures
            r.last_distribution_ts == self.last_distribution_ts,
            r.current_timestamp == current_timestamp,
            r.time_until_next == (if self.new_day_allowed(current_timestamp) {
                0
            } else {
                self.last_distribution_ts + day_seconds() - current_timestamp
            }),
            r.can_start_new_day == self.new_day_allowed(current_timestamp),
            r.is_same_day == self.within_day(current_timestamp),
            r.day_complete == self.day_complete,
            r.pagination_cursor == self.pagination_cursor,
    {
        DistributionPeriodInfo {
            last_distribution_ts: self.last_distribution_ts,
            current_timestamp,
            time_until_next: self.time_until_next_distribution(current_timestamp),
            can_start_new_day: self.can_start_new_day(current_timestamp),
            is_same_day: self.is_same_day(current_timestamp),
            day_complete: self.day_complete,
            pagination_cursor: self.pagination_cursor,
        }
    }
}

} // verus!
