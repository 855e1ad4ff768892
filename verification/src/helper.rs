//! The schedule arithmetic: months elapsed and shares owed.

use vstd::prelude::*;
use crate::calendar::{
    month_count, months_between, timestamp_in_range, year_month, year_month_of, YearMonth,
};
use crate::errors::VestingErrors;

verus! {

/// A start time at or below this many seconds after the epoch is not
/// accepted as a real date.
pub const MIN_START_TIME: i64 = 100;

/// What the share calculation reads. All times are UNIX timestamps.
#[derive(Clone, Copy, Debug, PartialEq, Eq, Structural)]
pub struct ShareCalculateArg {
    /// The time of the calculation.
    pub current_unix_time: i64,
    /// When vesting began.
    pub start_date_unix_time: i64,
    /// When the last claim was taken; zero when none was.
    pub last_claim_unix_time: i64,
    /// Before the month after this one, nothing is owed.
    pub cliff_date_unix_time: i64,
    /// What is locked in the vault now.
    pub vault_total_amount: u64,
    /// The months the schedule runs over, fixed when the grant was made.
    pub total_period: u64,
}

/// What the share calculation finds.
#[derive(Clone, Copy, Debug, PartialEq, Eq, Structural)]
pub struct CalulateRes {
    /// Months from the start to the cliff.
    pub cliff_period: u32,
    /// Months from the start to the time of the calculation.
    pub total_months_completed: u32,
    /// Months from the start to the last claim; zero when there was none.
    pub recent_month_taken: u32,
    /// The amount owed.
    pub shares: u64,
}

/// The amount owed `elapsed` months after the start with the cliff `cliff`
/// months after the start, either of which may be negative: nothing up to
/// the cliff, then the locked amount divided by the period (rounded down)
/// for each month past the cliff. A period of zero months, or a product
/// beyond 64 bits, is an overflow.
pub open spec fn entitled_shares(
    vault_total_amount: u64,
    total_period: u64,
    elapsed: int,
    cliff: int,
) -> Result<u64, VestingErrors> {
    if elapsed <= cliff {
        Ok(0)
    } else if total_period == 0 {
        Err(VestingErrors::OverflowError)
    } else {
        let owed = (vault_total_amount / total_period) * (elapsed - cliff);
        if owed <= u64::MAX {
            Ok(owed as u64)
        } else {
            Err(VestingErrors::OverflowError)
        }
    }
}

/// Months from the start to the last claim, zero standing for "never".
pub open spec fn last_claim_months(
    start: YearMonth,
    last_claim: YearMonth,
    never_claimed: bool,
) -> Result<u32, VestingErrors> {
    if never_claimed {
        Ok(0)
    } else {
        month_count(start, last_claim)
    }
}

/// What [`shares_from_months`] returns: the three month counts and the
/// amount owed, or `OverflowError` when any of the four cannot be had.
pub open spec fn share_outcome(
    start: YearMonth,
    current: YearMonth,
    last_claim: YearMonth,
    cliff: YearMonth,
    never_claimed: bool,
    vault_total_amount: u64,
    total_period: u64,
) -> Result<CalulateRes, VestingErrors> {
    let done = month_count(start, current);
    let taken = last_claim_months(start, last_claim, never_claimed);
    let cliff_period = month_count(start, cliff);
    if done is Ok && taken is Ok && cliff_period is Ok {
        match entitled_shares(
            vault_total_amount,
            total_period,
            done->Ok_0 as int,
            cliff_period->Ok_0 as int,
        ) {
            Ok(shares) => Ok(
                CalulateRes {
                    cliff_period: cliff_period->Ok_0,
                    total_months_completed: done->Ok_0,
                    recent_month_taken: taken->Ok_0,
                    shares,
                },
            ),
            Err(e) => Err(e),
        }
    } else {
        Err(VestingErrors::OverflowError)
    }
}

/// Whether the four timestamps of `arg` can be used: each lies within the
/// calendar, and the start is later than [`MIN_START_TIME`].
pub open spec fn timestamps_valid(arg: ShareCalculateArg) -> bool {
    &&& arg.start_date_unix_time > MIN_START_TIME
    &&& timestamp_in_range(arg.start_date_unix_time)
    &&& timestamp_in_range(arg.current_unix_time)
    &&& timestamp_in_range(arg.last_claim_unix_time)
    &&& timestamp_in_range(arg.cliff_date_unix_time)
}

/// The calendar months of the four times of a share calculation.
#[derive(Clone, Copy, Debug, PartialEq, Eq, Structural)]
pub struct ScheduleMonths {
    pub start: YearMonth,
    pub current: YearMonth,
    pub last_claim: YearMonth,
    pub cliff: YearMonth,
}

/// The calendar months of the four times of `arg`.
pub open spec fn schedule_months(arg: ShareCalculateArg) -> ScheduleMonths {
    ScheduleMonths {
        start: year_month_of(arg.start_date_unix_time),
        current: year_month_of(arg.current_unix_time),
        last_claim: year_month_of(arg.last_claim_unix_time),
        cliff: year_month_of(arg.cliff_date_unix_time),
    }
}

/// What [`calculate_shares`] returns.
pub open spec fn calculate_shares_spec(arg: ShareCalculateArg) -> Result<
    CalulateRes,
    VestingErrors,
> {
    if !timestamps_valid(arg) {
        Err(VestingErrors::InvalidTimeStamp)
    } else {
        share_outcome(
            year_month_of(arg.start_date_unix_time),
            year_month_of(arg.current_unix_time),
            year_month_of(arg.last_claim_unix_time),
            year_month_of(arg.cliff_date_unix_time),
            arg.last_claim_unix_time == 0,
            arg.vault_total_amount,
            arg.total_period,
        )
    }
}

/// The amount owed `elapsed` months after the start, with the cliff `cliff`
/// months after the start.
pub fn shares_after(vault_total_amount: u64, total_period: u64, elapsed: i64, cliff: i64) -> (r:
    Result<u64, VestingErrors>)
    ensures
        r == entitled_shares(vault_total_amount, total_period, elapsed as int, cliff as int),
{
    if elapsed <= cliff {
        return Ok(0);
    }
    if total_period == 0 {
        return Err(VestingErrors::OverflowError);
    }
    let per_month: u64 = vault_total_amount / total_period;
    let past_cliff: i128 = elapsed as i128 - cliff as i128;
    let months: u64 = past_cliff as u64;
    match per_month.checked_mul(months) {
        Some(owed) => Ok(owed),
        None => Err(VestingErrors::OverflowError),
    }
}

/// The month counts and the amount owed, from the calendar months of the
/// four times. `never_claimed` says that no claim was taken yet, in which
/// case `last_claim` is not looked at.
pub fn shares_from_months(
    start: YearMonth,
    current: YearMonth,
    last_claim: YearMonth,
    cliff: YearMonth,
    never_claimed: bool,
    vault_total_amount: u64,
    total_period: u64,
) -> (r: Result<CalulateRes, VestingErrors>)
    ensures
        r == share_outcome(
            start,
            current,
            last_claim,
            cliff,
            never_claimed,
            vault_total_amount,
            total_period,
        ),
{
    let total_months_completed = match months_between(start, current) {
        Ok(m) => m,
        Err(e) => {
            return Err(e);
        },
    };
    let recent_month_taken = if never_claimed {
        0
    } else {
        match months_between(start, last_claim) {
            Ok(m) => m,
            Err(e) => {
                return Err(e);
            },
        }
    };
    let cliff_period = match months_between(start, cliff) {
        Ok(m) => m,
        Err(e) => {
            return Err(e);
        },
    };
    let shares = match shares_after(
        vault_total_amount,
        total_period,
        total_months_completed as i64,
        cliff_period as i64,
    ) {
        Ok(s) => s,
        Err(e) => {
            return Err(e);
        },
    };
    Ok(CalulateRes { cliff_period, total_months_completed, recent_month_taken, shares })
}

/// The calendar months of the four times of `arg`.
///
/// Fails with `InvalidTimeStamp` exactly when one of the four times lies
/// outside the calendar or the start is not later than [`MIN_START_TIME`].
pub fn calendar_months(arg: &ShareCalculateArg) -> (r: Result<ScheduleMonths, VestingErrors>)
    ensures
        timestamps_valid(*arg) ==> r == Ok::<ScheduleMonths, VestingErrors>(schedule_months(*arg)),
        !timestamps_valid(*arg) ==> r == Err::<ScheduleMonths, VestingErrors>(
            VestingErrors::InvalidTimeStamp,
        ),
{
    if arg.start_date_unix_time <= MIN_START_TIME {
        return Err(VestingErrors::InvalidTimeStamp);
    }
    let start = match year_month(arg.start_date_unix_time) {
        Some(ym) => ym,
        None => {
            return Err(VestingErrors::InvalidTimeStamp);
        },
    };
    let current = match year_month(arg.current_unix_time) {
        Some(ym) => ym,
        None => {
            return Err(VestingErrors::InvalidTimeStamp);
        },
    };
    let last_claim = match year_month(arg.last_claim_unix_time) {
        Some(ym) => ym,
        None => {
            return Err(VestingErrors::InvalidTimeStamp);
        },
    };
    let cliff = match year_month(arg.cliff_date_unix_time) {
        Some(ym) => ym,
        None => {
            return Err(VestingErrors::InvalidTimeStamp);
        },
    };
    Ok(ScheduleMonths { start, current, last_claim, cliff })
}

/// The month counts and the amount owed at `arg.current_unix_time`.
///
/// Fails with `InvalidTimeStamp` exactly when one of the four times lies
/// outside the calendar or the start is not later than [`MIN_START_TIME`];
/// otherwise the result is that of [`shares_from_months`] on the calendar
/// months of the four times.
pub fn calculate_shares(arg: ShareCalculateArg) -> (r: Result<CalulateRes, VestingErrors>)
    ensures
        r == calculate_shares_spec(arg),
{
    let months = match calendar_months(&arg) {
        Ok(months) => months,
        Err(e) => {
            return Err(e);
        },
    };
    shares_from_months(
        months.start,
        months.current,
        months.last_claim,
        months.cliff,
        arg.last_claim_unix_time == 0,
        arg.vault_total_amount,
        arg.total_period,
    )
}

} // verus!
