//! Claim: the employee takes the shares that have vested.

use vstd::prelude::*;
use crate::calendar::{months_apart, months_between_spec};
use crate::errors::VestingErrors;
use crate::helper::{
    calendar_months, entitled_shares, shares_after, timestamps_valid, ShareCalculateArg,
};
use crate::state::{Grant, GrantAuthority, GrantShecdule, Identity, Mint, TransferRequest};

verus! {

/// The accounts of a claim.
#[derive(Clone, Copy, Debug, PartialEq, Eq)]
pub struct ClaimGrant {
    /// The party that made the grant.
    pub employer: Identity,
    /// The party that claims.
    pub employee: Identity,
    /// The asset that is claimed.
    pub grant_mint: Mint,
    /// The employee's token account, which receives the shares.
    pub employee_token_account: Identity,
    /// Where the grant's record lives.
    pub grant_address: Identity,
    /// The grant's record.
    pub grant_account: Grant,
    /// The grant's schedule.
    pub grant_schedule_account: GrantShecdule,
    /// The vault that holds what is locked.
    pub grant_vault_account: Identity,
}

/// What the share calculation is asked at time `now` for a grant.
pub open spec fn share_query(grant: Grant, schedule: GrantShecdule, now: i64) -> ShareCalculateArg {
    ShareCalculateArg {
        current_unix_time: now,
        start_date_unix_time: schedule.start_date,
        last_claim_unix_time: schedule.no_of_months_completed,
        cliff_date_unix_time: schedule.cliff_date,
        vault_total_amount: grant.total_amount_locked,
        total_period: schedule.total_period as u64,
    }
}

/// Months from the start of the schedule to `now`. Negative when `now` lies
/// in a month before the start.
pub open spec fn elapsed_months(schedule: GrantShecdule, now: i64) -> int {
    months_between_spec(schedule.start_date, now)
}

/// Months from the start of the schedule to its cliff. Negative when the
/// cliff lies in a month before the start.
pub open spec fn cliff_months(schedule: GrantShecdule) -> int {
    months_between_spec(schedule.start_date, schedule.cliff_date)
}

/// Months from the start of the schedule to the last claim; zero while no
/// claim was taken.
pub open spec fn claimed_months(schedule: GrantShecdule) -> int {
    if schedule.no_of_months_completed == 0 {
        0
    } else {
        months_between_spec(schedule.start_date, schedule.no_of_months_completed)
    }
}

/// Whether a claim `elapsed` months after the start may release anything from
/// `grant`, and if so how much; if not, why not. `cliff` and `claimed` are
/// the months from the start to the cliff and to the last claim. All three
/// are signed distances and are compared as such.
///
/// The conditions are tried in this order, and the first that fails decides:
/// something is locked; the cliff month has passed; no claim was taken in
/// this month or a later one; the shares can be computed, are not zero, are
/// not more than what is locked, and fit on top of what was released.
pub open spec fn claim_check(
    grant: Grant,
    total_period: u32,
    elapsed: int,
    cliff: int,
    claimed: int,
) -> Result<u64, VestingErrors> {
    if grant.total_amount_locked == 0 {
        Err(VestingErrors::EmptyVault)
    } else if elapsed <= cliff {
        Err(VestingErrors::ClaimBeforeCliff)
    } else if claimed >= elapsed {
        Err(VestingErrors::AlreadyTakenCurrentMonthShares)
    } else {
        match entitled_shares(grant.total_amount_locked, total_period as u64, elapsed, cliff) {
            Err(e) => Err(e),
            Ok(shares) => if shares == 0 {
                Err(VestingErrors::NoSharesAvailable)
            } else if shares > grant.total_amount_locked {
                Err(VestingErrors::InsufficientFunds)
            } else if grant.amount_unlocked + shares > u64::MAX {
                Err(VestingErrors::OverflowError)
            } else {
                Ok(shares)
            },
        }
    }
}

/// The shares a claim at time `now` releases, or the reason it is rejected:
/// `InvalidTimeStamp` when one of the four times cannot be used, else what
/// [`claim_check`] finds for the three month distances.
pub open spec fn claim_outcome(grant: Grant, schedule: GrantShecdule, now: i64) -> Result<
    u64,
    VestingErrors,
> {
    if !timestamps_valid(share_query(grant, schedule, now)) {
        Err(VestingErrors::InvalidTimeStamp)
    } else {
        claim_check(
            grant,
            schedule.total_period,
            elapsed_months(schedule, now),
            cliff_months(schedule),
            claimed_months(schedule),
        )
    }
}

/// The grant's record after `shares` were released.
pub open spec fn grant_after_claim(grant: Grant, shares: u64) -> Grant {
    Grant {
        total_amount_locked: (grant.total_amount_locked - shares) as u64,
        amount_unlocked: (grant.amount_unlocked + shares) as u64,
        ..grant
    }
}

/// The grant's schedule after a claim at time `now`.
pub open spec fn schedule_after_claim(schedule: GrantShecdule, now: i64) -> GrantShecdule {
    GrantShecdule { no_of_months_completed: now, ..schedule }
}

/// Decides a claim from the three month distances: `elapsed` from the start
/// to now, `cliff` from the start to the cliff, `claimed` from the start to
/// the last claim (zero when there was none).
pub fn check_claim(grant: &Grant, total_period: u32, elapsed: i64, cliff: i64, claimed: i64) -> (r:
    Result<u64, VestingErrors>)
    ensures
        r == claim_check(*grant, total_period, elapsed as int, cliff as int, claimed as int),
{
    if grant.total_amount_locked == 0 {
        return Err(VestingErrors::EmptyVault);
    }
    if elapsed <= cliff {
        return Err(VestingErrors::ClaimBeforeCliff);
    }
    if claimed >= elapsed {
        return Err(VestingErrors::AlreadyTakenCurrentMonthShares);
    }
    let shares = match shares_after(
        grant.total_amount_locked,
        total_period as u64,
        elapsed,
        cliff,
    ) {
        Ok(shares) => shares,
        Err(e) => {
            return Err(e);
        },
    };
    if shares == 0 {
        return Err(VestingErrors::NoSharesAvailable);
    }
    if shares > grant.total_amount_locked {
        return Err(VestingErrors::InsufficientFunds);
    }
    if shares > u64::MAX - grant.amount_unlocked {
        return Err(VestingErrors::OverflowError);
    }
    Ok(shares)
}

impl ClaimGrant {
    /// The claimant and the asset are those the grant was made for.
    pub open spec fn authorized(self) -> bool {
        &&& self.employee == self.grant_account.employee
        &&& self.grant_mint.key == self.grant_account.grant_mint
    }

    /// The grant's standing to sign for its vault.
    pub open spec fn authority(self) -> GrantAuthority {
        GrantAuthority {
            employer: self.employer,
            employee: self.employee,
            bump: self.grant_account.grant_bump,
        }
    }

    /// The transfer that releases `shares` from the vault to the employee.
    pub open spec fn release(self, shares: u64) -> TransferRequest {
        TransferRequest {
            from: self.grant_vault_account,
            to: self.employee_token_account,
            mint: self.grant_mint.key,
            authority: self.grant_address,
            amount: shares,
            decimals: self.grant_mint.decimals,
            signer: Some(self.authority()),
        }
    }

    /// The shares a claim at time `now` releases, or the reason it is
    /// rejected.
    pub open spec fn claim_spec(self, now: i64) -> Result<u64, VestingErrors> {
        if !self.authorized() {
            Err(VestingErrors::Unauthorized)
        } else {
            claim_outcome(self.grant_account, self.grant_schedule_account, now)
        }
    }

    /// The accounts after `shares` were claimed at time `now`.
    pub open spec fn claimed(self, shares: u64, now: i64) -> ClaimGrant {
        ClaimGrant {
            grant_account: grant_after_claim(self.grant_account, shares),
            grant_schedule_account: schedule_after_claim(self.grant_schedule_account, now),
            ..self
        }
    }

    /// Claims what has vested at `unix_time`.
    ///
    /// A claim in a month that is not past the cliff month is turned down as
    /// coming before the cliff, also where that month lies before the start;
    /// a claim in the month of the last claim is turned down as already
    /// taken. Both are decided on signed month distances from the start.
    ///
    /// On success the shares have left the locked amount and joined the
    /// released amount, the schedule remembers `unix_time` as the last claim,
    /// and the transfer of the shares to the employee is returned. On
    /// rejection nothing has changed.
    pub fn claim(&mut self, unix_time: i64) -> (r: Result<TransferRequest, VestingErrors>)
        ensures
            match old(self).claim_spec(unix_time) {
                Ok(shares) => {
                    &&& r == Ok::<TransferRequest, VestingErrors>(old(self).release(shares))
                    &&& *final(self) == old(self).claimed(shares, unix_time)
                },
                Err(e) => r == Err::<TransferRequest, VestingErrors>(e) && *final(self) == *old(
                    self,
                ),
            },
    {
        if !self.employee.same_as(&self.grant_account.employee) {
            return Err(VestingErrors::Unauthorized);
        }
        if !self.grant_mint.key.same_as(&self.grant_account.grant_mint) {
            return Err(VestingErrors::Unauthorized);
        }
        let months = match calendar_months(
            &ShareCalculateArg {
                current_unix_time: unix_time,
                start_date_unix_time: self.grant_schedule_account.start_date,
                last_claim_unix_time: self.grant_schedule_account.no_of_months_completed,
                cliff_date_unix_time: self.grant_schedule_account.cliff_date,
                vault_total_amount: self.grant_account.total_amount_locked,
                total_period: self.grant_schedule_account.total_period as u64,
            },
        ) {
            Ok(months) => months,
            Err(e) => {
                return Err(e);
            },
        };
        let elapsed: i64 = months_apart(months.start, months.current);
        let cliff: i64 = months_apart(months.start, months.cliff);
        let claimed: i64 = if self.grant_schedule_account.no_of_months_completed == 0 {
            0
        } else {
            months_apart(months.start, months.last_claim)
        };
        let shares = match check_claim(
            &self.grant_account,
            self.grant_schedule_account.total_period,
            elapsed,
            cliff,
            claimed,
        ) {
            Ok(shares) => shares,
            Err(e) => {
                return Err(e);
            },
        };
        let request = TransferRequest {
            from: self.grant_vault_account,
            to: self.employee_token_account,
            mint: self.grant_mint.key,
            authority: self.grant_address,
            amount: shares,
            decimals: self.grant_mint.decimals,
            signer: Some(
                GrantAuthority {
                    employer: self.employer,
                    employee: self.employee,
                    bump: self.grant_account.grant_bump,
                },
            ),
        };
        self.grant_account.total_amount_locked = self.grant_account.total_amount_locked - shares;
        self.grant_account.amount_unlocked = self.grant_account.amount_unlocked + shares;
        self.grant_schedule_account.no_of_months_completed = unix_time;
        Ok(request)
    }
}

} // verus!
