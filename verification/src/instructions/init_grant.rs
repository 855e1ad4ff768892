//! Initialize: the employer makes a grant and deposits what is to vest.

use vstd::prelude::*;
use crate::calendar::{months_between_timestamps, timestamp_month_count};
use crate::errors::VestingErrors;
use crate::helper::MIN_START_TIME;
use crate::state::{Grant, GrantShecdule, Identity, Mint, TransferRequest};

verus! {

/// The terms of a new grant.
#[derive(Clone, Copy, Debug, PartialEq, Eq, Structural)]
pub struct InitGrantArg {
    /// Up to the end of this month nothing can be claimed.
    pub cliff_date: i64,
    /// When vesting begins.
    pub start_date: i64,
    /// When vesting is complete.
    pub end_date: i64,
    /// The amount that is to vest.
    pub grant_deposited: u64,
}

/// The bumps of the three addresses that a new grant takes up.
#[derive(Clone, Copy, Debug, PartialEq, Eq, Structural)]
pub struct InitGrantBumps {
    pub grant_vault: u8,
    pub grant: u8,
    pub grant_shecdule: u8,
}

/// The accounts of an initialization.
#[derive(Clone, Copy, Debug, PartialEq, Eq)]
pub struct InitGrant {
    /// The party that makes the grant and pays the deposit.
    pub employer: Identity,
    /// The party the grant vests to.
    pub employee: Identity,
    /// The employer's token account, from which the deposit comes.
    pub employer_token: Identity,
    /// The vault that will hold what is locked.
    pub grant_vault: Identity,
    /// The grant's record, to be filled.
    pub grant: Grant,
    /// The grant's schedule, to be filled.
    pub grant_shecdule: GrantShecdule,
    /// The asset that vests.
    pub grant_mint: Mint,
}

/// The months a schedule from `start_date` to `end_date` runs over, or the
/// reason such a schedule is not accepted: `InvalidTimeStamp` when the start
/// is not later than [`MIN_START_TIME`] or either date lies outside the
/// calendar, `OverflowError` when the end lies in an earlier month than the
/// start.
pub open spec fn schedule_period(start_date: i64, end_date: i64) -> Result<u32, VestingErrors> {
    if start_date <= MIN_START_TIME {
        Err(VestingErrors::InvalidTimeStamp)
    } else {
        timestamp_month_count(start_date, end_date)
    }
}

impl InitGrant {
    /// The record of a fresh grant: nothing locked, nothing released.
    pub open spec fn fresh_grant(self, bump: InitGrantBumps) -> Grant {
        Grant {
            grant_mint: self.grant_mint.key,
            employee: self.employee,
            total_amount_locked: 0,
            amount_unlocked: 0,
            grant_bump: bump.grant,
            vault_bump: bump.grant_vault,
        }
    }

    /// The schedule of a fresh grant over `total_period` months: no claim
    /// taken yet.
    pub open spec fn fresh_schedule(
        cliff_date: i64,
        start_date: i64,
        end_date: i64,
        total_period: u32,
        bump: InitGrantBumps,
    ) -> GrantShecdule {
        GrantShecdule {
            cliff_date,
            start_date,
            end_date,
            no_of_months_completed: 0,
            total_period,
            shecdule_bump: bump.grant_shecdule,
        }
    }

    /// The transfer that moves `grant_deposit` from the employer into the
    /// vault. The employer signs for it.
    pub open spec fn deposit(self, grant_deposit: u64) -> TransferRequest {
        TransferRequest {
            from: self.employer_token,
            to: self.grant_vault,
            mint: self.grant_mint.key,
            authority: self.employer,
            amount: grant_deposit,
            decimals: self.grant_mint.decimals,
            signer: None,
        }
    }

    /// Fills the grant's two records from the terms.
    ///
    /// The period is counted here, once, from the months of the start and the
    /// end. When the terms are not accepted, see [`schedule_period`], nothing
    /// has changed.
    pub fn initialize_grant(
        &mut self,
        cliff_date: i64,
        start_date: i64,
        end_date: i64,
        bump: InitGrantBumps,
    ) -> (r: Result<(), VestingErrors>)
        ensures
            match schedule_period(start_date, end_date) {
                Ok(total_period) => {
                    &&& r == Ok::<(), VestingErrors>(())
                    &&& *final(self) == (InitGrant {
                        grant: old(self).fresh_grant(bump),
                        grant_shecdule: Self::fresh_schedule(
                            cliff_date,
                            start_date,
                            end_date,
                            total_period,
                            bump,
                        ),
                        ..*old(self)
                    })
                },
                Err(e) => r == Err::<(), VestingErrors>(e) && *final(self) == *old(self),
            },
    {
        if start_date <= MIN_START_TIME {
            return Err(VestingErrors::InvalidTimeStamp);
        }
        let total_period = match months_between_timestamps(start_date, end_date) {
            Ok(months) => months,
            Err(e) => {
                return Err(e);
            },
        };
        self.grant = Grant {
            grant_mint: self.grant_mint.key,
            employee: self.employee,
            total_amount_locked: 0,
            amount_unlocked: 0,
            grant_bump: bump.grant,
            vault_bump: bump.grant_vault,
        };
        self.grant_shecdule = GrantShecdule {
            cliff_date,
            start_date,
            end_date,
            no_of_months_completed: 0,
            total_period,
            shecdule_bump: bump.grant_shecdule,
        };
        Ok(())
    }

    /// Records `grant_deposit` as locked and returns the transfer that brings
    /// it into the vault.
    pub fn deposite_grant(&mut self, grant_deposit: u64) -> (request: TransferRequest)
        ensures
            request == old(self).deposit(grant_deposit),
            *final(self) == (InitGrant {
                grant: Grant { total_amount_locked: grant_deposit, ..old(self).grant },
                ..*old(self)
            }),
    {
        self.grant.total_amount_locked = grant_deposit;
        TransferRequest {
            from: self.employer_token,
            to: self.grant_vault,
            mint: self.grant_mint.key,
            authority: self.employer,
            amount: grant_deposit,
            decimals: self.grant_mint.decimals,
            signer: None,
        }
    }
}

} // verus!
