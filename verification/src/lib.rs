//! Month-granular token vesting: the schedule arithmetic and the grant
//! lifecycle (initialize, claim, revoke) as verified state transitions.

use vstd::prelude::*;
use crate::errors::VestingErrors;
use crate::instructions::claim_grant::ClaimGrant;
use crate::instructions::init_grant::{schedule_period, InitGrant, InitGrantArg, InitGrantBumps};
use crate::instructions::withdraw_grant::{Revocation, WithdrawGrant};
use crate::state::{Grant, TransferRequest};

pub mod calendar;
pub mod errors;
pub mod helper;
pub mod instructions;
pub mod laws;
pub mod state;

verus! {

/// Makes a grant: fills its two records from `arg` and locks the deposit.
///
/// Returns the transfer that brings the deposit into the vault. When the
/// terms are not accepted, nothing has changed.
pub fn initialize(ctx: &mut InitGrant, bumps: InitGrantBumps, arg: InitGrantArg) -> (r: Result<
    TransferRequest,
    VestingErrors,
>)
    ensures
        match schedule_period(arg.start_date, arg.end_date) {
            Ok(total_period) => {
                &&& r == Ok::<TransferRequest, VestingErrors>(
                    old(ctx).deposit(arg.grant_deposited),
                )
                &&& *final(ctx) == (InitGrant {
                    grant: Grant {
                        total_amount_locked: arg.grant_deposited,
                        ..old(ctx).fresh_grant(bumps)
                    },
                    grant_shecdule: InitGrant::fresh_schedule(
                        arg.cliff_date,
                        arg.start_date,
                        arg.end_date,
                        total_period,
                        bumps,
                    ),
                    ..*old(ctx)
                })
            },
            Err(e) => r == Err::<TransferRequest, VestingErrors>(e) && *final(ctx) == *old(ctx),
        },
{
    match ctx.initialize_grant(arg.cliff_date, arg.start_date, arg.end_date, bumps) {
        Ok(()) => Ok(ctx.deposite_grant(arg.grant_deposited)),
        Err(e) => Err(e),
    }
}

/// Ends a grant in favour of the employer.
///
/// Returns the refund of everything the vault holds and the closing of the
/// vault, or `Unauthorized` when the accounts name another employee or
/// another asset than the grant's record does. No schedule is consulted.
pub fn revoke_grant(ctx: WithdrawGrant) -> (r: Result<Revocation, VestingErrors>)
    ensures
        ctx.authorized() ==> r == Ok::<Revocation, VestingErrors>(
            Revocation { refund: ctx.refund(), closing: ctx.closing() },
        ),
        !ctx.authorized() ==> r == Err::<Revocation, VestingErrors>(VestingErrors::Unauthorized),
{
    if !ctx.employee.same_as(&ctx.grant_account.employee) {
        return Err(VestingErrors::Unauthorized);
    }
    if !ctx.grant_mint.key.same_as(&ctx.grant_account.grant_mint) {
        return Err(VestingErrors::Unauthorized);
    }
    let refund = ctx.withdraw_amount();
    let closing = ctx.close_accounts();
    Ok(Revocation { refund, closing })
}

/// Claims for the employee what has vested at `unix_time`.
///
/// See [`ClaimGrant::claim`].
pub fn claim_grant(ctx: &mut ClaimGrant, unix_time: i64) -> (r: Result<
    TransferRequest,
    VestingErrors,
>)
    ensures
        match old(ctx).claim_spec(unix_time) {
            Ok(shares) => {
                &&& r == Ok::<TransferRequest, VestingErrors>(old(ctx).release(shares))
                &&& *final(ctx) == old(ctx).claimed(shares, unix_time)
            },
            Err(e) => r == Err::<TransferRequest, VestingErrors>(e) && *final(ctx) == *old(ctx),
        },
{
    ctx.claim(unix_time)
}

} // verus!
