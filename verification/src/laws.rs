//! What holds of a grant over its whole life.
//!
//! The life of a grant is modelled on its two records alone: it starts with
//! the records that initialization writes, and each claim attempt, accepted
//! or rejected, is one step.

use vstd::prelude::*;
use crate::calendar::{months_between_spec, timestamp_in_range};
use crate::errors::VestingErrors;
use crate::helper::timestamps_valid;
use crate::instructions::claim_grant::{
    claim_outcome, claimed_months, cliff_months, elapsed_months, grant_after_claim,
    schedule_after_claim, share_query,
};
use crate::instructions::init_grant::{schedule_period, InitGrant, InitGrantArg, InitGrantBumps};
use crate::state::{Grant, GrantShecdule};

verus! {

/// The two records after a claim attempt at time `now`: updated when the
/// claim is accepted, as they were when it is rejected.
pub open spec fn claim_step(grant: Grant, schedule: GrantShecdule, now: i64) -> (
    Grant,
    GrantShecdule,
) {
    match claim_outcome(grant, schedule, now) {
        Ok(shares) => (grant_after_claim(grant, shares), schedule_after_claim(schedule, now)),
        Err(_) => (grant, schedule),
    }
}

/// The two records after claim attempts at each of `times`, in order.
pub open spec fn after_claims(grant: Grant, schedule: GrantShecdule, times: Seq<i64>) -> (
    Grant,
    GrantShecdule,
)
    decreases times.len(),
{
    if times.len() == 0 {
        (grant, schedule)
    } else {
        let before = after_claims(grant, schedule, times.drop_last());
        claim_step(before.0, before.1, times.last())
    }
}

/// The two records that initialization leaves behind once the deposit is
/// locked.
pub open spec fn initial_records(
    ctx: InitGrant,
    bumps: InitGrantBumps,
    arg: InitGrantArg,
    total_period: u32,
) -> (Grant, GrantShecdule) {
    (
        Grant { total_amount_locked: arg.grant_deposited, ..ctx.fresh_grant(bumps) },
        InitGrant::fresh_schedule(
            arg.cliff_date,
            arg.start_date,
            arg.end_date,
            total_period,
            bumps,
        ),
    )
}

/// Everything in the two records that a claim may not touch is the same in
/// `(g, s)` as in `(grant, schedule)`.
pub open spec fn terms_kept(grant: Grant, schedule: GrantShecdule, g: Grant, s: GrantShecdule) -> bool {
    &&& g.grant_mint == grant.grant_mint
    &&& g.employee == grant.employee
    &&& g.grant_bump == grant.grant_bump
    &&& g.vault_bump == grant.vault_bump
    &&& s.cliff_date == schedule.cliff_date
    &&& s.start_date == schedule.start_date
    &&& s.end_date == schedule.end_date
    &&& s.total_period == schedule.total_period
    &&& s.shecdule_bump == schedule.shecdule_bump
}

/// One claim attempt, accepted or not, keeps the sum of the locked and the
/// released amount, never raises the locked amount, never lowers the
/// released amount, and leaves the terms of the grant alone.
pub proof fn lemma_claim_step_balances(grant: Grant, schedule: GrantShecdule, now: i64)
    ensures
        ({
            let (g, s) = claim_step(grant, schedule, now);
            &&& g.deposited() == grant.deposited()
            &&& g.total_amount_locked <= grant.total_amount_locked
            &&& g.amount_unlocked >= grant.amount_unlocked
            &&& terms_kept(grant, schedule, g, s)
        }),
{
}

/// A rejected claim leaves both records exactly as they were.
pub proof fn lemma_rejected_claim_changes_nothing(grant: Grant, schedule: GrantShecdule, now: i64)
    requires
        claim_outcome(grant, schedule, now) is Err,
    ensures
        claim_step(grant, schedule, now) == (grant, schedule),
{
}

/// Over any sequence of claim attempts the sum of the locked and the released
/// amount stays what it was, and the terms of the grant stay what they were.
pub proof fn lemma_claims_conserve_deposit(grant: Grant, schedule: GrantShecdule, times: Seq<i64>)
    ensures
        after_claims(grant, schedule, times).0.deposited() == grant.deposited(),
        terms_kept(
            grant,
            schedule,
            after_claims(grant, schedule, times).0,
            after_claims(grant, schedule, times).1,
        ),
    decreases times.len(),
{
    if times.len() > 0 {
        lemma_claims_conserve_deposit(grant, schedule, times.drop_last());
        let before = after_claims(grant, schedule, times.drop_last());
        lemma_claim_step_balances(before.0, before.1, times.last());
    }
}

/// A grant whose deposit is an amount of 64 bits stays one over any sequence
/// of claim attempts, and no claim on it is ever turned down because the
/// released amount would outgrow 64 bits: whatever may be taken from the
/// locked amount fits on top of the released amount.
pub proof fn lemma_claims_keep_deposit_in_range(
    grant: Grant,
    schedule: GrantShecdule,
    times: Seq<i64>,
    shares: u64,
)
    requires
        grant.wf(),
    ensures
        after_claims(grant, schedule, times).0.wf(),
        shares <= after_claims(grant, schedule, times).0.total_amount_locked ==> after_claims(
            grant,
            schedule,
            times,
        ).0.amount_unlocked + shares <= u64::MAX,
{
    lemma_claims_conserve_deposit(grant, schedule, times);
}

/// In every state that a grant can reach, the locked and the released amount
/// together are the amount that was deposited when the grant was made.
pub proof fn lemma_reachable_state_holds_deposit(
    ctx: InitGrant,
    bumps: InitGrantBumps,
    arg: InitGrantArg,
    times: Seq<i64>,
)
    requires
        schedule_period(arg.start_date, arg.end_date) is Ok,
    ensures
        ({
            let total_period = schedule_period(arg.start_date, arg.end_date)->Ok_0;
            let (grant, schedule) = initial_records(ctx, bumps, arg, total_period);
            after_claims(grant, schedule, times).0.deposited() == arg.grant_deposited
        }),
{
    let total_period = schedule_period(arg.start_date, arg.end_date)->Ok_0;
    let (grant, schedule) = initial_records(ctx, bumps, arg, total_period);
    lemma_claims_conserve_deposit(grant, schedule, times);
}

/// Across any sequence of claim attempts the locked amount never rises and
/// the released amount never falls: after all of `times` the grant holds no
/// more locked, and no less released, than after the first `k` of them.
pub proof fn lemma_claims_monotone(grant: Grant, schedule: GrantShecdule, times: Seq<i64>, k: int)
    requires
        0 <= k <= times.len(),
    ensures
        after_claims(grant, schedule, times).0.total_amount_locked <= after_claims(
            grant,
            schedule,
            times.take(k),
        ).0.total_amount_locked,
        after_claims(grant, schedule, times).0.amount_unlocked >= after_claims(
            grant,
            schedule,
            times.take(k),
        ).0.amount_unlocked,
    decreases times.len(),
{
    if k == times.len() {
        assert(times.take(k) =~= times);
    } else {
        assert(times.drop_last().take(k) =~= times.take(k));
        lemma_claims_monotone(grant, schedule, times.drop_last(), k);
        let before = after_claims(grant, schedule, times.drop_last());
        lemma_claim_step_balances(before.0, before.1, times.last());
    }
}

/// A claim in the month of the last claim is rejected: with something
/// locked, four usable times and a last claim on record, a claim whose month
/// is past the cliff month and is the month of the last claim fails with
/// `AlreadyTakenCurrentMonthShares` and changes nothing. The day, hour and
/// second of `now` within the month, the signs of the distances and the
/// length of the period play no part.
pub proof fn lemma_claim_in_month_of_last_claim_rejected(
    grant: Grant,
    schedule: GrantShecdule,
    now: i64,
)
    requires
        grant.total_amount_locked != 0,
        timestamps_valid(share_query(grant, schedule, now)),
        schedule.no_of_months_completed != 0,
        months_between_spec(schedule.start_date, now) == months_between_spec(
            schedule.start_date,
            schedule.no_of_months_completed,
        ),
        months_between_spec(schedule.start_date, now) > months_between_spec(
            schedule.start_date,
            schedule.cliff_date,
        ),
    ensures
        claim_outcome(grant, schedule, now) == Err::<u64, VestingErrors>(
            VestingErrors::AlreadyTakenCurrentMonthShares,
        ),
        claim_step(grant, schedule, now) == (grant, schedule),
{
    assert(claimed_months(schedule) == elapsed_months(schedule, now));
    assert(cliff_months(schedule) < elapsed_months(schedule, now));
}

/// At most one claim per month: after a claim at time `first` was accepted,
/// a claim at any time `second` that falls in the same month, counted from
/// the start, is rejected with `AlreadyTakenCurrentMonthShares` and changes
/// nothing.
///
/// This is stated for a grant that the first claim did not empty, since an
/// empty vault is reported before anything else; for a first claim at a time
/// other than zero, since a last claim at time zero reads as none; and for a
/// second time within the calendar.
pub proof fn lemma_one_claim_per_month(
    grant: Grant,
    schedule: GrantShecdule,
    first: i64,
    second: i64,
)
    requires
        claim_outcome(grant, schedule, first) is Ok,
        timestamp_in_range(second),
        months_between_spec(schedule.start_date, second) == months_between_spec(
            schedule.start_date,
            first,
        ),
        claim_step(grant, schedule, first).0.total_amount_locked != 0,
        first != 0,
    ensures
        ({
            let (g, s) = claim_step(grant, schedule, first);
            &&& claim_outcome(g, s, second) == Err::<u64, VestingErrors>(
                VestingErrors::AlreadyTakenCurrentMonthShares,
            )
            &&& claim_step(g, s, second) == (g, s)
        }),
{
    let (g, s) = claim_step(grant, schedule, first);
    assert(elapsed_months(schedule, first) > cliff_months(schedule));
    lemma_claim_in_month_of_last_claim_rejected(g, s, second);
}

/// Cliff gating: with something locked and four usable times, a claim at a
/// time whose month, counted from the start, is not past the month of the
/// cliff is rejected with `ClaimBeforeCliff` and changes nothing. This holds
/// also where the month of the claim or of the cliff lies before the start.
pub proof fn lemma_claim_before_cliff_rejected(grant: Grant, schedule: GrantShecdule, now: i64)
    requires
        grant.total_amount_locked != 0,
        timestamps_valid(share_query(grant, schedule, now)),
        months_between_spec(schedule.start_date, now) <= months_between_spec(
            schedule.start_date,
            schedule.cliff_date,
        ),
    ensures
        claim_outcome(grant, schedule, now) == Err::<u64, VestingErrors>(
            VestingErrors::ClaimBeforeCliff,
        ),
        claim_step(grant, schedule, now) == (grant, schedule),
{
    assert(elapsed_months(schedule, now) <= cliff_months(schedule));
}

} // verus!
