use token_vesting::errors::VestingErrors;
use token_vesting::instructions::claim_grant::{check_claim, ClaimGrant};
use token_vesting::instructions::init_grant::{InitGrant, InitGrantArg, InitGrantBumps};
use token_vesting::instructions::withdraw_grant::{Revocation, WithdrawGrant};
use token_vesting::state::{
    CloseRequest, Grant, GrantAuthority, GrantShecdule, Identity, Mint, TokenAccount,
    TransferRequest,
};
use token_vesting::{claim_grant, initialize, revoke_grant};

const NOV_20_2023: i64 = 1_700_438_400;
const DEC_01_2023: i64 = 1_701_388_800;
const DEC_31_2023: i64 = 1_703_980_800;
const JAN_01_2024: i64 = 1_704_067_200;
const FEB_01_2024: i64 = 1_706_745_600;
const MAR_01_2024: i64 = 1_709_251_200;
const APR_01_2024: i64 = 1_711_929_600;
const APR_15_2024: i64 = 1_713_139_200;
const MAY_01_2024: i64 = 1_714_521_600;
const JUN_01_2024: i64 = 1_717_200_000;
const JAN_01_2025: i64 = 1_735_689_600;
const SEP_01_2025: i64 = 1_756_684_800;

fn id(tag: u8) -> Identity {
    Identity { bytes: [tag; 32] }
}

const EMPLOYER: u8 = 1;
const EMPLOYEE: u8 = 2;
const MINT: u8 = 3;
const EMPLOYER_TOKEN: u8 = 4;
const EMPLOYEE_TOKEN: u8 = 5;
const VAULT: u8 = 6;
const GRANT: u8 = 7;

fn bumps() -> InitGrantBumps {
    InitGrantBumps { grant_vault: 253, grant: 254, grant_shecdule: 255 }
}

fn blank_grant() -> Grant {
    Grant {
        grant_mint: id(0),
        employee: id(0),
        total_amount_locked: 0,
        amount_unlocked: 0,
        grant_bump: 0,
        vault_bump: 0,
    }
}

fn blank_schedule() -> GrantShecdule {
    GrantShecdule {
        cliff_date: 0,
        start_date: 0,
        end_date: 0,
        no_of_months_completed: 0,
        total_period: 0,
        shecdule_bump: 0,
    }
}

fn init_accounts() -> InitGrant {
    InitGrant {
        employer: id(EMPLOYER),
        employee: id(EMPLOYEE),
        employer_token: id(EMPLOYER_TOKEN),
        grant_vault: id(VAULT),
        grant: blank_grant(),
        grant_shecdule: blank_schedule(),
        grant_mint: Mint { key: id(MINT), decimals: 6 },
    }
}

fn terms(deposit: u64) -> InitGrantArg {
    InitGrantArg {
        cliff_date: MAR_01_2024,
        start_date: JAN_01_2024,
        end_date: JAN_01_2025,
        grant_deposited: deposit,
    }
}

fn granted(deposit: u64) -> InitGrant {
    let mut ctx = init_accounts();
    initialize(&mut ctx, bumps(), terms(deposit)).unwrap();
    ctx
}

fn claim_accounts(grant: Grant, schedule: GrantShecdule) -> ClaimGrant {
    ClaimGrant {
        employer: id(EMPLOYER),
        employee: id(EMPLOYEE),
        grant_mint: Mint { key: id(MINT), decimals: 6 },
        employee_token_account: id(EMPLOYEE_TOKEN),
        grant_address: id(GRANT),
        grant_account: grant,
        grant_schedule_account: schedule,
        grant_vault_account: id(VAULT),
    }
}

fn claimant(deposit: u64) -> ClaimGrant {
    let made = granted(deposit);
    claim_accounts(made.grant, made.grant_shecdule)
}

fn revoke_accounts(grant: Grant, schedule: GrantShecdule, in_vault: u64) -> WithdrawGrant {
    WithdrawGrant {
        employer: id(EMPLOYER),
        employee: id(EMPLOYEE),
        grant_mint: Mint { key: id(MINT), decimals: 6 },
        employer_token_account: id(EMPLOYER_TOKEN),
        grant_address: id(GRANT),
        grant_account: grant,
        grant_schedule_account: schedule,
        grant_vault_account: TokenAccount { key: id(VAULT), amount: in_vault },
    }
}

fn grant_signer() -> GrantAuthority {
    GrantAuthority { employer: id(EMPLOYER), employee: id(EMPLOYEE), bump: 254 }
}

fn release_of(amount: u64) -> TransferRequest {
    TransferRequest {
        from: id(VAULT),
        to: id(EMPLOYEE_TOKEN),
        mint: id(MINT),
        authority: id(GRANT),
        amount,
        decimals: 6,
        signer: Some(grant_signer()),
    }
}

#[test]
fn identities_compare_by_all_bytes() {
    let a = id(9);
    let mut b = id(9);
    assert!(a.same_as(&b));
    b.bytes[31] = 8;
    assert!(!a.same_as(&b));
    b.bytes[31] = 9;
    b.bytes[0] = 8;
    assert!(!a.same_as(&b));
}

#[test]
fn initialize_fills_both_records_and_asks_for_the_deposit() {
    let mut ctx = init_accounts();
    let request = initialize(&mut ctx, bumps(), terms(1_200_000));
    assert_eq!(
        request,
        Ok(TransferRequest {
            from: id(EMPLOYER_TOKEN),
            to: id(VAULT),
            mint: id(MINT),
            authority: id(EMPLOYER),
            amount: 1_200_000,
            decimals: 6,
            signer: None,
        })
    );
    assert_eq!(
        ctx.grant,
        Grant {
            grant_mint: id(MINT),
            employee: id(EMPLOYEE),
            total_amount_locked: 1_200_000,
            amount_unlocked: 0,
            grant_bump: 254,
            vault_bump: 253,
        }
    );
    assert_eq!(
        ctx.grant_shecdule,
        GrantShecdule {
            cliff_date: MAR_01_2024,
            start_date: JAN_01_2024,
            end_date: JAN_01_2025,
            no_of_months_completed: 0,
            total_period: 12,
            shecdule_bump: 255,
        }
    );
}

#[test]
fn initialize_grant_leaves_the_deposit_to_the_second_step() {
    let mut ctx = init_accounts();
    assert_eq!(
        ctx.initialize_grant(MAR_01_2024, JAN_01_2024, JAN_01_2025, bumps()),
        Ok(())
    );
    assert_eq!(ctx.grant.total_amount_locked, 0);
    assert_eq!(ctx.grant.amount_unlocked, 0);
    assert_eq!(ctx.grant_shecdule.total_period, 12);
    let request = ctx.deposite_grant(500);
    assert_eq!(request.amount, 500);
    assert_eq!(request.from, id(EMPLOYER_TOKEN));
    assert_eq!(request.to, id(VAULT));
    assert_eq!(request.authority, id(EMPLOYER));
    assert_eq!(request.signer, None);
    assert_eq!(ctx.grant.total_amount_locked, 500);
    assert_eq!(ctx.grant.amount_unlocked, 0);
}

#[test]
fn initialize_rejects_a_start_near_the_epoch() {
    let mut ctx = init_accounts();
    let before = ctx;
    let mut arg = terms(1_200_000);
    arg.start_date = 100;
    assert_eq!(initialize(&mut ctx, bumps(), arg), Err(VestingErrors::InvalidTimeStamp));
    assert_eq!(ctx, before);
    arg.start_date = 0;
    assert_eq!(initialize(&mut ctx, bumps(), arg), Err(VestingErrors::InvalidTimeStamp));
    assert_eq!(ctx, before);
    arg.start_date = -5;
    assert_eq!(initialize(&mut ctx, bumps(), arg), Err(VestingErrors::InvalidTimeStamp));
    assert_eq!(ctx, before);
}

#[test]
fn initialize_accepts_the_first_plausible_start() {
    let mut ctx = init_accounts();
    let mut arg = terms(1_200_000);
    arg.start_date = 101;
    assert!(initialize(&mut ctx, bumps(), arg).is_ok());
    // January 1970 to January 2025
    assert_eq!(ctx.grant_shecdule.total_period, 660);
}

#[test]
fn initialize_rejects_dates_outside_the_calendar() {
    let mut ctx = init_accounts();
    let before = ctx;
    let mut arg = terms(1_200_000);
    arg.end_date = i64::MAX;
    assert_eq!(initialize(&mut ctx, bumps(), arg), Err(VestingErrors::InvalidTimeStamp));
    assert_eq!(ctx, before);
    arg = terms(1_200_000);
    arg.start_date = i64::MAX;
    assert_eq!(initialize(&mut ctx, bumps(), arg), Err(VestingErrors::InvalidTimeStamp));
    assert_eq!(ctx, before);
}

#[test]
fn initialize_rejects_an_end_before_the_start() {
    let mut ctx = init_accounts();
    let before = ctx;
    let mut arg = terms(1_200_000);
    arg.end_date = DEC_31_2023;
    assert_eq!(initialize(&mut ctx, bumps(), arg), Err(VestingErrors::OverflowError));
    assert_eq!(ctx, before);
}

#[test]
fn initialize_does_not_look_at_the_cliff() {
    let mut ctx = init_accounts();
    let mut arg = terms(1_200_000);
    arg.cliff_date = i64::MAX;
    assert!(initialize(&mut ctx, bumps(), arg).is_ok());
    let mut claim = claim_accounts(ctx.grant, ctx.grant_shecdule);
    let before = claim;
    assert_eq!(claim.claim(APR_01_2024), Err(VestingErrors::InvalidTimeStamp));
    assert_eq!(claim, before);
}

#[test]
fn full_lifecycle() {
    let mut ctx = claimant(1_200_000);
    let fresh = ctx;

    assert_eq!(claim_grant(&mut ctx, FEB_01_2024), Err(VestingErrors::ClaimBeforeCliff));
    assert_eq!(ctx, fresh);

    assert_eq!(claim_grant(&mut ctx, APR_01_2024), Ok(release_of(100_000)));
    assert_eq!(ctx.grant_account.total_amount_locked, 1_100_000);
    assert_eq!(ctx.grant_account.amount_unlocked, 100_000);
    assert_eq!(ctx.grant_schedule_account.no_of_months_completed, APR_01_2024);
    let after_first = ctx;

    assert_eq!(
        claim_grant(&mut ctx, APR_01_2024),
        Err(VestingErrors::AlreadyTakenCurrentMonthShares)
    );
    assert_eq!(ctx, after_first);
}

#[test]
fn revoke_after_a_claim_returns_the_rest() {
    let mut ctx = claimant(1_200_000);
    claim_grant(&mut ctx, APR_01_2024).unwrap();
    let accounts = revoke_accounts(
        ctx.grant_account,
        ctx.grant_schedule_account,
        ctx.grant_account.total_amount_locked,
    );
    assert_eq!(
        revoke_grant(accounts),
        Ok(Revocation {
            refund: TransferRequest {
                from: id(VAULT),
                to: id(EMPLOYER_TOKEN),
                mint: id(MINT),
                authority: id(GRANT),
                amount: 1_100_000,
                decimals: 6,
                signer: Some(grant_signer()),
            },
            closing: CloseRequest {
                account: id(VAULT),
                destination: id(EMPLOYER),
                authority: id(GRANT),
                signer: grant_signer(),
            },
        })
    );
}

#[test]
fn revoke_needs_no_vesting() {
    let made = granted(1_200_000);
    let accounts = revoke_accounts(made.grant, made.grant_shecdule, 1_200_000);
    assert_eq!(accounts.withdraw_amount().amount, 1_200_000);
    assert_eq!(accounts.close_accounts().destination, id(EMPLOYER));
    let done = revoke_grant(accounts).unwrap();
    assert_eq!(done.refund.amount, 1_200_000);
    assert_eq!(done.refund.to, id(EMPLOYER_TOKEN));
    assert_eq!(done.closing.account, id(VAULT));
}

#[test]
fn revoke_refunds_what_the_vault_holds() {
    let made = granted(1_200_000);
    let accounts = revoke_accounts(made.grant, made.grant_shecdule, 7);
    assert_eq!(revoke_grant(accounts).unwrap().refund.amount, 7);
}

#[test]
fn revoke_for_another_employee_is_unauthorized() {
    let made = granted(1_200_000);
    let mut accounts = revoke_accounts(made.grant, made.grant_shecdule, 1_200_000);
    accounts.employee = id(EMPLOYER);
    assert_eq!(revoke_grant(accounts), Err(VestingErrors::Unauthorized));
}

#[test]
fn revoke_of_another_asset_is_unauthorized() {
    let made = granted(1_200_000);
    let mut accounts = revoke_accounts(made.grant, made.grant_shecdule, 1_200_000);
    accounts.grant_mint.key = id(99);
    assert_eq!(revoke_grant(accounts), Err(VestingErrors::Unauthorized));
}

#[test]
fn truncation_to_zero_shares_is_rejected() {
    let mut ctx = claimant(11);
    let before = ctx;
    assert_eq!(ctx.claim(APR_01_2024), Err(VestingErrors::NoSharesAvailable));
    assert_eq!(ctx, before);
}

#[test]
fn claim_from_an_empty_vault() {
    let mut ctx = claimant(0);
    let before = ctx;
    assert_eq!(ctx.claim(APR_01_2024), Err(VestingErrors::EmptyVault));
    assert_eq!(ctx, before);
    // an empty vault is reported even before the cliff
    assert_eq!(ctx.claim(FEB_01_2024), Err(VestingErrors::EmptyVault));
    assert_eq!(ctx, before);
}

#[test]
fn claim_in_the_cliff_month_is_too_early() {
    let mut ctx = claimant(1_200_000);
    let before = ctx;
    assert_eq!(ctx.claim(MAR_01_2024), Err(VestingErrors::ClaimBeforeCliff));
    assert_eq!(ctx, before);
    assert_eq!(ctx.claim(JAN_01_2024), Err(VestingErrors::ClaimBeforeCliff));
    assert_eq!(ctx, before);
}

#[test]
fn claim_before_the_start_is_before_the_cliff() {
    let mut ctx = claimant(1_200_000);
    let before = ctx;
    assert_eq!(ctx.claim(DEC_31_2023), Err(VestingErrors::ClaimBeforeCliff));
    assert_eq!(ctx, before);
    // 1970-02-01, decades before the start
    assert_eq!(ctx.claim(2_678_400), Err(VestingErrors::ClaimBeforeCliff));
    assert_eq!(ctx, before);
}

fn claimant_with_cliff(cliff_date: i64, deposit: u64) -> ClaimGrant {
    let mut init = init_accounts();
    let arg = InitGrantArg { cliff_date, ..terms(deposit) };
    initialize(&mut init, bumps(), arg).unwrap();
    claim_accounts(init.grant, init.grant_shecdule)
}

#[test]
fn cliff_before_the_start_counts_as_a_negative_distance() {
    // cliff two months before the start; three months in, five are past it
    let mut ctx = claimant_with_cliff(NOV_20_2023, 1_200_000);
    assert_eq!(ctx.claim(APR_01_2024), Ok(release_of(500_000)));
    assert_eq!(ctx.grant_account.total_amount_locked, 700_000);
    assert_eq!(ctx.grant_account.amount_unlocked, 500_000);
    let after_first = ctx;
    assert_eq!(
        ctx.claim(APR_15_2024),
        Err(VestingErrors::AlreadyTakenCurrentMonthShares)
    );
    assert_eq!(ctx, after_first);
    // a month later: (700_000 / 12) * 6
    assert_eq!(ctx.claim(MAY_01_2024), Ok(release_of(349_998)));
}

#[test]
fn cliff_before_the_start_still_gates_earlier_months() {
    let mut ctx = claimant_with_cliff(NOV_20_2023, 1_200_000);
    let before = ctx;
    // the cliff month itself, and the month before it
    assert_eq!(ctx.claim(NOV_20_2023), Err(VestingErrors::ClaimBeforeCliff));
    assert_eq!(ctx, before);
    // 2023-10-01
    assert_eq!(ctx.claim(1_696_118_400), Err(VestingErrors::ClaimBeforeCliff));
    assert_eq!(ctx, before);
}

#[test]
fn no_claim_on_record_counts_as_month_zero() {
    // past a cliff that lies before the start, but not past the start month:
    // the month of "no claim yet" is zero, which is not before now
    let mut ctx = claimant_with_cliff(NOV_20_2023, 1_200_000);
    let before = ctx;
    assert_eq!(
        ctx.claim(DEC_01_2023),
        Err(VestingErrors::AlreadyTakenCurrentMonthShares)
    );
    assert_eq!(ctx, before);
    assert_eq!(
        ctx.claim(JAN_01_2024),
        Err(VestingErrors::AlreadyTakenCurrentMonthShares)
    );
    assert_eq!(ctx, before);
    // one month in, three months past the cliff
    assert_eq!(ctx.claim(FEB_01_2024), Ok(release_of(300_000)));
}

#[test]
fn gates_are_decided_before_the_shares_are_computed() {
    // a schedule that starts and ends in the same month has a period of zero
    let mut init = init_accounts();
    let arg = InitGrantArg {
        cliff_date: JAN_01_2024,
        start_date: JAN_01_2024,
        end_date: JAN_01_2024 + 86_400,
        grant_deposited: 1_200_000,
    };
    initialize(&mut init, bumps(), arg).unwrap();
    assert_eq!(init.grant_shecdule.total_period, 0);
    let mut ctx = claim_accounts(init.grant, init.grant_shecdule);
    let before = ctx;
    assert_eq!(ctx.claim(JAN_01_2024), Err(VestingErrors::ClaimBeforeCliff));
    assert_eq!(ctx.claim(DEC_31_2023), Err(VestingErrors::ClaimBeforeCliff));
    assert_eq!(ctx.claim(APR_01_2024), Err(VestingErrors::OverflowError));
    assert_eq!(ctx, before);
    ctx.grant_schedule_account.no_of_months_completed = APR_01_2024;
    let before = ctx;
    assert_eq!(
        ctx.claim(APR_15_2024),
        Err(VestingErrors::AlreadyTakenCurrentMonthShares)
    );
    assert_eq!(ctx, before);
}

#[test]
fn claim_in_a_month_before_the_last_claim_is_rejected() {
    let mut ctx = claimant(1_200_000);
    ctx.grant_schedule_account.no_of_months_completed = MAY_01_2024;
    let before = ctx;
    assert_eq!(
        ctx.claim(APR_15_2024),
        Err(VestingErrors::AlreadyTakenCurrentMonthShares)
    );
    assert_eq!(ctx, before);
}

#[test]
fn last_claim_before_the_start_does_not_block() {
    let mut ctx = claimant(1_200_000);
    ctx.grant_schedule_account.no_of_months_completed = DEC_31_2023;
    assert_eq!(ctx.claim(APR_01_2024), Ok(release_of(100_000)));
}

#[test]
fn claim_outside_the_calendar() {
    let mut ctx = claimant(1_200_000);
    let before = ctx;
    assert_eq!(ctx.claim(i64::MAX), Err(VestingErrors::InvalidTimeStamp));
    assert_eq!(ctx, before);
    assert_eq!(ctx.claim(i64::MIN), Err(VestingErrors::InvalidTimeStamp));
    assert_eq!(ctx, before);
}

#[test]
fn claim_long_after_the_end_exceeds_the_vault() {
    let mut ctx = claimant(1_200_000);
    let before = ctx;
    // twenty months in: 100_000 * 18
    assert_eq!(ctx.claim(SEP_01_2025), Err(VestingErrors::InsufficientFunds));
    assert_eq!(ctx, before);
}

#[test]
fn claim_that_would_overflow_the_released_amount() {
    let mut ctx = claimant(1_200_000);
    ctx.grant_account.amount_unlocked = u64::MAX - 99_999;
    let before = ctx;
    assert_eq!(ctx.claim(APR_01_2024), Err(VestingErrors::OverflowError));
    assert_eq!(ctx, before);
    ctx.grant_account.amount_unlocked = u64::MAX - 100_000;
    assert_eq!(ctx.claim(APR_01_2024), Ok(release_of(100_000)));
    assert_eq!(ctx.grant_account.amount_unlocked, u64::MAX);
}

#[test]
fn claim_by_another_employee_is_unauthorized() {
    let mut ctx = claimant(1_200_000);
    ctx.employee = id(EMPLOYER);
    let before = ctx;
    assert_eq!(ctx.claim(APR_01_2024), Err(VestingErrors::Unauthorized));
    assert_eq!(ctx, before);
}

#[test]
fn claim_of_another_asset_is_unauthorized() {
    let mut ctx = claimant(1_200_000);
    ctx.grant_mint.key = id(99);
    let before = ctx;
    assert_eq!(ctx.claim(APR_01_2024), Err(VestingErrors::Unauthorized));
    assert_eq!(ctx, before);
}

#[test]
fn second_claim_later_in_the_same_month_is_rejected() {
    let mut ctx = claimant(1_200_000);
    assert!(ctx.claim(APR_01_2024).is_ok());
    let after_first = ctx;
    assert_eq!(
        ctx.claim(APR_15_2024),
        Err(VestingErrors::AlreadyTakenCurrentMonthShares)
    );
    assert_eq!(ctx, after_first);
}

#[test]
fn claim_that_empties_the_vault_is_followed_by_empty_vault() {
    // one month past the cliff of a one-month schedule owes everything
    let mut init = init_accounts();
    let arg = InitGrantArg {
        cliff_date: JAN_01_2024,
        start_date: JAN_01_2024,
        end_date: FEB_01_2024,
        grant_deposited: 100,
    };
    initialize(&mut init, bumps(), arg).unwrap();
    let mut ctx = claim_accounts(init.grant, init.grant_shecdule);
    assert_eq!(ctx.claim(FEB_01_2024), Ok(release_of(100)));
    assert_eq!(ctx.grant_account.total_amount_locked, 0);
    assert_eq!(ctx.grant_account.amount_unlocked, 100);
    let drained = ctx;
    assert_eq!(ctx.claim(FEB_01_2024), Err(VestingErrors::EmptyVault));
    assert_eq!(ctx, drained);
}

#[test]
fn claims_month_after_month_keep_the_deposit() {
    let deposit: u64 = 1_200_000;
    let mut ctx = claimant(deposit);
    let times = [
        FEB_01_2024,
        APR_01_2024,
        APR_15_2024,
        MAY_01_2024,
        i64::MAX,
        JUN_01_2024,
        JUN_01_2024,
        SEP_01_2025,
    ];
    let mut locked = ctx.grant_account.total_amount_locked;
    let mut unlocked = ctx.grant_account.amount_unlocked;
    for now in times {
        let before = ctx;
        let outcome = ctx.claim(now);
        if outcome.is_err() {
            assert_eq!(ctx, before);
        }
        let grant = ctx.grant_account;
        assert_eq!(grant.total_amount_locked + grant.amount_unlocked, deposit);
        assert!(grant.total_amount_locked <= locked);
        assert!(grant.amount_unlocked >= unlocked);
        assert_eq!(ctx.grant_schedule_account.total_period, 12);
        assert_eq!(ctx.grant_schedule_account.start_date, JAN_01_2024);
        locked = grant.total_amount_locked;
        unlocked = grant.amount_unlocked;
    }
    // April: 100_000 of 1_200_000; May: (1_100_000 / 12) * 2; June: (916_668 / 12) * 3
    assert_eq!(unlocked, 100_000 + 183_332 + 229_167);
    assert_eq!(locked, deposit - 512_499);
}

#[test]
fn each_claim_is_reckoned_on_what_is_still_locked() {
    let mut ctx = claimant(1_200_000);
    assert_eq!(ctx.claim(APR_01_2024), Ok(release_of(100_000)));
    assert_eq!(ctx.claim(MAY_01_2024), Ok(release_of(183_332)));
    assert_eq!(ctx.grant_account.total_amount_locked, 916_668);
    assert_eq!(ctx.grant_account.amount_unlocked, 283_332);
    assert_eq!(ctx.grant_schedule_account.no_of_months_completed, MAY_01_2024);
}

#[test]
fn check_claim_tries_the_conditions_in_order() {
    let mut grant = blank_grant();
    assert_eq!(check_claim(&grant, 0, 5, 5, 5), Err(VestingErrors::EmptyVault));
    grant.total_amount_locked = 10;
    assert_eq!(check_claim(&grant, 0, 5, 5, 5), Err(VestingErrors::ClaimBeforeCliff));
    assert_eq!(
        check_claim(&grant, 0, 5, 4, 5),
        Err(VestingErrors::AlreadyTakenCurrentMonthShares)
    );
    assert_eq!(check_claim(&grant, 0, 5, 4, 4), Err(VestingErrors::OverflowError));
    assert_eq!(check_claim(&grant, 11, 5, 4, 4), Err(VestingErrors::NoSharesAvailable));
    assert_eq!(check_claim(&grant, 5, 11, 4, 4), Err(VestingErrors::InsufficientFunds));
    assert_eq!(check_claim(&grant, 5, 9, 4, 4), Ok(10));
    grant.amount_unlocked = u64::MAX - 9;
    assert_eq!(check_claim(&grant, 5, 9, 4, 4), Err(VestingErrors::OverflowError));
    grant.amount_unlocked = u64::MAX - 10;
    assert_eq!(check_claim(&grant, 5, 9, 4, 4), Ok(10));
}

#[test]
fn check_claim_compares_signed_distances() {
    let mut grant = blank_grant();
    grant.total_amount_locked = 1_200_000;
    assert_eq!(check_claim(&grant, 12, -1, 2, 0), Err(VestingErrors::ClaimBeforeCliff));
    assert_eq!(check_claim(&grant, 12, -3, -3, -9), Err(VestingErrors::ClaimBeforeCliff));
    assert_eq!(
        check_claim(&grant, 12, -1, -2, 0),
        Err(VestingErrors::AlreadyTakenCurrentMonthShares)
    );
    assert_eq!(
        check_claim(&grant, 12, -1, -2, -1),
        Err(VestingErrors::AlreadyTakenCurrentMonthShares)
    );
    assert_eq!(check_claim(&grant, 12, -1, -2, -2), Ok(100_000));
    assert_eq!(check_claim(&grant, 12, 3, -2, 0), Ok(500_000));
    assert_eq!(
        check_claim(&grant, 12, i64::MIN, i64::MAX, 0),
        Err(VestingErrors::ClaimBeforeCliff)
    );
    assert_eq!(
        check_claim(&grant, 12, i64::MAX, i64::MIN, 0),
        Err(VestingErrors::OverflowError)
    );
}
