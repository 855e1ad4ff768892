//! The failures a vesting transition can report.

use vstd::prelude::*;

verus! {

/// Why a vesting transition was rejected.
#[derive(Clone, Copy, Debug, PartialEq, Eq, Structural)]
pub enum VestingErrors {
    /// A claim found nothing locked in the vault.
    EmptyVault,
    /// A claim came before the cliff month had passed.
    ClaimBeforeCliff,
    /// A claim was already taken in the current month.
    AlreadyTakenCurrentMonthShares,
    /// The entitlement came out as zero.
    NoSharesAvailable,
    /// The entitlement exceeds what is locked.
    InsufficientFunds,
    /// A timestamp is outside the calendar or implausibly early.
    InvalidTimeStamp,
    /// A month count or share amount does not fit its integer width.
    OverflowError,
    /// The caller is not a party bound to the grant.
    Unauthorized,
}

/// The number of the first error; the others follow in declaration order.
pub const ERROR_CODE_OFFSET: u32 = 6000;

impl VestingErrors {
    /// Position of the variant in declaration order, starting at zero.
    pub open spec fn ordinal(self) -> nat {
        match self {
            VestingErrors::EmptyVault => 0,
            VestingErrors::ClaimBeforeCliff => 1,
            VestingErrors::AlreadyTakenCurrentMonthShares => 2,
            VestingErrors::NoSharesAvailable => 3,
            VestingErrors::InsufficientFunds => 4,
            VestingErrors::InvalidTimeStamp => 5,
            VestingErrors::OverflowError => 6,
            VestingErrors::Unauthorized => 7,
        }
    }

    /// The text shown for the variant.
    pub open spec fn message_spec(self) -> Seq<char> {
        match self {
            VestingErrors::EmptyVault => "The vault is empty."@,
            VestingErrors::ClaimBeforeCliff => "Cannot claim before the cliff period."@,
            VestingErrors::AlreadyTakenCurrentMonthShares =>
                "Shares for the current month have already been taken."@,
            VestingErrors::NoSharesAvailable => "No shares available for claiming."@,
            VestingErrors::InsufficientFunds => "Insufficient funds in the vault."@,
            VestingErrors::InvalidTimeStamp => "The Given Timestamp is Invalid"@,
            VestingErrors::OverflowError => "Overflow Error Occured"@,
            VestingErrors::Unauthorized => "The caller is not bound to this grant."@,
        }
    }

    /// The numeric code under which the error is reported.
    pub fn code(&self) -> (c: u32)
        ensures
            c == ERROR_CODE_OFFSET + self.ordinal(),
    {
        match self {
            VestingErrors::EmptyVault => ERROR_CODE_OFFSET,
            VestingErrors::ClaimBeforeCliff => ERROR_CODE_OFFSET + 1,
            VestingErrors::AlreadyTakenCurrentMonthShares => ERROR_CODE_OFFSET + 2,
            VestingErrors::NoSharesAvailable => ERROR_CODE_OFFSET + 3,
            VestingErrors::InsufficientFunds => ERROR_CODE_OFFSET + 4,
            VestingErrors::InvalidTimeStamp => ERROR_CODE_OFFSET + 5,
            VestingErrors::OverflowError => ERROR_CODE_OFFSET + 6,
            VestingErrors::Unauthorized => ERROR_CODE_OFFSET + 7,
        }
    }

    /// The human-readable message of the error.
    pub fn message(&self) -> (s: String)
        ensures
            s@ == self.message_spec(),
    {
        match self {
            VestingErrors::EmptyVault => "The vault is empty.".to_owned(),
            VestingErrors::ClaimBeforeCliff => "Cannot claim before the cliff period.".to_owned(),
            VestingErrors::AlreadyTakenCurrentMonthShares =>
                "Shares for the current month have already been taken.".to_owned(),
            VestingErrors::NoSharesAvailable => "No shares available for claiming.".to_owned(),
            VestingErrors::InsufficientFunds => "Insufficient funds in the vault.".to_owned(),
            VestingErrors::InvalidTimeStamp => "The Given Timestamp is Invalid".to_owned(),
            VestingErrors::OverflowError => "Overflow Error Occured".to_owned(),
            VestingErrors::Unauthorized => "The caller is not bound to this grant.".to_owned(),
        }
    }
}

} // verus!
