//! The two records of a grant, and the identities they name.

use vstd::prelude::*;

verus! {

/// The 32-byte identity of a party, an asset or an account.
#[derive(Clone, Copy, Debug, PartialEq, Eq, Hash)]
pub struct Identity {
    pub bytes: [u8; 32],
}

impl Identity {
    /// Whether the two identities are the same.
    pub fn same_as(&self, other: &Identity) -> (r: bool)
        ensures
            r == (*self == *other),
    {
        let mut i: usize = 0;
        while i < 32
            invariant
                i <= 32,
                forall|j: int| 0 <= j < i ==> self.bytes[j] == other.bytes[j],
            decreases 32 - i,
        {
            if self.bytes[i] != other.bytes[i] {
                return false;
            }
            i += 1;
        }
        assert(self.bytes =~= other.bytes);
        true
    }
}

/// The balances of a grant and the parties it is bound to.
#[derive(Clone, Copy, Debug, PartialEq, Eq)]
pub struct Grant {
    /// The asset that is vested.
    pub grant_mint: Identity,
    /// The party the asset vests to.
    pub employee: Identity,
    /// What has not been released yet.
    pub total_amount_locked: u64,
    /// What has been released so far.
    pub amount_unlocked: u64,
    /// Bump of the grant's own address.
    pub grant_bump: u8,
    /// Bump of the vault's address.
    pub vault_bump: u8,
}

impl Grant {
    /// What was deposited: the locked and the released amount together.
    pub open spec fn deposited(self) -> int {
        self.total_amount_locked + self.amount_unlocked
    }

    /// The deposit is an amount of 64 bits.
    pub open spec fn wf(self) -> bool {
        self.deposited() <= u64::MAX
    }
}

/// The dates of a grant. All of them are UNIX timestamps; only the time of
/// the last claim ever changes.
#[derive(Clone, Copy, Debug, PartialEq, Eq, Structural)]
pub struct GrantShecdule {
    /// Up to the end of this month nothing can be claimed.
    pub cliff_date: i64,
    /// When vesting begins.
    pub start_date: i64,
    /// When vesting is complete.
    pub end_date: i64,
    /// The time of the last claim; zero while none was taken.
    pub no_of_months_completed: i64,
    /// Months from the start to the end, counted once when the grant is made.
    pub total_period: u32,
    /// Bump of the schedule's address.
    pub shecdule_bump: u8,
}

/// An asset: its identity and the number of decimals its amounts carry.
#[derive(Clone, Copy, Debug, PartialEq, Eq)]
pub struct Mint {
    pub key: Identity,
    pub decimals: u8,
}

/// A token account as far as a transition reads it: where it is and what it
/// holds.
#[derive(Clone, Copy, Debug, PartialEq, Eq)]
pub struct TokenAccount {
    pub key: Identity,
    pub amount: u64,
}

/// The standing of a grant to sign for its own vault: the two parties its
/// address is derived from, and the bump of that address.
#[derive(Clone, Copy, Debug, PartialEq, Eq)]
pub struct GrantAuthority {
    pub employer: Identity,
    pub employee: Identity,
    pub bump: u8,
}

/// A transfer that a transition asks for.
#[derive(Clone, Copy, Debug, PartialEq, Eq)]
pub struct TransferRequest {
    /// The token account that is debited.
    pub from: Identity,
    /// The token account that is credited.
    pub to: Identity,
    /// The asset that moves.
    pub mint: Identity,
    /// Who authorizes the transfer.
    pub authority: Identity,
    /// How much moves.
    pub amount: u64,
    /// The decimals of the asset, for the checked transfer.
    pub decimals: u8,
    /// Set when the authority is a grant that signs for itself.
    pub signer: Option<GrantAuthority>,
}

/// The closing of a vault that a transition asks for.
#[derive(Clone, Copy, Debug, PartialEq, Eq)]
pub struct CloseRequest {
    /// The vault that is closed.
    pub account: Identity,
    /// Who receives what the vault's account was funded with.
    pub destination: Identity,
    /// The grant that owns the vault.
    pub authority: Identity,
    /// The grant's standing to sign.
    pub signer: GrantAuthority,
}

} // verus!
