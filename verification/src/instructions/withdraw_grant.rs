//! Revoke: the employer takes back what is still in the vault and the grant
//! ends.

use vstd::prelude::*;
use crate::state::{
    CloseRequest, Grant, GrantAuthority, GrantShecdule, Identity, Mint, TokenAccount,
    TransferRequest,
};

verus! {

/// The accounts of a revocation.
#[derive(Clone, Copy, Debug, PartialEq, Eq)]
pub struct WithdrawGrant {
    /// The party that made the grant and now revokes it.
    pub employer: Identity,
    /// The party the grant vested to.
    pub employee: Identity,
    /// The asset that was vesting.
    pub grant_mint: Mint,
    /// The employer's token account, which receives what is left.
    pub employer_token_account: Identity,
    /// Where the grant's record lives.
    pub grant_address: Identity,
    /// The grant's record.
    pub grant_account: Grant,
    /// The grant's schedule.
    pub grant_schedule_account: GrantShecdule,
    /// The vault and what it holds.
    pub grant_vault_account: TokenAccount,
}

/// What a revocation asks for: first the refund, then the closing of the
/// vault. With it the grant's two records end.
#[derive(Clone, Copy, Debug, PartialEq, Eq)]
pub struct Revocation {
    pub refund: TransferRequest,
    pub closing: CloseRequest,
}

impl WithdrawGrant {
    /// The party and the asset are those the grant was made for.
    pub open spec fn authorized(self) -> bool {
        &&& self.employee == self.grant_account.employee
        &&& self.grant_mint.key == self.grant_account.grant_mint
    }

    /// The grant's standing to sign for its vault.
    pub open spec fn authority(self) -> GrantAuthority {
        GrantAuthority {
            employer: self.employer,
            employee: self.employee,
            bump: self.grant_account.grant_bump,
        }
    }

    /// The transfer that empties the vault into the employer's token account.
    pub open spec fn refund(self) -> TransferRequest {
        TransferRequest {
            from: self.grant_vault_account.key,
            to: self.employer_token_account,
            mint: self.grant_mint.key,
            authority: self.grant_address,
            amount: self.grant_vault_account.amount,
            decimals: self.grant_mint.decimals,
            signer: Some(self.authority()),
        }
    }

    /// The closing of the vault in favour of the employer.
    pub open spec fn closing(self) -> CloseRequest {
        CloseRequest {
            account: self.grant_vault_account.key,
            destination: self.employer,
            authority: self.grant_address,
            signer: self.authority(),
        }
    }

    fn signer(&self) -> (a: GrantAuthority)
        ensures
            a == self.authority(),
    {
        GrantAuthority {
            employer: self.employer,
            employee: self.employee,
            bump: self.grant_account.grant_bump,
        }
    }

    /// The transfer of everything the vault holds back to the employer,
    /// signed for by the grant.
    pub fn withdraw_amount(&self) -> (request: TransferRequest)
        ensures
            request == self.refund(),
    {
        TransferRequest {
            from: self.grant_vault_account.key,
            to: self.employer_token_account,
            mint: self.grant_mint.key,
            authority: self.grant_address,
            amount: self.grant_vault_account.amount,
            decimals: self.grant_mint.decimals,
            signer: Some(self.signer()),
        }
    }

    /// The closing of the emptied vault, signed for by the grant.
    pub fn close_accounts(&self) -> (request: CloseRequest)
        ensures
            request == self.closing(),
    {
        CloseRequest {
            account: self.grant_vault_account.key,
            destination: self.employer,
            authority: self.grant_address,
            signer: self.signer(),
        }
    }
}

} // verus!
