//! The three transitions of a grant: initialize, claim and revoke.
//!
//! A transition reads the accounts it is handed as plain values, decides,
//! updates the grant's records and returns the transfer it asks for. Carrying
//! the transfer out, and dropping the whole transition should the transfer
//! fail, is the caller's part.

pub mod claim_grant;
pub mod init_grant;
pub mod withdraw_grant;
