use vstd::prelude::*;

use crate::Pubkey;

verus! {

/// A caller-supplied account buffer, reduced to what this crate reads of
/// it: the account's address, the program that owns it, and its raw data
/// bytes.  The caller that holds the live account hands a copy of these
/// three values in and keeps everything else (lamports, borrow state,
/// flags) to itself.
pub struct Account {
    /// Address of the account.
    pub key: Pubkey,
    /// Program that owns the account.
    pub owner: Pubkey,
    /// The account's raw data.
    pub data: Vec<u8>,
}

} // verus!
