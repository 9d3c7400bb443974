use vstd::prelude::*;

use crate::Pubkey;

verus! {

/// One account reference attached to an instruction: an address plus the
/// writable and signer flags the target program expects.  The order of
/// these references inside an instruction is part of the wire contract.
#[derive(Clone, Copy, Debug, PartialEq, Eq)]
pub struct AccountMeta {
    /// Address of the referenced account.
    pub pubkey: Pubkey,
    /// Whether the target program may mutate the account.
    pub is_writable: bool,
    /// Whether the account must have signed the transaction.
    pub is_signer: bool,
}

impl AccountMeta {
    /// A writable, non-signing account reference.
    pub fn writable(pubkey: Pubkey) -> (r: AccountMeta)
        ensures
            r == (AccountMeta { pubkey, is_writable: true, is_signer: false }),
    {
        AccountMeta { pubkey, is_writable: true, is_signer: false }
    }

    /// A read-only account reference that must have signed.
    pub fn readonly_signer(pubkey: Pubkey) -> (r: AccountMeta)
        ensures
            r == (AccountMeta { pubkey, is_writable: false, is_signer: true }),
    {
        AccountMeta { pubkey, is_writable: false, is_signer: true }
    }
}

/// A fully encoded instruction: the target program, the ordered account
/// references, and the payload bytes.  Dispatching it is the caller's
/// business; this crate only guarantees its exact content.
pub struct Instruction {
    /// Program the instruction is addressed to.
    pub program_id: Pubkey,
    /// Ordered account references, exactly as the target program expects.
    pub accounts: Vec<AccountMeta>,
    /// The payload bytes.
    pub data: Vec<u8>,
}

} // verus!
