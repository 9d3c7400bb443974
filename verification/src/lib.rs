//! Reading and writing the group-pointer extension of a token mint.
//!
//! A mint account owned by the token program may carry extension records
//! appended after its base state, each introduced by a type tag and a
//! length.  This crate validates such a buffer, looks the group-pointer
//! record up in that index, and encodes the instruction payloads that ask
//! the token program to initialize or update the record.  Dispatching an
//! encoded instruction is left to the caller.

use vstd::prelude::*;

pub mod account;
pub mod error;
pub mod extension_index;
pub mod group_pointer;
pub mod instruction;

pub use account::Account;
pub use error::ExtensionError;
pub use group_pointer::{GroupPointer, Initialize, Update};
pub use instruction::{AccountMeta, Instruction};

verus! {

/// A 32-byte account address.
pub type Pubkey = [u8; 32];

/// Address of the token program that owns extended mint accounts and
/// executes the instructions this crate encodes.
pub const TOKEN_2022_PROGRAM_ID: Pubkey = [
    6, 221, 246, 225, 238, 117, 143, 222, 24, 66, 93, 188, 228, 108, 205, 218, 182, 26, 252, 77,
    131, 185, 13, 39, 254, 189, 249, 40, 216, 161, 139, 252,
];

/// Byte-wise equality of two addresses.
pub fn pubkey_eq(a: &Pubkey, b: &Pubkey) -> (r: bool)
    ensures
        r == (a@ == b@),
{
    let mut i: usize = 0;
    while i < 32
        invariant
            i <= 32,
            forall|j: int| 0 <= j < i ==> a@[j] == b@[j],
        decreases 32 - i,
    {
        if a[i] != b[i] {
            return false;
        }
        i += 1;
    }
    assert(a@ =~= b@);
    true
}

} // verus!
