use vstd::prelude::*;

use crate::account::Account;
use crate::error::ExtensionError;
use crate::extension_index::{
    find_extension, lemma_find_from_in_bounds, spec_find_from, EXTENSION_INDEX_START,
};
use crate::instruction::{AccountMeta, Instruction};
use crate::{pubkey_eq, Pubkey, TOKEN_2022_PROGRAM_ID};

verus! {

/// Type tag under which the group-pointer record is filed in a mint's
/// extension index.
pub const GROUP_POINTER_TYPE: u16 = 20;

/// Size in bytes of the group-pointer record: two 32-byte addresses.
pub const GROUP_POINTER_LEN: usize = 64;

/// Leading payload byte that selects the group-pointer instruction
/// family of the token program.
pub const GROUP_POINTER_DISCRIMINATOR: u8 = 40;

/// Second payload byte that selects the initialize operation.
pub const INITIALIZE_DISCRIMINATOR: u8 = 0;

/// Second payload byte that selects the update operation.
pub const UPDATE_DISCRIMINATOR: u8 = 1;

/// The group-pointer extension record of a mint: the authority allowed
/// to change the pointer, and the address of the account that holds the
/// group.  Field order and the 64-byte total size are part of the wire
/// contract.
#[derive(Debug, Clone, Copy, PartialEq)]
pub struct GroupPointer {
    /// Authority that can set the group address.
    pub authority: Pubkey,
    /// Account address that holds the group.
    pub group_address: Pubkey,
}

/// Copies the 32-byte address that starts at `off` out of `data`.
fn read_pubkey(data: &Vec<u8>, off: usize) -> (r: Pubkey)
    requires
        off + 32 <= data@.len(),
    ensures
        r@ == data@.subrange(off as int, off as int + 32),
{
    let n: usize = data.len();
    let mut out: Pubkey = [0u8; 32];
    let mut i: usize = 0;
    while i < 32
        invariant
            i <= 32,
            off + 32 <= n == data@.len(),
            forall|j: int| 0 <= j < i ==> out@[j] == data@[off + j],
        decreases 32 - i,
    {
        out[i] = data[off + i];
        i += 1;
    }
    assert(out@ =~= data@.subrange(off as int, off as int + 32));
    out
}

impl GroupPointer {
    /// Validates that the buffer is owned by the expected token program,
    /// looks the group-pointer entry up in the buffer's extension index,
    /// and reads the record.
    ///
    /// Fails with `InvalidOwner` — before reading any data byte — when
    /// the owner does not match, and with `InvalidData` when the index
    /// holds no group-pointer entry or the entry's declared length is
    /// not the record size.
    pub fn from_account_info_unchecked(account_info: &Account) -> (r: Result<
        GroupPointer,
        ExtensionError,
    >)
        ensures
            account_info.owner@ != TOKEN_2022_PROGRAM_ID@ ==> r == Err::<
                GroupPointer,
                ExtensionError,
            >(ExtensionError::InvalidOwner),
            account_info.owner@ == TOKEN_2022_PROGRAM_ID@ ==> match spec_find_from(
                account_info.data@,
                GROUP_POINTER_TYPE,
                EXTENSION_INDEX_START as nat,
            ) {
                Some(entry) => {
                    &&& entry.1 == GROUP_POINTER_LEN ==> {
                        &&& r is Ok
                        &&& r->Ok_0.authority@ == account_info.data@.subrange(
                            entry.0 as int,
                            entry.0 as int + 32,
                        )
                        &&& r->Ok_0.group_address@ == account_info.data@.subrange(
                            entry.0 as int + 32,
                            entry.0 as int + 64,
                        )
                    }
                    &&& entry.1 != GROUP_POINTER_LEN ==> r == Err::<GroupPointer, ExtensionError>(
                        ExtensionError::InvalidData,
                    )
                },
                None => r == Err::<GroupPointer, ExtensionError>(ExtensionError::InvalidData),
            },
    {
        if !pubkey_eq(&account_info.owner, &TOKEN_2022_PROGRAM_ID) {
            return Err(ExtensionError::InvalidOwner);
        }
        match find_extension(&account_info.data, GROUP_POINTER_TYPE) {
            Some((off, len)) => {
                if len != GROUP_POINTER_LEN {
                    return Err(ExtensionError::InvalidData);
                }
                let n: usize = account_info.data.len();
                proof {
                    lemma_find_from_in_bounds(
                        account_info.data@,
                        GROUP_POINTER_TYPE,
                        EXTENSION_INDEX_START as nat,
                    );
                    assert(off + 64 <= n);
                }
                let authority = read_pubkey(&account_info.data, off);
                let group_address = read_pubkey(&account_info.data, off + 32);
                Ok(GroupPointer { authority, group_address })
            },
            None => Err(ExtensionError::InvalidData),
        }
    }
}

/// The bytes that stand for an optional address in a payload: the
/// address itself, or the 32-byte all-zero sentinel when it is absent.
/// Every field slot is always present on the wire; what a zero address
/// means is the target program's business.
pub open spec fn spec_address_bytes(a: Option<Pubkey>) -> Seq<u8> {
    match a {
        Some(k) => k@,
        None => Seq::new(32, |i: int| 0u8),
    }
}

/// The 66-byte initialize payload: the two discriminators, then the
/// authority and the group address, each a 32-byte slot.
pub open spec fn spec_initialize_payload(
    authority: Option<Pubkey>,
    group_address: Option<Pubkey>,
) -> Seq<u8> {
    seq![GROUP_POINTER_DISCRIMINATOR, INITIALIZE_DISCRIMINATOR] + spec_address_bytes(authority)
        + spec_address_bytes(group_address)
}

/// The 34-byte update payload: the two discriminators, then the group
/// address in one 32-byte slot.
pub open spec fn spec_update_payload(group_address: Option<Pubkey>) -> Seq<u8> {
    seq![GROUP_POINTER_DISCRIMINATOR, UPDATE_DISCRIMINATOR] + spec_address_bytes(group_address)
}

/// Appends the 32 bytes that stand for `addr` to `data`.
fn push_address(data: &mut Vec<u8>, addr: &Option<Pubkey>)
    ensures
        final(data)@ == old(data)@ + spec_address_bytes(*addr),
{
    match addr {
        Some(k) => {
            let mut i: usize = 0;
            while i < 32
                invariant
                    i <= 32,
                    data@ == old(data)@ + k@.subrange(0, i as int),
                decreases 32 - i,
            {
                let b: u8 = k[i];
                data.push(b);
                proof {
                    assert(data@ =~= old(data)@ + k@.subrange(0, i + 1));
                }
                i += 1;
            }
            proof {
                assert(k@.subrange(0, 32) =~= k@);
            }
        },
        None => {
            let mut i: usize = 0;
            while i < 32
                invariant
                    i <= 32,
                    data@.len() == old(data)@.len() + i,
                    data@ == old(data)@ + Seq::new(i as nat, |j: int| 0u8),
                decreases 32 - i,
            {
                data.push(0u8);
                proof {
                    assert(data@ =~= old(data)@ + Seq::new((i + 1) as nat, |j: int| 0u8));
                }
                i += 1;
            }
        },
    }
}

/// Round-trip of the initialize encoding: with both addresses present,
/// decoding the payload byte for byte yields the two discriminators,
/// the authority at bytes 2..34, and the group address at bytes 34..66.
pub proof fn lemma_initialize_round_trip(a: Pubkey, g: Pubkey)
    ensures
        spec_initialize_payload(Some(a), Some(g)).len() == 66,
        spec_initialize_payload(Some(a), Some(g))[0] == GROUP_POINTER_DISCRIMINATOR,
        spec_initialize_payload(Some(a), Some(g))[1] == INITIALIZE_DISCRIMINATOR,
        spec_initialize_payload(Some(a), Some(g)).subrange(2, 34) == a@,
        spec_initialize_payload(Some(a), Some(g)).subrange(34, 66) == g@,
{
    assert(spec_initialize_payload(Some(a), Some(g)).subrange(2, 34) =~= a@);
    assert(spec_initialize_payload(Some(a), Some(g)).subrange(34, 66) =~= g@);
}

/// Round-trip of the update encoding: decoding the payload byte for
/// byte yields the two discriminators and the group address at bytes
/// 2..34.
pub proof fn lemma_update_round_trip(g: Pubkey)
    ensures
        spec_update_payload(Some(g)).len() == 34,
        spec_update_payload(Some(g))[0] == GROUP_POINTER_DISCRIMINATOR,
        spec_update_payload(Some(g))[1] == UPDATE_DISCRIMINATOR,
        spec_update_payload(Some(g)).subrange(2, 34) == g@,
{
    assert(spec_update_payload(Some(g)).subrange(2, 34) =~= g@);
}

/// An absent optional field is encoded as 32 zero bytes in its slot,
/// never by shortening the payload.
pub proof fn lemma_absent_field_is_zero_sentinel(group_address: Option<Pubkey>)
    ensures
        spec_initialize_payload(None, group_address).len() == 66,
        forall|i: int|
            2 <= i < 34 ==> spec_initialize_payload(None, group_address)[i] == 0u8,
        spec_update_payload(None).len() == 34,
        forall|i: int| 2 <= i < 34 ==> spec_update_payload(None)[i] == 0u8,
{
}

/// Payload lengths are fixed whatever the optional fields hold: 66
/// bytes for initialize, 34 bytes for update.
pub proof fn lemma_payload_lengths(authority: Option<Pubkey>, group_address: Option<Pubkey>)
    ensures
        spec_initialize_payload(authority, group_address).len() == 66,
        spec_update_payload(group_address).len() == 34,
{
}

/// A request that the token program initialize the group-pointer record
/// of `mint`.  Optional fields absent from the request are encoded as
/// the zero sentinel, never omitted.
pub struct Initialize<'a> {
    /// Mint whose group-pointer record is to be initialized.
    pub mint: &'a Account,
    /// The address allowed to update the group address later.
    pub authority: Option<Pubkey>,
    /// The account address that holds the group.
    pub group_address: Option<Pubkey>,
}

impl Initialize<'_> {
    /// Encodes the initialize instruction: the 66-byte payload and the
    /// single writable account reference to the mint.
    ///
    /// Fails with `InvalidOwner` — before building anything — when the
    /// mint buffer is not owned by the expected token program.
    pub fn instruction(&self) -> (r: Result<Instruction, ExtensionError>)
        ensures
            self.mint.owner@ != TOKEN_2022_PROGRAM_ID@ ==> r == Err::<Instruction, ExtensionError>(
                ExtensionError::InvalidOwner,
            ),
            self.mint.owner@ == TOKEN_2022_PROGRAM_ID@ ==> {
                &&& r is Ok
                &&& r->Ok_0.program_id@ == TOKEN_2022_PROGRAM_ID@
                &&& r->Ok_0.data@ == spec_initialize_payload(self.authority, self.group_address)
                &&& r->Ok_0.accounts@ == seq![
                    (AccountMeta { pubkey: self.mint.key, is_writable: true, is_signer: false }),
                ]
            },
    {
        if !pubkey_eq(&self.mint.owner, &TOKEN_2022_PROGRAM_ID) {
            return Err(ExtensionError::InvalidOwner);
        }
        let mut data: Vec<u8> = Vec::new();
        data.push(GROUP_POINTER_DISCRIMINATOR);
        data.push(INITIALIZE_DISCRIMINATOR);
        push_address(&mut data, &self.authority);
        push_address(&mut data, &self.group_address);
        proof {
            assert(data@ =~= spec_initialize_payload(self.authority, self.group_address));
        }
        let mut accounts: Vec<AccountMeta> = Vec::new();
        accounts.push(AccountMeta::writable(self.mint.key));
        proof {
            assert(accounts@ =~= seq![
                (AccountMeta { pubkey: self.mint.key, is_writable: true, is_signer: false }),
            ]);
        }
        Ok(Instruction { program_id: TOKEN_2022_PROGRAM_ID, accounts, data })
    }
}

/// A request that the token program update the group-pointer record of
/// `mint`, authorized by `authority`.
pub struct Update<'a> {
    /// Mint whose group-pointer record is to be updated.
    pub mint: &'a Account,
    /// The account allowed to update the group address; it must sign.
    pub authority: &'a Account,
    /// The new account address that holds the group.
    pub group_address: Option<Pubkey>,
}

impl Update<'_> {
    /// Encodes the update instruction: the 34-byte payload and the two
    /// account references the token program expects, in this order: the
    /// mint, writable; the authority, read-only and signing.
    ///
    /// Fails with `InvalidOwner` — before building anything — when the
    /// mint buffer is not owned by the expected token program.
    pub fn instruction(&self) -> (r: Result<Instruction, ExtensionError>)
        ensures
            self.mint.owner@ != TOKEN_2022_PROGRAM_ID@ ==> r == Err::<Instruction, ExtensionError>(
                ExtensionError::InvalidOwner,
            ),
            self.mint.owner@ == TOKEN_2022_PROGRAM_ID@ ==> {
                &&& r is Ok
                &&& r->Ok_0.program_id@ == TOKEN_2022_PROGRAM_ID@
                &&& r->Ok_0.data@ == spec_update_payload(self.group_address)
                &&& r->Ok_0.accounts@ == seq![
                    (AccountMeta { pubkey: self.mint.key, is_writable: true, is_signer: false }),
                    (AccountMeta {
                        pubkey: self.authority.key,
                        is_writable: false,
                        is_signer: true,
                    }),
                ]
            },
    {
        if !pubkey_eq(&self.mint.owner, &TOKEN_2022_PROGRAM_ID) {
            return Err(ExtensionError::InvalidOwner);
        }
        let mut data: Vec<u8> = Vec::new();
        data.push(GROUP_POINTER_DISCRIMINATOR);
        data.push(UPDATE_DISCRIMINATOR);
        push_address(&mut data, &self.group_address);
        proof {
            assert(data@ =~= spec_update_payload(self.group_address));
        }
        let mut accounts: Vec<AccountMeta> = Vec::new();
        accounts.push(AccountMeta::writable(self.mint.key));
        accounts.push(AccountMeta::readonly_signer(self.authority.key));
        proof {
            assert(accounts@ =~= seq![
                (AccountMeta { pubkey: self.mint.key, is_writable: true, is_signer: false }),
                (AccountMeta { pubkey: self.authority.key, is_writable: false, is_signer: true }),
            ]);
        }
        Ok(Instruction { program_id: TOKEN_2022_PROGRAM_ID, accounts, data })
    }
}

} // verus!
