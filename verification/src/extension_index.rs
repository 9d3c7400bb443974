use vstd::prelude::*;

verus! {

/// Byte offset at which the extension index starts inside an extended
/// account's data: the base mint state, its padding, and the one-byte
/// account-type marker precede it.
pub const EXTENSION_INDEX_START: usize = 166;

/// The unsigned 16-bit value that two bytes encode little-endian.
pub open spec fn spec_u16_le(lo: u8, hi: u8) -> u16 {
    (lo + hi * 256) as u16
}

/// What scanning the extension index from byte offset `off` yields: the
/// value offset and declared length of the first entry carrying `tag`.
///
/// Each index entry is self-describing: a two-byte type tag, a two-byte
/// value length, both little-endian, then the value itself.  The scan
/// stops without a result where the bytes cannot hold another entry
/// header, and where an entry's declared value would run past the end of
/// the buffer — from such a point on the index is malformed and nothing
/// behind it can be trusted.
pub open spec fn spec_find_from(data: Seq<u8>, tag: u16, off: nat) -> Option<(nat, nat)>
    decreases data.len() - off,
{
    if off + 4 > data.len() {
        None
    } else {
        let ty = spec_u16_le(data[off as int], data[off as int + 1]);
        let len = spec_u16_le(data[off as int + 2], data[off as int + 3]) as nat;
        if off + 4 + len > data.len() {
            None
        } else if ty == tag {
            Some(((off + 4) as nat, len))
        } else {
            spec_find_from(data, tag, (off + 4 + len) as nat)
        }
    }
}

/// An entry the scan yields lies entirely inside the buffer, behind its
/// four-byte header.
pub proof fn lemma_find_from_in_bounds(data: Seq<u8>, tag: u16, off: nat)
    ensures
        spec_find_from(data, tag, off) matches Some(e) ==> off + 4 <= e.0 && e.0 + e.1
            <= data.len(),
    decreases data.len() - off,
{
    if off + 4 > data.len() {
    } else {
        let len = spec_u16_le(data[off as int + 2], data[off as int + 3]) as nat;
        if off + 4 + len <= data.len() {
            lemma_find_from_in_bounds(data, tag, (off + 4 + len) as nat);
        }
    }
}

/// The same entry, with its offset and length as machine integers.
pub open spec fn spec_entry(r: Option<(usize, usize)>) -> Option<(nat, nat)> {
    match r {
        Some((o, l)) => Some((o as nat, l as nat)),
        None => None,
    }
}

/// Scans the extension index embedded in `data` for the first entry
/// carrying `tag`, and returns the offset and declared length of that
/// entry's value.
pub fn find_extension(data: &Vec<u8>, tag: u16) -> (r: Option<(usize, usize)>)
    ensures
        spec_entry(r) == spec_find_from(data@, tag, EXTENSION_INDEX_START as nat),
{
    let mut off: usize = EXTENSION_INDEX_START;
    if data.len() < EXTENSION_INDEX_START || data.len() - off < 4 {
        return None;
    }
    loop
        invariant
            off <= data@.len(),
            data@.len() == data.len(),
            spec_find_from(data@, tag, EXTENSION_INDEX_START as nat) == spec_find_from(
                data@,
                tag,
                off as nat,
            ),
        decreases data@.len() - off,
    {
        if data.len() - off < 4 {
            return None;
        }
        let ty: u16 = data[off] as u16 + data[off + 1] as u16 * 256;
        let len: u16 = data[off + 2] as u16 + data[off + 3] as u16 * 256;
        assert(ty == spec_u16_le(data@[off as int], data@[off as int + 1]));
        assert(len == spec_u16_le(data@[off as int + 2], data@[off as int + 3]));
        let value_off: usize = off + 4;
        if len as usize > data.len() - value_off {
            return None;
        }
        if ty == tag {
            return Some((value_off, len as usize));
        }
        off = value_off + len as usize;
    }
}

} // verus!
