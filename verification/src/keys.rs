//! Reading the fields that a storage key carries at fixed offsets.
//!
//! A key of a storage map is the 32-byte hash of the pallet and item names followed, for
//! each map key, by a 16-byte blake2-128 hash and the SCALE encoding of that key. The
//! first map key's value therefore starts at byte 48.

use vstd::prelude::*;
use vstd::slice::slice_subrange;

use crate::address::AccountId32;
use crate::scale::{decode_string, decode_u32, decode_u64, le_u32, le_u64, scale_decode_string};

verus! {

/// The little-endian `u32` at `offset` of a key.
pub open spec fn key_u32(key: Seq<u8>, offset: int) -> int {
    le_u32(key.subrange(offset, offset + 4))
}

/// The little-endian `u64` at `offset` of a key.
pub open spec fn key_u64(key: Seq<u8>, offset: int) -> int {
    le_u64(key.subrange(offset, offset + 8))
}

/// The 32 account bytes at `offset` of a key.
pub open spec fn key_account(key: Seq<u8>, offset: int) -> Seq<u8> {
    key.subrange(offset, offset + 32)
}

/// Reads the `u32` that a key holds at `offset`.
pub fn key_u32_at(key: &[u8], offset: usize) -> (r: u32)
    requires
        offset + 4 <= key@.len(),
    ensures
        r == key_u32(key@, offset as int),
{
    let _len = key.len();
    let bytes = slice_subrange(key, offset, offset + 4);
    match decode_u32(bytes) {
        Ok(v) => v,
        Err(_) => {
            assert(false);
            0
        },
    }
}

/// Reads the `u64` that a key holds at `offset`.
pub fn key_u64_at(key: &[u8], offset: usize) -> (r: u64)
    requires
        offset + 8 <= key@.len(),
    ensures
        r == key_u64(key@, offset as int),
{
    let _len = key.len();
    let bytes = slice_subrange(key, offset, offset + 8);
    match decode_u64(bytes) {
        Ok(v) => v,
        Err(_) => {
            assert(false);
            0
        },
    }
}

/// Reads the account that a key holds at `offset` (an account id is encoded as its 32
/// raw bytes).
pub fn key_account_at(key: &[u8], offset: usize) -> (r: AccountId32)
    requires
        offset + 32 <= key@.len(),
    ensures
        r@ == key_account(key@, offset as int),
{
    let len = key.len();
    let mut bytes = [0u8; 32];
    let mut i: usize = 0;
    while i < 32
        invariant
            i <= 32,
            offset + 32 <= key@.len(),
            len == key@.len(),
            bytes@.len() == 32,
            forall|j: int| 0 <= j < i ==> bytes@[j] == key@[offset + j],
        decreases 32 - i,
    {
        bytes.set(i, key[offset + i]);
        i = i + 1;
    }
    assert(bytes@ =~= key_account(key@, offset as int));
    AccountId32(bytes)
}

/// Reads the text that a key holds from `offset` on, if it holds one there.
pub fn key_text_at(key: &[u8], offset: usize) -> (r: Option<String>)
    requires
        offset <= key@.len(),
    ensures
        r is Some <==> scale_decode_string(key@.subrange(offset as int, key@.len() as int)) is Some,
        r matches Some(s) ==> scale_decode_string(key@.subrange(offset as int, key@.len() as int)) == Some(s@),
{
    let bytes = slice_subrange(key, offset, key.len());
    match decode_string(bytes) {
        Ok(s) => Some(s),
        Err(_) => None,
    }
}

} // verus!
