//! The storage keys the queries read under: the prefix of a storage item (the xxHash-128
//! of the pallet name and of the item name) and the `Blake2_128Concat` hashing of map
//! keys (the blake2-128 hash of the encoded key, followed by the encoded key).

use vstd::prelude::*;
use vstd::slice::slice_to_vec;
use vstd::utf8::encode_utf8;

use crate::address::AccountId32;
use crate::text::text_bytes;

verus! {

/// The 16-byte xxHash-128 (`twox_128`) of some bytes.
pub uninterp spec fn twox_128(data: Seq<u8>) -> Seq<u8>;

/// The 16-byte blake2b-128 digest of some bytes.
pub uninterp spec fn blake2_128(data: Seq<u8>) -> Seq<u8>;

/// Calls `sp_crypto_hashing::twox_128`, the hash storage prefixes are made of. The
/// contract names it.
#[verifier::external_body]
fn hash_twox_128(data: &[u8]) -> (r: [u8; 16])
    ensures
        r@ == twox_128(data@),
{
    sp_crypto_hashing::twox_128(data)
}

/// Calls `sp_crypto_hashing::blake2_128`, the hash of `Blake2_128Concat` map keys. The
/// contract names it.
#[verifier::external_body]
fn hash_blake2_128(data: &[u8]) -> (r: [u8; 16])
    ensures
        r@ == blake2_128(data@),
{
    sp_crypto_hashing::blake2_128(data)
}

/// Calls `Encode::encode` of `parity_scale_codec` on a `u64`: by the SCALE format (the
/// crate's `Encode` for integers writes `to_le_bytes`), its eight little-endian bytes.
#[verifier::external_body]
fn encode_u64(n: u64) -> (r: Vec<u8>)
    ensures
        r@ == le_bytes_u64(n),
{
    parity_scale_codec::Encode::encode(&n)
}

/// Calls `Encode::encode` of `parity_scale_codec` on a `u32`: its four little-endian
/// bytes.
#[verifier::external_body]
fn encode_u32(n: u32) -> (r: Vec<u8>)
    ensures
        r@ == le_bytes_u32(n),
{
    parity_scale_codec::Encode::encode(&n)
}

/// The prefix of a storage item.
pub open spec fn item_prefix(pallet: Seq<char>, item: Seq<char>) -> Seq<u8> {
    twox_128(encode_utf8(pallet)) + twox_128(encode_utf8(item))
}

/// The prefix of a storage item, from its pallet and item names.
pub fn storage_prefix(pallet: &str, item: &str) -> (r: Vec<u8>)
    ensures
        r@ == item_prefix(pallet@, item@),
{
    let p = text_bytes(pallet);
    let i = text_bytes(item);
    let hp = hash_twox_128(p.as_slice());
    let hi = hash_twox_128(i.as_slice());
    let mut r = slice_to_vec(hp.as_slice());
    let mut tail = slice_to_vec(hi.as_slice());
    r.append(&mut tail);
    r
}

/// A map key as `Blake2_128Concat` stores it.
pub open spec fn blake2_128_concat(encoded: Seq<u8>) -> Seq<u8> {
    blake2_128(encoded) + encoded
}

/// Appends the `Blake2_128Concat` form of an encoded map key to a storage key.
pub fn push_blake2_128_concat(key: &mut Vec<u8>, encoded: &[u8])
    ensures
        final(key)@ == old(key)@ + blake2_128_concat(encoded@),
{
    let h = hash_blake2_128(encoded);
    let mut hashed = slice_to_vec(h.as_slice());
    let mut raw = slice_to_vec(encoded);
    key.append(&mut hashed);
    key.append(&mut raw);
    assert(key@ =~= old(key)@ + blake2_128_concat(encoded@));
}

/// The storage items the queries read.
#[derive(Clone, Copy, Debug, PartialEq, Eq, Structural)]
pub enum StorageItem {
    AssetBalances,
    FulaManifests,
    FulaManifestsStorerData,
    FulaChallengeRequests,
    FulaClaims,
    PoolPools,
    PoolPoolRequests,
    PoolUsers,
    BundleAssetBundles,
    BundleBundles,
}

/// The pallet and item names of a storage item.
pub open spec fn item_names(item: StorageItem) -> (Seq<char>, Seq<char>) {
    match item {
        StorageItem::AssetBalances => ("Asset"@, "Balances"@),
        StorageItem::FulaManifests => ("Fula"@, "Manifests"@),
        StorageItem::FulaManifestsStorerData => ("Fula"@, "ManifestsStorerData"@),
        StorageItem::FulaChallengeRequests => ("Fula"@, "ChallengeRequests"@),
        StorageItem::FulaClaims => ("Fula"@, "Claims"@),
        StorageItem::PoolPools => ("Pool"@, "Pools"@),
        StorageItem::PoolPoolRequests => ("Pool"@, "PoolRequests"@),
        StorageItem::PoolUsers => ("Pool"@, "Users"@),
        StorageItem::BundleAssetBundles => ("Bundle"@, "AssetBundles"@),
        StorageItem::BundleBundles => ("Bundle"@, "Bundles"@),
    }
}

/// The prefix all keys of a storage item start with: the key the queries that read a
/// whole item list their keys under.
pub fn item_root(item: StorageItem) -> (r: Vec<u8>)
    ensures
        r@ == item_prefix(item_names(item).0, item_names(item).1),
{
    let (pallet, name) = match item {
        StorageItem::AssetBalances => ("Asset", "Balances"),
        StorageItem::FulaManifests => ("Fula", "Manifests"),
        StorageItem::FulaManifestsStorerData => ("Fula", "ManifestsStorerData"),
        StorageItem::FulaChallengeRequests => ("Fula", "ChallengeRequests"),
        StorageItem::FulaClaims => ("Fula", "Claims"),
        StorageItem::PoolPools => ("Pool", "Pools"),
        StorageItem::PoolPoolRequests => ("Pool", "PoolRequests"),
        StorageItem::PoolUsers => ("Pool", "Users"),
        StorageItem::BundleAssetBundles => ("Bundle", "AssetBundles"),
        StorageItem::BundleBundles => ("Bundle", "Bundles"),
    };
    storage_prefix(pallet, name)
}

/// The key the balance query lists an owner's balances under: the prefix of the asset
/// balances, the owner and, when a class is given, the class, each as `Blake2_128Concat`.
pub open spec fn balances_query_key(account: Seq<u8>, class_id: Option<u64>) -> Seq<u8> {
    let base = item_prefix("Asset"@, "Balances"@) + blake2_128_concat(account);
    match class_id {
        Some(c) => base + blake2_128(le_bytes_u64(c)) + le_bytes_u64(c),
        None => base,
    }
}

/// The SCALE encoding of a `u64`: its eight bytes, least significant first.
pub open spec fn le_bytes_u64(n: u64) -> Seq<u8> {
    Seq::new(8, |i: int| ((n as int / pow256(i)) % 256) as u8)
}

/// The SCALE encoding of a `u32`: its four bytes, least significant first.
pub open spec fn le_bytes_u32(n: u32) -> Seq<u8> {
    Seq::new(4, |i: int| ((n as int / pow256(i)) % 256) as u8)
}

/// 256 to the power `i`, for the byte positions of a little-endian number.
pub open spec fn pow256(i: int) -> int
    decreases i,
{
    if i <= 0 {
        1
    } else {
        256 * pow256(i - 1)
    }
}

/// The key the balance query lists an owner's balances under.
pub fn asset_balances_query_key(account: &AccountId32, class_id: Option<u64>) -> (r: Vec<u8>)
    ensures
        r@ == balances_query_key(account@, class_id),
{
    let mut key = item_root(StorageItem::AssetBalances);
    proof {
        reveal_strlit("Asset");
        reveal_strlit("Balances");
    }
    push_blake2_128_concat(&mut key, account.0.as_slice());
    if let Some(c) = class_id {
        let encoded = encode_u64(c);
        push_blake2_128_concat(&mut key, encoded.as_slice());
        assert(key@ =~= balances_query_key(account@, class_id));
    }
    key
}

/// The key a query lists the entries of a map item under, optionally narrowed to a
/// first map key that is a `u32` (`Blake2_128Concat`).
pub open spec fn u32_query_key(item: StorageItem, first: Option<u32>) -> Seq<u8> {
    let root = item_prefix(item_names(item).0, item_names(item).1);
    match first {
        Some(p) => root + blake2_128_concat(le_bytes_u32(p)),
        None => root,
    }
}

/// The key a query lists the entries of a map item under, narrowed to a pool when one is
/// given (the manifest and storer-data queries).
pub fn pool_query_key(item: StorageItem, pool_id: Option<u32>) -> (r: Vec<u8>)
    ensures
        r@ == u32_query_key(item, pool_id),
{
    let mut key = item_root(item);
    if let Some(p) = pool_id {
        let encoded = encode_u32(p);
        push_blake2_128_concat(&mut key, encoded.as_slice());
    }
    key
}

/// The key the join-request query lists requests under: the item prefix and, when a pool
/// is given, the blake2-128 hash of its number (without the number itself).
pub open spec fn pool_requests_key(pool_id: Option<u32>) -> Seq<u8> {
    let root = item_prefix("Pool"@, "PoolRequests"@);
    match pool_id {
        Some(p) => root + blake2_128(le_bytes_u32(p)),
        None => root,
    }
}

/// The key the join-request query lists requests under.
pub fn pool_requests_query_key(pool_id: Option<u32>) -> (r: Vec<u8>)
    ensures
        r@ == pool_requests_key(pool_id),
{
    let mut key = item_root(StorageItem::PoolPoolRequests);
    proof {
        reveal_strlit("Pool");
        reveal_strlit("PoolRequests");
    }
    if let Some(p) = pool_id {
        let encoded = encode_u32(p);
        let h = hash_blake2_128(encoded.as_slice());
        let mut hashed = slice_to_vec(h.as_slice());
        key.append(&mut hashed);
    }
    key
}

/// The key the pending-challenge query lists an account's challenges under: the item
/// prefix and the account as `Blake2_128Concat`.
pub fn challenge_requests_query_key(account: &AccountId32) -> (r: Vec<u8>)
    ensures
        r@ == item_prefix("Fula"@, "ChallengeRequests"@) + blake2_128_concat(account@),
{
    let mut key = item_root(StorageItem::FulaChallengeRequests);
    proof {
        reveal_strlit("Fula");
        reveal_strlit("ChallengeRequests");
    }
    push_blake2_128_concat(&mut key, account.0.as_slice());
    key
}

} // verus!
