//! The pieces of the SCALE codec, blake2 hashing and hex text that the API uses to read
//! storage keys and to name bundles.

use vstd::prelude::*;

verus! {

#[verifier::external_type_specification]
#[verifier::external_body]
pub struct ExCodecError(parity_scale_codec::Error);

/// The value of four bytes read as a little-endian unsigned number.
pub open spec fn le_u32(b: Seq<u8>) -> int {
    b[0] + b[1] * 0x100 + b[2] * 0x1_0000 + b[3] * 0x100_0000
}

/// The value of eight bytes read as a little-endian unsigned number.
pub open spec fn le_u64(b: Seq<u8>) -> int {
    le_u32(b.subrange(0, 4)) + le_u32(b.subrange(4, 8)) * 0x1_0000_0000
}

/// The value of sixteen bytes read as a little-endian unsigned number.
pub open spec fn le_u128(b: Seq<u8>) -> int {
    le_u64(b.subrange(0, 8)) + le_u64(b.subrange(8, 16)) * 0x1_0000_0000_0000_0000
}

/// The text that `String::decode` reads from the start of `bytes`, if it reads one.
pub uninterp spec fn scale_decode_string(bytes: Seq<u8>) -> Option<Seq<char>>;

/// The SCALE encoding of a bundle schema, the tuple of its class identifiers, the asset
/// identifiers of each class and the amounts of each class.
pub uninterp spec fn scale_encode_bundle_schema(
    class_ids: Seq<u64>,
    asset_ids: Seq<Seq<u64>>,
    amounts: Seq<Seq<u128>>,
) -> Seq<u8>;

/// The 32-byte blake2b-256 digest of `data`.
pub uninterp spec fn blake2_256(data: Seq<u8>) -> Seq<u8>;

/// The lower-case hexadecimal digit of a value below 16.
pub open spec fn hex_digit(n: int) -> char {
    if n < 10 {
        ('0' as int + n) as char
    } else {
        ('a' as int + n - 10) as char
    }
}

/// The lower-case hexadecimal text of some bytes: two digits per byte, the high half first.
pub open spec fn hex_lower(b: Seq<u8>) -> Seq<char>
    decreases b.len(),
{
    if b.len() == 0 {
        Seq::empty()
    } else {
        seq![hex_digit(b[0] as int / 16), hex_digit(b[0] as int % 16)] + hex_lower(b.drop_first())
    }
}

/// Calls `u32::decode` of `parity_scale_codec` on four bytes. Its source reads exactly
/// four bytes and returns `u32::from_le_bytes` of them; it fails only on shorter input.
#[verifier::external_body]
pub(crate) fn decode_u32(bytes: &[u8]) -> (r: Result<u32, parity_scale_codec::Error>)
    requires
        bytes@.len() == 4,
    ensures
        r is Ok,
        r matches Ok(v) ==> v == le_u32(bytes@),
{
    <u32 as parity_scale_codec::Decode>::decode(&mut &bytes[..])
}

/// Calls `u64::decode` of `parity_scale_codec` on eight bytes, which reads them as
/// `u64::from_le_bytes` and fails only on shorter input.
#[verifier::external_body]
pub(crate) fn decode_u64(bytes: &[u8]) -> (r: Result<u64, parity_scale_codec::Error>)
    requires
        bytes@.len() == 8,
    ensures
        r is Ok,
        r matches Ok(v) ==> v == le_u64(bytes@),
{
    <u64 as parity_scale_codec::Decode>::decode(&mut &bytes[..])
}

/// Calls `u128::decode` of `parity_scale_codec` on the start of some bytes: it reads the
/// first sixteen as `u128::from_le_bytes` and fails only on shorter input.
#[verifier::external_body]
pub(crate) fn decode_u128(bytes: &[u8]) -> (r: Result<u128, parity_scale_codec::Error>)
    requires
        bytes@.len() >= 16,
    ensures
        r is Ok,
        r matches Ok(v) ==> v == le_u128(bytes@),
{
    <u128 as parity_scale_codec::Decode>::decode(&mut &bytes[..])
}

/// Calls `String::decode` of `parity_scale_codec`: a compact length, that many bytes,
/// and a UTF-8 check. The contract names its result `scale_decode_string`.
#[verifier::external_body]
pub(crate) fn decode_string(bytes: &[u8]) -> (r: Result<String, parity_scale_codec::Error>)
    ensures
        r is Ok <==> scale_decode_string(bytes@) is Some,
        r matches Ok(s) ==> scale_decode_string(bytes@) == Some(s@),
{
    <String as parity_scale_codec::Decode>::decode(&mut &bytes[..])
}

/// Calls `Encode::encode` of `parity_scale_codec` on the schema tuple
/// `(Vec<u64>, Vec<Vec<u64>>, Vec<Vec<u128>>)`, which encodes exactly like the bounded
/// vectors that the chain declares. The contract names its result.
#[verifier::external_body]
pub(crate) fn encode_bundle_schema(
    class_ids: &Vec<u64>,
    asset_ids: &Vec<Vec<u64>>,
    amounts: &Vec<Vec<u128>>,
) -> (r: Vec<u8>)
    ensures
        r@ == scale_encode_bundle_schema(class_ids@, asset_ids.deep_view(), amounts.deep_view()),
{
    parity_scale_codec::Encode::encode(&(class_ids, asset_ids, amounts))
}

/// Calls the blake2b-256 hasher of `sp_core` (`Blake2Hasher::hash`, the same
/// `sp_crypto_hashing::blake2_256` that `sp_io::hashing` offers). The contract names it.
#[verifier::external_body]
pub(crate) fn hash_blake2_256(data: &[u8]) -> (r: [u8; 32])
    ensures
        r@ == blake2_256(data@),
{
    <sp_core::Blake2Hasher as sp_core::Hasher>::hash(data).0
}

/// Calls `hex::encode`, which maps each byte to two characters of the lower-case table
/// `0123456789abcdef`, the high half of the byte first.
#[verifier::external_body]
pub(crate) fn encode_hex(data: &[u8]) -> (r: String)
    ensures
        r@ == hex_lower(data@),
{
    hex::encode(data)
}

} // verus!
