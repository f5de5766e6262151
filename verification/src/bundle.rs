//! The decisions of the bundle endpoints: how a bundle schema is handed to the chain and
//! named, and how stored bundles are reported.

use vstd::prelude::*;

use crate::address::{ss58_decode, ss58_encode, AccountError, AccountId32};
use crate::keys::{key_account, key_u64, key_u64_at, key_account_at};
use crate::primitives::{
    transform_doublevec_assetid_to_u64, transform_doublevec_balance_to_u128,
    transform_vec_classid_to_u64, Account, AssetId, Balance, BundleId, ClassId,
};
use crate::runtime;
use crate::response::RequestError;
use crate::scale::{blake2_256, encode_bundle_schema, encode_hex, hash_blake2_256, hex_digit, hex_lower, scale_encode_bundle_schema};
use crate::text::text_equals;
use crate::types::bundle::{
    BundleItem, BundleSchema, BurnBundleInput, BurnBundleOutput, MintBundleInput, MintBundleOutput, RegisterBundleOutput,
};

verus! {

/// Offset of the class identifier in a key of the `AssetBundles` map.
pub const BUNDLE_CLASS_OFFSET: usize = 48;

/// Offset of the asset identifier in a key of the `AssetBundles` map (after the class
/// identifier and the hash of the asset identifier).
pub const BUNDLE_ASSET_OFFSET: usize = 72;

/// Offset of the bundle hash in a key of the `Bundles` map.
pub const BUNDLE_HASH_OFFSET: usize = 48;

/// Each raw number as a class identifier, in order.
pub fn get_schema_class_ids(class_ids: Vec<u64>) -> (r: Vec<ClassId>)
    ensures
        r@.len() == class_ids@.len(),
        forall|i: int| 0 <= i < r@.len() ==> (#[trigger] r@[i]).0 == class_ids@[i],
{
    let mut r: Vec<ClassId> = Vec::new();
    let mut i: usize = 0;
    while i < class_ids.len()
        invariant
            i <= class_ids@.len(),
            r@.len() == i,
            forall|k: int| 0 <= k < i ==> (#[trigger] r@[k]).0 == class_ids@[k],
        decreases class_ids@.len() - i,
    {
        r.push(ClassId(class_ids[i]));
        i = i + 1;
    }
    r
}

/// Each raw number as an asset identifier, in order.
pub fn get_schema_asset_ids(asset_ids: Vec<u64>) -> (r: Vec<AssetId>)
    ensures
        r@.len() == asset_ids@.len(),
        forall|i: int| 0 <= i < r@.len() ==> (#[trigger] r@[i]).0 == asset_ids@[i],
{
    let mut r: Vec<AssetId> = Vec::new();
    let mut i: usize = 0;
    while i < asset_ids.len()
        invariant
            i <= asset_ids@.len(),
            r@.len() == i,
            forall|k: int| 0 <= k < i ==> (#[trigger] r@[k]).0 == asset_ids@[k],
        decreases asset_ids@.len() - i,
    {
        r.push(AssetId(asset_ids[i]));
        i = i + 1;
    }
    r
}

/// Each raw amount as a balance, in order.
pub fn get_schema_amounts(amounts: Vec<u128>) -> (r: Vec<Balance>)
    ensures
        r@.len() == amounts@.len(),
        forall|i: int| 0 <= i < r@.len() ==> (#[trigger] r@[i]).0 == amounts@[i],
{
    let mut r: Vec<Balance> = Vec::new();
    let mut i: usize = 0;
    while i < amounts.len()
        invariant
            i <= amounts@.len(),
            r@.len() == i,
            forall|k: int| 0 <= k < i ==> (#[trigger] r@[k]).0 == amounts@[k],
        decreases amounts@.len() - i,
    {
        r.push(Balance(amounts[i]));
        i = i + 1;
    }
    r
}

/// Each raw number as an asset identifier, keeping the nesting and the order.
pub fn get_schema_vec_asset_ids(asset_ids: Vec<Vec<u64>>) -> (r: Vec<Vec<AssetId>>)
    ensures
        r@.len() == asset_ids@.len(),
        forall|i: int|
            0 <= i < r@.len() ==> {
                &&& (#[trigger] r@[i])@.len() == asset_ids@[i]@.len()
                &&& forall|j: int| 0 <= j < r@[i]@.len() ==> (#[trigger] r@[i]@[j]).0 == asset_ids@[i]@[j]
            },
{
    let mut r: Vec<Vec<AssetId>> = Vec::new();
    let mut i: usize = 0;
    while i < asset_ids.len()
        invariant
            i <= asset_ids@.len(),
            r@.len() == i,
            forall|k: int|
                0 <= k < i ==> {
                    &&& (#[trigger] r@[k])@.len() == asset_ids@[k]@.len()
                    &&& forall|j: int| 0 <= j < r@[k]@.len() ==> (#[trigger] r@[k]@[j]).0 == asset_ids@[k]@[j]
                },
        decreases asset_ids@.len() - i,
    {
        r.push(get_schema_asset_ids(asset_ids[i].clone()));
        i = i + 1;
    }
    r
}

/// Each raw amount as a balance, keeping the nesting and the order.
pub fn get_schema_vec_amounts(amounts: Vec<Vec<u128>>) -> (r: Vec<Vec<Balance>>)
    ensures
        r@.len() == amounts@.len(),
        forall|i: int|
            0 <= i < r@.len() ==> {
                &&& (#[trigger] r@[i])@.len() == amounts@[i]@.len()
                &&& forall|j: int| 0 <= j < r@[i]@.len() ==> (#[trigger] r@[i]@[j]).0 == amounts@[i]@[j]
            },
{
    let mut r: Vec<Vec<Balance>> = Vec::new();
    let mut i: usize = 0;
    while i < amounts.len()
        invariant
            i <= amounts@.len(),
            r@.len() == i,
            forall|k: int|
                0 <= k < i ==> {
                    &&& (#[trigger] r@[k])@.len() == amounts@[k]@.len()
                    &&& forall|j: int| 0 <= j < r@[k]@.len() ==> (#[trigger] r@[k]@[j]).0 == amounts@[k]@[j]
                },
        decreases amounts@.len() - i,
    {
        r.push(get_schema_amounts(amounts[i].clone()));
        i = i + 1;
    }
    r
}

/// Whether a runtime schema holds the raw values of an API schema, keeping nesting and order.
pub open spec fn schema_matches(api: BundleSchema, chain: runtime::BundleSchema) -> bool {
    &&& chain.class_ids@.len() == api.class_ids@.len()
    &&& forall|i: int| 0 <= i < chain.class_ids@.len() ==> #[trigger] chain.class_ids@[i] == api.class_ids@[i].0
    &&& chain.asset_ids@.len() == api.asset_ids@.len()
    &&& forall|i: int|
        0 <= i < chain.asset_ids@.len() ==> {
            &&& (#[trigger] chain.asset_ids@[i])@.len() == api.asset_ids@[i]@.len()
            &&& forall|j: int| 0 <= j < chain.asset_ids@[i]@.len() ==> #[trigger] chain.asset_ids@[i]@[j] == api.asset_ids@[i]@[j].0
        }
    &&& chain.amounts@.len() == api.amounts@.len()
    &&& forall|i: int|
        0 <= i < chain.amounts@.len() ==> {
            &&& (#[trigger] chain.amounts@[i])@.len() == api.amounts@[i]@.len()
            &&& forall|j: int| 0 <= j < chain.amounts@[i]@.len() ==> #[trigger] chain.amounts@[i]@[j] == api.amounts@[i]@[j].0
        }
}

/// The schema of a bundle as the chain takes it.
pub fn schema_to_runtime(schema: &BundleSchema) -> (r: runtime::BundleSchema)
    ensures
        schema_matches(*schema, r),
{
    runtime::BundleSchema {
        class_ids: transform_vec_classid_to_u64(schema.class_ids.clone()),
        asset_ids: transform_doublevec_assetid_to_u64(schema.asset_ids.clone()),
        amounts: transform_doublevec_balance_to_u128(schema.amounts.clone()),
    }
}

/// The identifier of a bundle with a given schema: the blake2-256 hash of the SCALE
/// encoding of the schema.
pub open spec fn bundle_hash(schema: runtime::BundleSchema) -> Seq<u8> {
    blake2_256(scale_encode_bundle_schema(schema.class_ids@, schema.asset_ids.deep_view(), schema.amounts.deep_view()))
}

/// The identifier of the bundle with this schema.
pub fn hash_bundle_schema(schema: &runtime::BundleSchema) -> (r: [u8; 32])
    ensures
        r@ == bundle_hash(*schema),
{
    let encoded = encode_bundle_schema(&schema.class_ids, &schema.asset_ids, &schema.amounts);
    hash_blake2_256(encoded.as_slice())
}

/// A bundle hash as the hexadecimal text that the API reports.
pub fn bundle_id_from_hash(hash: &[u8; 32]) -> (r: BundleId)
    ensures
        r@ == hex_lower(hash@),
{
    BundleId(encode_hex(hash))
}

/// The schema a registration hands to the chain, and the identifier it registers the
/// bundle under.
pub fn register_bundle_schema(schema: &BundleSchema) -> (r: (runtime::BundleSchema, [u8; 32]))
    ensures
        schema_matches(*schema, r.0),
        r.1@ == bundle_hash(r.0),
{
    let chain = schema_to_runtime(schema);
    let hash = hash_bundle_schema(&chain);
    (chain, hash)
}

/// Whether `out` is what the bundle-identifier query reports for the stored `entries`
/// (key and bundle hash): one item per entry, in order.
pub open spec fn bundle_items_report(out: Seq<BundleItem>, entries: Seq<(Vec<u8>, [u8; 32])>) -> bool {
    &&& out.len() == entries.len()
    &&& forall|i: int|
        0 <= i < out.len() ==> {
            &&& (#[trigger] out[i]).class_id.0 == key_u64(entries[i].0@, 48)
            &&& out[i].asset_id.0 == key_u64(entries[i].0@, 72)
            &&& out[i].bundle_id@ == hex_lower(entries[i].1@)
        }
}

/// The bundles that the bundle-identifier query reports, from the stored hashes and
/// their keys.
pub fn collect_bundle_items(entries: &Vec<(Vec<u8>, [u8; 32])>) -> (r: Vec<BundleItem>)
    requires
        forall|i: int| 0 <= i < entries@.len() ==> (#[trigger] entries@[i]).0@.len() >= 80,
    ensures
        bundle_items_report(r@, entries@),
{
    let mut result_array: Vec<BundleItem> = Vec::new();
    let mut i: usize = 0;
    while i < entries.len()
        invariant
            i <= entries@.len(),
            forall|k: int| 0 <= k < entries@.len() ==> (#[trigger] entries@[k]).0@.len() >= 80,
            result_array@.len() == i,
            forall|k: int|
                0 <= k < i ==> {
                    &&& (#[trigger] result_array@[k]).class_id.0 == key_u64(entries@[k].0@, 48)
                    &&& result_array@[k].asset_id.0 == key_u64(entries@[k].0@, 72)
                    &&& result_array@[k].bundle_id@ == hex_lower(entries@[k].1@)
                },
        decreases entries@.len() - i,
    {
        let entry = &entries[i];
        let key = entry.0.as_slice();
        let class_id = key_u64_at(key, BUNDLE_CLASS_OFFSET);
        let asset_id = key_u64_at(key, BUNDLE_ASSET_OFFSET);
        result_array.push(BundleItem {
            class_id: ClassId(class_id),
            asset_id: AssetId(asset_id),
            bundle_id: bundle_id_from_hash(&entry.1),
        });
        i = i + 1;
    }
    result_array
}

/// Whether one of the stored bundle hashes has the hexadecimal text `bundle_id`.
pub fn bundle_exists(hashes: &Vec<[u8; 32]>, bundle_id: &BundleId) -> (r: bool)
    ensures
        r == exists|i: int| 0 <= i < hashes@.len() && hex_lower((#[trigger] hashes@[i])@) == bundle_id@,
{
    let mut i: usize = 0;
    while i < hashes.len()
        invariant
            i <= hashes@.len(),
            forall|k: int| 0 <= k < i ==> hex_lower((#[trigger] hashes@[k])@) != bundle_id@,
        decreases hashes@.len() - i,
    {
        let stored = bundle_id_from_hash(&hashes[i]);
        if text_equals(stored.as_str(), bundle_id.as_str()) {
            return true;
        }
        i = i + 1;
    }
    false
}

/// A stored bundle as the bundle-data query reports it; the metadata is the stored JSON text.
#[derive(Clone, Debug)]
pub struct BundleDataRecord {
    pub bundle_id: BundleId,
    pub creator: Account,
    pub class_id: ClassId,
    pub asset_id: AssetId,
    pub metadata: Vec<u8>,
    pub schema: BundleSchema,
}

/// Whether an API schema reports a stored schema.
pub open spec fn schema_reports(api: BundleSchema, chain: runtime::BundleSchema) -> bool {
    schema_matches(api, chain)
}

/// What is reported of a stored bundle: its hash from the key as hexadecimal text, its
/// creator, class, asset, metadata and schema.
pub open spec fn bundle_data_reports(d: BundleDataRecord, key: Seq<u8>, b: runtime::Bundle) -> bool {
    &&& d.bundle_id@ == hex_lower(key_account(key, 48))
    &&& d.creator@ == ss58_encode(b.creator@)
    &&& d.class_id.0 == b.class_id
    &&& d.asset_id.0 == b.asset_id
    &&& d.metadata@ == b.metadata@
    &&& schema_reports(d.schema, b.schema)
}

/// The API schema of a stored schema.
pub fn schema_from_runtime(schema: &runtime::BundleSchema) -> (r: BundleSchema)
    ensures
        schema_reports(r, *schema),
{
    BundleSchema {
        class_ids: get_schema_class_ids(schema.class_ids.clone()),
        asset_ids: get_schema_vec_asset_ids(schema.asset_ids.clone()),
        amounts: get_schema_vec_amounts(schema.amounts.clone()),
    }
}

/// The bundles that the bundle-data query reports, from the stored bundles and their keys.
pub fn collect_bundle_data(entries: &Vec<(Vec<u8>, runtime::Bundle)>) -> (r: Vec<BundleDataRecord>)
    requires
        forall|i: int| 0 <= i < entries@.len() ==> (#[trigger] entries@[i]).0@.len() >= 80,
    ensures
        r@.len() == entries@.len(),
        forall|i: int| 0 <= i < r@.len() ==> bundle_data_reports(#[trigger] r@[i], entries@[i].0@, entries@[i].1),
{
    let mut result_array: Vec<BundleDataRecord> = Vec::new();
    let mut i: usize = 0;
    while i < entries.len()
        invariant
            i <= entries@.len(),
            forall|k: int| 0 <= k < entries@.len() ==> (#[trigger] entries@[k]).0@.len() >= 80,
            result_array@.len() == i,
            forall|k: int| 0 <= k < i ==> bundle_data_reports(#[trigger] result_array@[k], entries@[k].0@, entries@[k].1),
        decreases entries@.len() - i,
    {
        let entry = &entries[i];
        let hash = key_account_at(entry.0.as_slice(), BUNDLE_HASH_OFFSET);
        let value = &entry.1;
        let metadata = value.metadata.clone();
        assert(metadata@ =~= value.metadata@);
        result_array.push(BundleDataRecord {
            bundle_id: bundle_id_from_hash(&hash.0),
            creator: Account::from_account_id(value.creator),
            class_id: ClassId(value.class_id),
            asset_id: AssetId(value.asset_id),
            metadata,
            schema: schema_from_runtime(&value.schema),
        });
        i = i + 1;
    }
    result_array
}

/// Whether a character is a lower-case hexadecimal digit.
pub open spec fn is_lower_hex_digit(c: char) -> bool {
    ('0' <= c && c <= '9') || ('a' <= c && c <= 'f')
}

/// Whether a text is 64 lower-case hexadecimal digits, the text of a 32-byte hash.
pub open spec fn is_lower_hex_text(s: Seq<char>) -> bool {
    s.len() == 64 && forall|i: int| 0 <= i < s.len() ==> is_lower_hex_digit(#[trigger] s[i])
}

/// The 32 bytes that `H256::from_str` reads from a text, if it reads any.
pub uninterp spec fn h256_from_str(s: Seq<char>) -> Option<Seq<u8>>;

/// Calls `FromStr` of `sp_core::H256` (`fixed_hash`): an optional `0x` prefix, then
/// exactly 32 bytes of hexadecimal digits in either case (blanks between digits are
/// skipped). The contract names the result and states what the source shows for the
/// texts this API writes: 64 lower-case digits read back as the bytes they spell.
#[verifier::external_body]
fn parse_h256(s: &str) -> (r: Option<[u8; 32]>)
    ensures
        r is Some <==> h256_from_str(s@) is Some,
        r matches Some(b) ==> h256_from_str(s@) == Some(b@),
        r is None ==> !is_lower_hex_text(s@),
        r matches Some(b) ==> (is_lower_hex_text(s@) ==> hex_lower(b@) == s@),
{
    <sp_core::H256 as core::str::FromStr>::from_str(s).ok().map(|h| h.0)
}

/// The text of some bytes has two digits per byte.
proof fn lemma_hex_lower_len(b: Seq<u8>)
    ensures
        hex_lower(b).len() == 2 * b.len(),
    decreases b.len(),
{
    if b.len() > 0 {
        lemma_hex_lower_len(b.drop_first());
    }
}

/// The text of some bytes is made of lower-case hexadecimal digits.
proof fn lemma_hex_lower_digits(b: Seq<u8>)
    ensures
        forall|i: int| 0 <= i < hex_lower(b).len() ==> is_lower_hex_digit(#[trigger] hex_lower(b)[i]),
    decreases b.len(),
{
    if b.len() > 0 {
        lemma_hex_lower_digits(b.drop_first());
        let head = seq![hex_digit(b[0] as int / 16), hex_digit(b[0] as int % 16)];
        assert(hex_lower(b) == head + hex_lower(b.drop_first()));
        assert forall|i: int| 0 <= i < hex_lower(b).len() implies is_lower_hex_digit(#[trigger] hex_lower(b)[i]) by {
            if i >= 2 {
                assert(hex_lower(b)[i] == hex_lower(b.drop_first())[i - 2]);
            }
        }
    }
}

/// Different bytes have different texts: the text of some bytes determines them.
proof fn lemma_hex_lower_injective(a: Seq<u8>, b: Seq<u8>)
    requires
        hex_lower(a) == hex_lower(b),
    ensures
        a == b,
    decreases a.len(),
{
    lemma_hex_lower_len(a);
    lemma_hex_lower_len(b);
    if a.len() > 0 {
        let ta = hex_lower(a);
        let tb = hex_lower(b);
        assert(ta[0] == tb[0] && ta[1] == tb[1]);
        assert(hex_digit(a[0] as int / 16) == hex_digit(b[0] as int / 16));
        assert(hex_digit(a[0] as int % 16) == hex_digit(b[0] as int % 16));
        assert(a[0] as int / 16 == b[0] as int / 16);
        assert(a[0] as int % 16 == b[0] as int % 16);
        assert(a[0] == b[0]);
        assert(hex_lower(a.drop_first()) =~= ta.skip(2));
        assert(hex_lower(b.drop_first()) =~= tb.skip(2));
        lemma_hex_lower_injective(a.drop_first(), b.drop_first());
        assert(a =~= seq![a[0]] + a.drop_first());
        assert(b =~= seq![b[0]] + b.drop_first());
    } else {
        assert(b.len() == 0);
        assert(a =~= b);
    }
}

/// The bundle hash a bundle identifier names: its hexadecimal digits read as 32 bytes,
/// or 32 zero bytes when the text is not such digits (as `unwrap_or_default` does).
pub fn bundle_hash_of_id(id: &BundleId) -> (r: [u8; 32])
    ensures
        h256_from_str(id@) matches Some(b) ==> r@ == b,
        h256_from_str(id@) is None ==> r@ == Seq::new(32, |i: int| 0u8),
        forall|h: Seq<u8>| h.len() == 32 && id@ == #[trigger] hex_lower(h) ==> r@ == h,
{
    let r = match parse_h256(id.as_str()) {
        Some(b) => b,
        None => [0u8; 32],
    };
    proof {
        assert forall|h: Seq<u8>| h.len() == 32 && id@ == #[trigger] hex_lower(h) implies r@ == h by {
            lemma_hex_lower_len(h);
            lemma_hex_lower_digits(h);
            lemma_hex_lower_injective(r@, h);
        }
        if h256_from_str(id@) is None {
            assert(r@ =~= Seq::new(32, |i: int| 0u8));
        }
    }
    r
}

/// A bundle identifier that the API reports names the bundle it was made from: reading
/// back the text of a hash gives that hash.
pub proof fn lemma_bundle_id_round_trip(h: Seq<u8>, read: Seq<u8>)
    requires
        h.len() == 32,
        hex_lower(read) == hex_lower(h),
    ensures
        read == h,
{
    lemma_hex_lower_injective(read, h);
}

/// The arguments of minting or burning a bundle: the two accounts, the bundle hash and
/// the amount.
#[derive(Clone, Copy, Debug)]
pub struct BundleTransferCall {
    pub from: AccountId32,
    pub to: AccountId32,
    pub bundle_hash: [u8; 32],
    pub amount: u128,
}

/// The arguments of a bundle mint or burn: fails when an address is not valid SS58 (the
/// sender's is read first); the bundle identifier is read as `bundle_hash_of_id` does.
pub fn bundle_transfer_call(from: &Account, to: &Account, bundle_id: &BundleId, amount: Balance) -> (r: Result<BundleTransferCall, AccountError>)
    ensures
        r is Ok <==> (ss58_decode(from@) is Some && ss58_decode(to@) is Some),
        r matches Ok(c) ==> {
            &&& ss58_decode(from@) == Some(c.from@)
            &&& ss58_decode(to@) == Some(c.to@)
            &&& (h256_from_str(bundle_id@) matches Some(b) ==> c.bundle_hash@ == b)
            &&& (forall|h: Seq<u8>| h.len() == 32 && bundle_id@ == #[trigger] hex_lower(h) ==> c.bundle_hash@ == h)
            &&& c.amount == amount.0
        },
{
    let from_id = AccountId32::try_from_account(from)?;
    let to_id = AccountId32::try_from_account(to)?;
    let hash = bundle_hash_of_id(bundle_id);
    Ok(BundleTransferCall { from: from_id, to: to_id, bundle_hash: hash, amount: amount.0 })
}

/// The arguments of a bundle mint.
pub fn mint_bundle_call(req: &MintBundleInput) -> (r: Result<BundleTransferCall, AccountError>)
    ensures
        r is Ok <==> (ss58_decode(req.from@) is Some && ss58_decode(req.to@) is Some),
        r matches Ok(c) ==> {
            &&& ss58_decode(req.from@) == Some(c.from@)
            &&& ss58_decode(req.to@) == Some(c.to@)
            &&& (forall|h: Seq<u8>| h.len() == 32 && req.bundle_id@ == #[trigger] hex_lower(h) ==> c.bundle_hash@ == h)
            &&& c.amount == req.amount.0
        },
{
    bundle_transfer_call(&req.from, &req.to, &req.bundle_id, req.amount)
}

/// The arguments of a bundle burn.
pub fn burn_bundle_call(req: &BurnBundleInput) -> (r: Result<BundleTransferCall, AccountError>)
    ensures
        r is Ok <==> (ss58_decode(req.from@) is Some && ss58_decode(req.to@) is Some),
        r matches Ok(c) ==> {
            &&& ss58_decode(req.from@) == Some(c.from@)
            &&& ss58_decode(req.to@) == Some(c.to@)
            &&& (forall|h: Seq<u8>| h.len() == 32 && req.bundle_id@ == #[trigger] hex_lower(h) ==> c.bundle_hash@ == h)
            &&& c.amount == req.amount.0
        },
{
    bundle_transfer_call(&req.from, &req.to, &req.bundle_id, req.amount)
}

/// The event of a bundle's registration.
#[derive(Clone, Copy, Debug)]
pub struct BundleRegisteredEvent {
    pub who: AccountId32,
    pub bundle_id: [u8; 32],
    pub class_id: u64,
    pub asset_id: u64,
}

/// The answer of a bundle's registration: the bundle hash as hexadecimal text.
pub fn register_bundle_output(event: &BundleRegisteredEvent) -> (r: RegisterBundleOutput)
    ensures
        r.who@ == ss58_encode(event.who@),
        r.bundle_id@ == hex_lower(event.bundle_id@),
        r.class_id.0 == event.class_id,
        r.asset_id.0 == event.asset_id,
{
    RegisterBundleOutput {
        who: Account::from_account_id(event.who),
        bundle_id: bundle_id_from_hash(&event.bundle_id),
        class_id: ClassId(event.class_id),
        asset_id: AssetId(event.asset_id),
    }
}

/// The event of a bundle mint or burn.
#[derive(Clone, Copy, Debug)]
pub struct BundleAmountEvent {
    pub who: AccountId32,
    pub from: AccountId32,
    pub to: AccountId32,
    pub bundle_id: [u8; 32],
    pub amount: u128,
}

/// The answer of a bundle mint.
pub fn mint_bundle_output(event: &BundleAmountEvent) -> (r: MintBundleOutput)
    ensures
        r.who@ == ss58_encode(event.who@),
        r.from@ == ss58_encode(event.from@),
        r.to@ == ss58_encode(event.to@),
        r.bundle_id@ == hex_lower(event.bundle_id@),
        r.amount.0 == event.amount,
{
    MintBundleOutput {
        who: Account::from_account_id(event.who),
        from: Account::from_account_id(event.from),
        to: Account::from_account_id(event.to),
        bundle_id: bundle_id_from_hash(&event.bundle_id),
        amount: Balance(event.amount),
    }
}

/// The answer of a bundle burn.
pub fn burn_bundle_output(event: &BundleAmountEvent) -> (r: BurnBundleOutput)
    ensures
        r.who@ == ss58_encode(event.who@),
        r.from@ == ss58_encode(event.from@),
        r.to@ == ss58_encode(event.to@),
        r.bundle_id@ == hex_lower(event.bundle_id@),
        r.amount.0 == event.amount,
{
    BurnBundleOutput {
        who: Account::from_account_id(event.who),
        from: Account::from_account_id(event.from),
        to: Account::from_account_id(event.to),
        bundle_id: bundle_id_from_hash(&event.bundle_id),
        amount: Balance(event.amount),
    }
}

} // verus!
