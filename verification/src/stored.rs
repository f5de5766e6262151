//! The stored values that the manifest and pool queries read, decoded from the raw bytes
//! that the node returns for each storage key, and the queries over those raw entries.

use vstd::prelude::*;

use crate::address::AccountId32;
use crate::fula::{
    collect_manifests_storer_data, storage_data_reported, storer_keys_readable, ManifestStorageData,
    STORER_CID_OFFSET, available_manifests_reported, collect_available_manifests, collect_manifests, manifests_reported,
    runtime_available, runtime_replication_sum, uploaders_within_replication, ManifestAvailableRecord,
    GetAllManifestsInput, ManifestRecord,
};
use crate::keys::key_text_at;
use crate::pool::account_filter_invalid;
use crate::pool::{
    collect_pool_requests, collect_pool_users, collect_pools, pool_requests_reported, pool_users_reported,
    pools_reported,
};
use crate::primitives::{Account, PoolId};
use crate::types::pool::{PoolData, PoolRequestData, PoolUserData};
use crate::runtime;
use crate::scale::{le_u32, scale_decode_string};

verus! {

/// Why the raw entries of a storage query cannot be reported.
#[derive(Clone, Copy, Debug, PartialEq, Eq, Structural)]
pub enum StoredValueError {
    /// A key is too short to hold what the query reads from it.
    ShortKey,
    /// A key does not end in a readable content identifier.
    UnreadableKey,
    /// A stored value is not the SCALE encoding of the record the query reads.
    UndecodableValue,
    /// A stored challenge state is not one of the three states.
    UnknownChallengeState,
    /// A stored uploader lists more storers than its replication factor.
    ReplicationExceeded,
    /// The storers that a manifest still lacks, added up, do not fit in a replication factor.
    ReplicationOverflow,
    /// The account filter is not a valid address.
    InvalidAccount,
}

// ---------------------------------------------------------------------------------------
// Manifests
// ---------------------------------------------------------------------------------------

/// What `Decode::decode` of `parity_scale_codec` reads from the start of `bytes` as a
/// stored manifest: the uploaders (account, storer accounts, replication factor), the
/// metadata bytes and the optional size, each account as its 32 bytes.
pub uninterp spec fn scale_decode_manifest(bytes: Seq<u8>) -> Option<(Seq<(Seq<u8>, Seq<Seq<u8>>, u16)>, Seq<u8>, Option<u64>)>;

/// The 32-byte accounts of a list, as byte sequences.
pub open spec fn raw_accounts_view(a: Seq<[u8; 32]>) -> Seq<Seq<u8>> {
    a.map_values(|x: [u8; 32]| x@)
}

/// A decoded manifest tuple, as plain values.
pub open spec fn manifest_tuple_view(v: (Vec<([u8; 32], Vec<[u8; 32]>, u16)>, Vec<u8>, Option<u64>)) -> (
    Seq<(Seq<u8>, Seq<Seq<u8>>, u16)>,
    Seq<u8>,
    Option<u64>,
) {
    (v.0@.map_values(|u: ([u8; 32], Vec<[u8; 32]>, u16)| (u.0@, raw_accounts_view(u.1@), u.2)), v.1@, v.2)
}

/// Calls `Decode::decode` of `parity_scale_codec` on the tuple that a stored manifest
/// encodes as (its fields in declaration order). The contract names what is read; it does
/// not state the SCALE layout (compact lengths, option tags).
#[verifier::external_body]
fn decode_manifest_value(bytes: &[u8]) -> (r: Option<(Vec<([u8; 32], Vec<[u8; 32]>, u16)>, Vec<u8>, Option<u64>)>)
    ensures
        r is Some <==> scale_decode_manifest(bytes@) is Some,
        r matches Some(v) ==> scale_decode_manifest(bytes@) == Some(manifest_tuple_view(v)),
{
    parity_scale_codec::Decode::decode(&mut &bytes[..]).ok()
}

/// The accounts of a list of 32-byte accounts.
fn accounts_from_raw(a: &Vec<[u8; 32]>) -> (r: Vec<AccountId32>)
    ensures
        r@.len() == a@.len(),
        forall|j: int| 0 <= j < a@.len() ==> (#[trigger] r@[j])@ == a@[j]@,
{
    let mut r: Vec<AccountId32> = Vec::new();
    let mut j: usize = 0;
    while j < a.len()
        invariant
            j <= a@.len(),
            r@.len() == j,
            forall|k: int| 0 <= k < j ==> (#[trigger] r@[k])@ == a@[k]@,
        decreases a@.len() - j,
    {
        r.push(AccountId32(a[j]));
        j = j + 1;
    }
    r
}

/// Whether a stored uploader is the decoded uploader tuple `t`.
pub open spec fn uploader_decodes_to(u: runtime::UploaderData, t: (Seq<u8>, Seq<Seq<u8>>, u16)) -> bool {
    &&& u.uploader@ == t.0
    &&& u.storers@.len() == t.1.len()
    &&& forall|j: int| 0 <= j < t.1.len() ==> (#[trigger] u.storers@[j])@ == t.1[j]
    &&& u.replication_factor == t.2
}

/// Whether a stored manifest is the decoded manifest tuple `d`.
pub open spec fn manifest_decodes_to(m: runtime::Manifest, d: (Seq<(Seq<u8>, Seq<Seq<u8>>, u16)>, Seq<u8>, Option<u64>)) -> bool {
    &&& m.users_data@.len() == d.0.len()
    &&& forall|i: int| 0 <= i < d.0.len() ==> uploader_decodes_to(#[trigger] m.users_data@[i], d.0[i])
    &&& m.manifest_metadata@ == d.1
    &&& m.size == d.2
}

/// Whether the stored manifest `m` is what `bytes` decode to.
pub open spec fn manifest_bytes_decode_to(bytes: Seq<u8>, m: runtime::Manifest) -> bool {
    &&& scale_decode_manifest(bytes) is Some
    &&& manifest_decodes_to(m, scale_decode_manifest(bytes)->0)
}

/// The manifest that a decoded tuple holds.
fn manifest_from_tuple(v: (Vec<([u8; 32], Vec<[u8; 32]>, u16)>, Vec<u8>, Option<u64>)) -> (m: runtime::Manifest)
    ensures
        manifest_decodes_to(m, manifest_tuple_view(v)),
{
    let ghost d = manifest_tuple_view(v);
    let (users_raw, metadata, size) = v;
    let mut users: Vec<runtime::UploaderData> = Vec::new();
    let mut i: usize = 0;
    while i < users_raw.len()
        invariant
            i <= users_raw@.len(),
            d.0 == users_raw@.map_values(|u: ([u8; 32], Vec<[u8; 32]>, u16)| (u.0@, raw_accounts_view(u.1@), u.2)),
            users@.len() == i,
            forall|k: int| 0 <= k < i ==> uploader_decodes_to(#[trigger] users@[k], d.0[k]),
        decreases users_raw@.len() - i,
    {
        let u = &users_raw[i];
        let storers = accounts_from_raw(&u.1);
        let uploader = runtime::UploaderData { uploader: AccountId32(u.0), storers, replication_factor: u.2 };
        proof {
            assert(d.0[i as int] == (u.0@, raw_accounts_view(u.1@), u.2));
        }
        users.push(uploader);
        i = i + 1;
    }
    runtime::Manifest { users_data: users, manifest_metadata: metadata, size }
}

/// Whether no decoded uploader lists more storers than its replication factor.
pub open spec fn decoded_within_replication(users: Seq<(Seq<u8>, Seq<Seq<u8>>, u16)>) -> bool {
    forall|i: int| 0 <= i < users.len() ==> (#[trigger] users[i]).1.len() <= users[i].2
}

/// Whether no uploader of a decoded tuple lists more storers than it asked for.
fn tuple_within_replication(users: &Vec<([u8; 32], Vec<[u8; 32]>, u16)>) -> (r: bool)
    ensures
        r == decoded_within_replication(
            users@.map_values(|u: ([u8; 32], Vec<[u8; 32]>, u16)| (u.0@, raw_accounts_view(u.1@), u.2)),
        ),
{
    let ghost d = users@.map_values(|u: ([u8; 32], Vec<[u8; 32]>, u16)| (u.0@, raw_accounts_view(u.1@), u.2));
    let mut i: usize = 0;
    while i < users.len()
        invariant
            i <= users@.len(),
            d == users@.map_values(|u: ([u8; 32], Vec<[u8; 32]>, u16)| (u.0@, raw_accounts_view(u.1@), u.2)),
            forall|k: int| 0 <= k < i ==> (#[trigger] d[k]).1.len() <= d[k].2,
        decreases users@.len() - i,
    {
        assert(d[i as int].1.len() == users@[i as int].1@.len());
        if users[i].1.len() > users[i].2 as usize {
            return false;
        }
        i = i + 1;
    }
    true
}

/// Why a raw manifest entry cannot be reported, if it cannot: a key too short for the
/// pool number, a value that is not a manifest, or an uploader with too many storers.
pub open spec fn manifest_entry_error(key: Seq<u8>, value: Seq<u8>) -> Option<StoredValueError> {
    if key.len() < 52 {
        Some(StoredValueError::ShortKey)
    } else if scale_decode_manifest(value) is None {
        Some(StoredValueError::UndecodableValue)
    } else if !decoded_within_replication((scale_decode_manifest(value)->0).0) {
        Some(StoredValueError::ReplicationExceeded)
    } else {
        None
    }
}

/// Whether every raw manifest entry can be reported.
pub open spec fn manifest_entries_clean(entries: Seq<(Vec<u8>, Vec<u8>)>) -> bool {
    forall|k: int| 0 <= k < entries.len() ==> manifest_entry_error((#[trigger] entries[k]).0@, entries[k].1@) is None
}

/// Whether `e` is the error of the first raw manifest entry that cannot be reported.
pub open spec fn first_manifest_error(entries: Seq<(Vec<u8>, Vec<u8>)>, e: StoredValueError) -> bool {
    exists|i: int|
        0 <= i < entries.len() && manifest_entries_clean(entries.take(i)) && #[trigger] manifest_entry_error(
            entries[i].0@,
            entries[i].1@,
        ) == Some(e)
}

/// Whether `decoded` holds, entry for entry, the keys of `raw` and the manifests its values
/// decode to.
pub open spec fn manifest_entries_decode_to(raw: Seq<(Vec<u8>, Vec<u8>)>, decoded: Seq<(Vec<u8>, runtime::Manifest)>) -> bool {
    &&& decoded.len() == raw.len()
    &&& forall|k: int|
        0 <= k < raw.len() ==> (#[trigger] decoded[k]).0@ == raw[k].0@ && manifest_bytes_decode_to(raw[k].1@, decoded[k].1)
}

/// Decodes the raw manifest entries, failing with the error of the first entry that
/// cannot be reported.
fn decode_manifest_entries(entries: &Vec<(Vec<u8>, Vec<u8>)>) -> (r: Result<Vec<(Vec<u8>, runtime::Manifest)>, StoredValueError>)
    ensures
        r is Ok <==> manifest_entries_clean(entries@),
        r matches Err(e) ==> first_manifest_error(entries@, e),
        r matches Ok(d) ==> manifest_entries_decode_to(entries@, d@),
{
    let mut decoded: Vec<(Vec<u8>, runtime::Manifest)> = Vec::new();
    let mut i: usize = 0;
    while i < entries.len()
        invariant
            i <= entries@.len(),
            decoded@.len() == i,
            manifest_entries_clean(entries@.take(i as int)),
            forall|k: int|
                0 <= k < i ==> (#[trigger] decoded@[k]).0@ == entries@[k].0@ && manifest_bytes_decode_to(
                    entries@[k].1@,
                    decoded@[k].1,
                ),
        decreases entries@.len() - i,
    {
        let entry = &entries[i];
        let ghost clean_before = entries@.take(i as int);
        let err: Option<StoredValueError>;
        if entry.0.len() < 52 {
            err = Some(StoredValueError::ShortKey);
        } else {
            match decode_manifest_value(entry.1.as_slice()) {
                None => {
                    err = Some(StoredValueError::UndecodableValue);
                },
                Some(v) => {
                    if !tuple_within_replication(&v.0) {
                        err = Some(StoredValueError::ReplicationExceeded);
                    } else {
                        let m = manifest_from_tuple(v);
                        let key = entry.0.clone();
                        assert(key@ =~= entry.0@);
                        decoded.push((key, m));
                        err = None;
                    }
                },
            }
        }
        match err {
            Some(e) => {
                assert(manifest_entry_error(entries@[i as int].0@, entries@[i as int].1@) == Some(e));
                assert(first_manifest_error(entries@, e));
                proof {
                    if manifest_entries_clean(entries@) {
                        assert(manifest_entry_error(entries@[i as int].0@, entries@[i as int].1@) is None);
                    }
                }
                return Err(e);
            },
            None => {},
        }
        assert(manifest_entries_clean(entries@.take(i + 1))) by {
            assert forall|k: int| 0 <= k < entries@.take(i + 1).len() implies manifest_entry_error(
                (#[trigger] entries@.take(i + 1)[k]).0@,
                entries@.take(i + 1)[k].1@,
            ) is None by {
                if k < i {
                    assert(entries@.take(i + 1)[k] == clean_before[k]);
                }
            }
        }
        i = i + 1;
    }
    assert(entries@.take(entries@.len() as int) =~= entries@);
    Ok(decoded)
}

/// Decoded entries meet what the manifest queries ask of their entries: keys that hold a
/// pool number and uploaders within their replication factor.
proof fn lemma_decoded_manifests_fit(raw: Seq<(Vec<u8>, Vec<u8>)>, decoded: Seq<(Vec<u8>, runtime::Manifest)>)
    requires
        manifest_entries_clean(raw),
        manifest_entries_decode_to(raw, decoded),
    ensures
        forall|i: int| 0 <= i < decoded.len() ==> (#[trigger] decoded[i]).0@.len() >= 52,
        crate::fula::manifests_within_replication(decoded),
{
    assert forall|i: int| 0 <= i < decoded.len() implies (#[trigger] decoded[i]).0@.len() >= 52 by {
        assert(manifest_entry_error(raw[i].0@, raw[i].1@) is None);
    }
    assert forall|i: int| 0 <= i < decoded.len() implies uploaders_within_replication((#[trigger] decoded[i]).1.users_data@) by {
        assert(manifest_entry_error(raw[i].0@, raw[i].1@) is None);
        let d = scale_decode_manifest(raw[i].1@)->0;
        let users = decoded[i].1.users_data@;
        assert forall|j: int| 0 <= j < users.len() implies (#[trigger] users[j]).storers@.len() <= users[j].replication_factor by {
            assert(uploader_decodes_to(users[j], d.0[j]));
            assert(d.0[j].1.len() <= d.0[j].2);
        }
    }
}

/// The manifests that a manifest query reports from the raw entries the node returns
/// (key bytes, value bytes): the error of the first entry that cannot be reported, or
/// the records of the decoded manifests that pass the query's filters, in order.
pub fn collect_manifests_raw(input: &GetAllManifestsInput, entries: &Vec<(Vec<u8>, Vec<u8>)>) -> (r: Result<
    Vec<ManifestRecord>,
    StoredValueError,
>)
    ensures
        r is Ok <==> manifest_entries_clean(entries@),
        r matches Err(e) ==> first_manifest_error(entries@, e),
        r matches Ok(out) ==> exists|d: Seq<(Vec<u8>, runtime::Manifest)>|
            #[trigger] manifest_entries_decode_to(entries@, d) && manifests_reported(out@, input.storer, input.uploader, d),
{
    let decoded = decode_manifest_entries(entries)?;
    proof {
        lemma_decoded_manifests_fit(entries@, decoded@);
    }
    let out = collect_manifests(input, &decoded);
    assert(manifest_entries_decode_to(entries@, decoded@));
    Ok(out)
}

/// The storers that decoded uploaders still lack, added up.
pub open spec fn decoded_replication_sum(users: Seq<(Seq<u8>, Seq<Seq<u8>>, u16)>) -> int
    decreases users.len(),
{
    if users.len() == 0 {
        0
    } else {
        decoded_replication_sum(users.drop_last()) + (users.last().2 - users.last().1.len())
    }
}

/// Whether some decoded uploader lists fewer storers than it asked for.
pub open spec fn decoded_available(users: Seq<(Seq<u8>, Seq<Seq<u8>>, u16)>) -> bool {
    exists|i: int| 0 <= i < users.len() && (#[trigger] users[i]).1.len() < users[i].2
}

/// Whether every raw manifest that lacks storers lacks no more than a replication factor
/// can count.
pub open spec fn raw_available_sums_fit(entries: Seq<(Vec<u8>, Vec<u8>)>) -> bool {
    forall|k: int|
        0 <= k < entries.len() && decoded_available(((#[trigger] scale_decode_manifest(entries[k].1@))->0).0)
            ==> decoded_replication_sum((scale_decode_manifest(entries[k].1@)->0).0) <= u16::MAX
}

/// Stored uploaders lack, altogether and each, what their decoded tuples lack.
proof fn lemma_decoded_replication(users: Seq<runtime::UploaderData>, d: Seq<(Seq<u8>, Seq<Seq<u8>>, u16)>)
    requires
        users.len() == d.len(),
        forall|i: int| 0 <= i < d.len() ==> uploader_decodes_to(#[trigger] users[i], d[i]),
    ensures
        runtime_replication_sum(users) == decoded_replication_sum(d),
        runtime_available(users) == decoded_available(d),
    decreases users.len(),
{
    if users.len() > 0 {
        assert forall|i: int| 0 <= i < d.drop_last().len() implies uploader_decodes_to(
            #[trigger] users.drop_last()[i],
            d.drop_last()[i],
        ) by {
            assert(uploader_decodes_to(users[i], d[i]));
        }
        lemma_decoded_replication(users.drop_last(), d.drop_last());
        assert(uploader_decodes_to(users[users.len() - 1], d[d.len() - 1]));
    }
    if runtime_available(users) {
        let i = choose|i: int| 0 <= i < users.len() && (#[trigger] users[i]).storers@.len() < users[i].replication_factor;
        assert(uploader_decodes_to(users[i], d[i]));
    }
    if decoded_available(d) {
        let i = choose|i: int| 0 <= i < d.len() && (#[trigger] d[i]).1.len() < d[i].2;
        assert(uploader_decodes_to(users[i], d[i]));
    }
}

/// Adding the lack of more uploaders never lowers the sum, while no uploader lists more
/// storers than it asked for.
proof fn lemma_replication_sum_grows(users: Seq<runtime::UploaderData>, i: int)
    requires
        0 <= i <= users.len(),
        uploaders_within_replication(users),
    ensures
        runtime_replication_sum(users.take(i)) <= runtime_replication_sum(users),
    decreases users.len(),
{
    if i < users.len() {
        assert(users.drop_last().take(i) =~= users.take(i));
        assert(uploaders_within_replication(users.drop_last())) by {
            assert forall|k: int| 0 <= k < users.drop_last().len() implies (#[trigger] users.drop_last()[k]).storers@.len()
                <= users.drop_last()[k].replication_factor by {
                assert(users.drop_last()[k] == users[k]);
            }
        }
        lemma_replication_sum_grows(users.drop_last(), i);
        assert(users[users.len() - 1].storers@.len() <= users[users.len() - 1].replication_factor);
    } else {
        assert(users.take(i) =~= users);
    }
}

/// Whether the storers that stored uploaders still lack, added up, fit in a replication
/// factor.
fn replication_sum_fits(users: &Vec<runtime::UploaderData>) -> (r: bool)
    requires
        uploaders_within_replication(users@),
    ensures
        r == (runtime_replication_sum(users@) <= u16::MAX),
{
    let mut acc: u32 = 0;
    let mut i: usize = 0;
    while i < users.len()
        invariant
            i <= users@.len(),
            uploaders_within_replication(users@),
            acc == runtime_replication_sum(users@.take(i as int)),
            acc <= u16::MAX,
        decreases users@.len() - i,
    {
        let u = &users[i];
        assert(u.storers@.len() <= u.replication_factor);
        assert(users@.take(i + 1).drop_last() =~= users@.take(i as int));
        acc = acc + (u.replication_factor as u32 - u.storers.len() as u32);
        i = i + 1;
        if acc > 0xffff {
            proof {
                lemma_replication_sum_grows(users@, i as int);
            }
            return false;
        }
    }
    assert(users@.take(users@.len() as int) =~= users@);
    true
}

/// Whether some stored uploader lists fewer storers than it asked for.
fn replication_available(users: &Vec<runtime::UploaderData>) -> (r: bool)
    ensures
        r == runtime_available(users@),
{
    let mut i: usize = 0;
    while i < users.len()
        invariant
            i <= users@.len(),
            forall|k: int| 0 <= k < i ==> (#[trigger] users@[k]).storers@.len() >= users@[k].replication_factor,
        decreases users@.len() - i,
    {
        if users[i].storers.len() < users[i].replication_factor as usize {
            assert(users@[i as int].storers@.len() < users@[i as int].replication_factor);
            return true;
        }
        i = i + 1;
    }
    false
}

/// The manifests lacking storers that an available-manifest query reports from the raw
/// entries the node returns: the error of the first entry that cannot be reported, then
/// an overflow when the storers some manifest lacks do not fit in a replication factor,
/// or the records of the decoded manifests that lack storers, in order.
pub fn collect_available_manifests_raw(entries: &Vec<(Vec<u8>, Vec<u8>)>) -> (r: Result<
    Vec<ManifestAvailableRecord>,
    StoredValueError,
>)
    ensures
        r is Ok <==> manifest_entries_clean(entries@) && raw_available_sums_fit(entries@),
        !manifest_entries_clean(entries@) ==> (r matches Err(e) && first_manifest_error(entries@, e)),
        manifest_entries_clean(entries@) && !raw_available_sums_fit(entries@) ==> r == Err::<
            Vec<ManifestAvailableRecord>,
            StoredValueError,
        >(StoredValueError::ReplicationOverflow),
        r matches Ok(out) ==> exists|d: Seq<(Vec<u8>, runtime::Manifest)>|
            #[trigger] manifest_entries_decode_to(entries@, d) && available_manifests_reported(out@, d),
{
    let decoded = decode_manifest_entries(entries)?;
    proof {
        lemma_decoded_manifests_fit(entries@, decoded@);
    }
    let mut i: usize = 0;
    while i < decoded.len()
        invariant
            i <= decoded@.len(),
            manifest_entries_clean(entries@),
            manifest_entries_decode_to(entries@, decoded@),
            crate::fula::manifests_within_replication(decoded@),
            forall|k: int|
                0 <= k < i && runtime_available((#[trigger] decoded@[k]).1.users_data@) ==> runtime_replication_sum(
                    decoded@[k].1.users_data@,
                ) <= u16::MAX,
        decreases decoded@.len() - i,
    {
        let users = &decoded[i].1.users_data;
        assert(uploaders_within_replication(decoded@[i as int].1.users_data@));
        proof {
            let d = (scale_decode_manifest(entries@[i as int].1@)->0).0;
            assert(manifest_bytes_decode_to(entries@[i as int].1@, decoded@[i as int].1));
            lemma_decoded_replication(users@, d);
        }
        if replication_available(users) && !replication_sum_fits(users) {
            proof {
                let d = (scale_decode_manifest(entries@[i as int].1@)->0).0;
                assert(decoded_available(d) && decoded_replication_sum(d) > u16::MAX);
                assert(!raw_available_sums_fit(entries@));
            }
            return Err(StoredValueError::ReplicationOverflow);
        }
        i = i + 1;
    }
    assert(raw_available_sums_fit(entries@)) by {
        assert forall|k: int|
            0 <= k < entries@.len() && decoded_available(((#[trigger] scale_decode_manifest(entries@[k].1@))->0).0)
                implies decoded_replication_sum((scale_decode_manifest(entries@[k].1@)->0).0) <= u16::MAX by {
            let d = (scale_decode_manifest(entries@[k].1@)->0).0;
            assert(manifest_bytes_decode_to(entries@[k].1@, decoded@[k].1));
            lemma_decoded_replication(decoded@[k].1.users_data@, d);
        }
    }
    assert(crate::fula::available_sums_fit(decoded@));
    let out = collect_available_manifests(&decoded);
    assert(manifest_entries_decode_to(entries@, decoded@));
    Ok(out)
}

// ---------------------------------------------------------------------------------------
// Storer data
// ---------------------------------------------------------------------------------------

/// The value of two bytes read as a little-endian unsigned number.
pub open spec fn le_u16(b: Seq<u8>) -> int {
    b[0] + b[1] * 0x100
}

/// The value of four bytes read as a little-endian two's-complement number.
pub open spec fn le_i32(b: Seq<u8>) -> int {
    if le_u32(b) < 0x8000_0000 {
        le_u32(b)
    } else {
        le_u32(b) - 0x1_0000_0000
    }
}

/// Calls `Decode::decode` of `parity_scale_codec` on the tuple that a storer's record
/// encodes as: two `u16`, an `i32` and the index byte of the challenge state. Its source
/// reads each number as little-endian bytes of its width, in order, nine bytes in all, and
/// fails only on shorter input.
#[verifier::external_body]
fn decode_storage_data_value(bytes: &[u8]) -> (r: Option<(u16, u16, i32, u8)>)
    ensures
        r is Some <==> bytes@.len() >= 9,
        r matches Some(v) ==> {
            &&& v.0 == le_u16(bytes@.subrange(0, 2))
            &&& v.1 == le_u16(bytes@.subrange(2, 4))
            &&& v.2 == le_i32(bytes@.subrange(4, 8))
            &&& v.3 == bytes@[8]
        },
{
    parity_scale_codec::Decode::decode(&mut &bytes[..]).ok()
}

/// The challenge state that a state index names: open, successful, failed.
pub open spec fn challenge_state_of_index(b: u8) -> runtime::ChallengeState {
    if b == 0 {
        runtime::ChallengeState::Open
    } else if b == 1 {
        runtime::ChallengeState::Successful
    } else {
        runtime::ChallengeState::Failed
    }
}

/// Whether a storer's record is what `bytes` decode to.
pub open spec fn storage_data_bytes_decode_to(bytes: Seq<u8>, v: runtime::ManifestStorageData) -> bool {
    &&& bytes.len() >= 9
    &&& bytes[8] <= 2
    &&& v.active_cycles == le_u16(bytes.subrange(0, 2))
    &&& v.missed_cycles == le_u16(bytes.subrange(2, 4))
    &&& v.active_days == le_i32(bytes.subrange(4, 8))
    &&& v.challenge_state == challenge_state_of_index(bytes[8])
}

/// Why a raw storer-data entry cannot be reported, if it cannot: a key that does not end
/// in a content identifier, a value too short for a record, or an unknown state index.
pub open spec fn storer_entry_error(key: Seq<u8>, value: Seq<u8>) -> Option<StoredValueError> {
    if key.len() < 116 || scale_decode_string(key.subrange(116, key.len() as int)) is None {
        Some(StoredValueError::UnreadableKey)
    } else if value.len() < 9 {
        Some(StoredValueError::UndecodableValue)
    } else if value[8] > 2 {
        Some(StoredValueError::UnknownChallengeState)
    } else {
        None
    }
}

/// Whether every raw storer-data entry can be reported.
pub open spec fn storer_entries_clean(entries: Seq<(Vec<u8>, Vec<u8>)>) -> bool {
    forall|k: int| 0 <= k < entries.len() ==> storer_entry_error((#[trigger] entries[k]).0@, entries[k].1@) is None
}

/// Whether `e` is the error of the first raw storer-data entry that cannot be reported.
pub open spec fn first_storer_error(entries: Seq<(Vec<u8>, Vec<u8>)>, e: StoredValueError) -> bool {
    exists|i: int|
        0 <= i < entries.len() && storer_entries_clean(entries.take(i)) && #[trigger] storer_entry_error(
            entries[i].0@,
            entries[i].1@,
        ) == Some(e)
}

/// Whether `decoded` holds, entry for entry, the keys of `raw` and the records its values
/// decode to.
pub open spec fn storer_entries_decode_to(
    raw: Seq<(Vec<u8>, Vec<u8>)>,
    decoded: Seq<(Vec<u8>, runtime::ManifestStorageData)>,
) -> bool {
    &&& decoded.len() == raw.len()
    &&& forall|k: int|
        0 <= k < raw.len() ==> (#[trigger] decoded[k]).0@ == raw[k].0@ && storage_data_bytes_decode_to(
            raw[k].1@,
            decoded[k].1,
        )
}

/// The storer's record in some bytes, or why they hold none.
fn storage_data_from_bytes(bytes: &[u8]) -> (r: Result<runtime::ManifestStorageData, StoredValueError>)
    ensures
        r is Err <==> (bytes@.len() < 9 || bytes@[8] > 2),
        r matches Err(e) ==> e == (if bytes@.len() < 9 {
            StoredValueError::UndecodableValue
        } else {
            StoredValueError::UnknownChallengeState
        }),
        r matches Ok(v) ==> storage_data_bytes_decode_to(bytes@, v),
{
    match decode_storage_data_value(bytes) {
        None => Err(StoredValueError::UndecodableValue),
        Some((active_cycles, missed_cycles, active_days, state)) => {
            let challenge_state = if state == 0 {
                runtime::ChallengeState::Open
            } else if state == 1 {
                runtime::ChallengeState::Successful
            } else if state == 2 {
                runtime::ChallengeState::Failed
            } else {
                return Err(StoredValueError::UnknownChallengeState);
            };
            Ok(runtime::ManifestStorageData { active_cycles, missed_cycles, active_days, challenge_state })
        },
    }
}

/// Decodes the raw storer-data entries, failing with the error of the first entry that
/// cannot be reported.
fn decode_storer_entries(entries: &Vec<(Vec<u8>, Vec<u8>)>) -> (r: Result<
    Vec<(Vec<u8>, runtime::ManifestStorageData)>,
    StoredValueError,
>)
    ensures
        r is Ok <==> storer_entries_clean(entries@),
        r matches Err(e) ==> first_storer_error(entries@, e),
        r matches Ok(d) ==> storer_entries_decode_to(entries@, d@),
{
    let mut decoded: Vec<(Vec<u8>, runtime::ManifestStorageData)> = Vec::new();
    let mut i: usize = 0;
    while i < entries.len()
        invariant
            i <= entries@.len(),
            decoded@.len() == i,
            storer_entries_clean(entries@.take(i as int)),
            forall|k: int|
                0 <= k < i ==> (#[trigger] decoded@[k]).0@ == entries@[k].0@ && storage_data_bytes_decode_to(
                    entries@[k].1@,
                    decoded@[k].1,
                ),
        decreases entries@.len() - i,
    {
        let entry = &entries[i];
        let ghost clean_before = entries@.take(i as int);
        let key = entry.0.as_slice();
        let err: Option<StoredValueError>;
        if key.len() < STORER_CID_OFFSET {
            err = Some(StoredValueError::UnreadableKey);
        } else if key_text_at(key, STORER_CID_OFFSET).is_none() {
            err = Some(StoredValueError::UnreadableKey);
        } else {
            match storage_data_from_bytes(entry.1.as_slice()) {
                Err(e) => {
                    err = Some(e);
                },
                Ok(v) => {
                    let k = entry.0.clone();
                    assert(k@ =~= entry.0@);
                    decoded.push((k, v));
                    err = None;
                },
            }
        }
        match err {
            Some(e) => {
                assert(storer_entry_error(entries@[i as int].0@, entries@[i as int].1@) == Some(e));
                assert(first_storer_error(entries@, e));
                proof {
                    if storer_entries_clean(entries@) {
                        assert(storer_entry_error(entries@[i as int].0@, entries@[i as int].1@) is None);
                    }
                }
                return Err(e);
            },
            None => {},
        }
        assert(storer_entries_clean(entries@.take(i + 1))) by {
            assert forall|k: int| 0 <= k < entries@.take(i + 1).len() implies storer_entry_error(
                (#[trigger] entries@.take(i + 1)[k]).0@,
                entries@.take(i + 1)[k].1@,
            ) is None by {
                if k < i {
                    assert(entries@.take(i + 1)[k] == clean_before[k]);
                }
            }
        }
        i = i + 1;
    }
    assert(entries@.take(entries@.len() as int) =~= entries@);
    Ok(decoded)
}

/// The storers' records that a storer-data query reports from the raw entries the node
/// returns: the error of the first entry that cannot be reported, then a refusal of an
/// invalid storer filter when there is a record to compare it with, or the records of the
/// storers the filter selects, in order.
pub fn collect_manifests_storer_data_raw(storer: &Option<Account>, entries: &Vec<(Vec<u8>, Vec<u8>)>) -> (r: Result<
    Vec<ManifestStorageData>,
    StoredValueError,
>)
    ensures
        r is Ok <==> storer_entries_clean(entries@) && !(account_filter_invalid(*storer) && entries@.len() > 0),
        !storer_entries_clean(entries@) ==> (r matches Err(e) && first_storer_error(entries@, e)),
        storer_entries_clean(entries@) && account_filter_invalid(*storer) && entries@.len() > 0 ==> r == Err::<
            Vec<ManifestStorageData>,
            StoredValueError,
        >(StoredValueError::InvalidAccount),
        r matches Ok(out) ==> exists|d: Seq<(Vec<u8>, runtime::ManifestStorageData)>|
            #[trigger] storer_entries_decode_to(entries@, d) && storage_data_reported(out@, *storer, d),
{
    let decoded = decode_storer_entries(entries)?;
    assert(storer_keys_readable(decoded@)) by {
        assert forall|k: int| 0 <= k < decoded@.len() implies {
            &&& (#[trigger] decoded@[k]).0@.len() >= 116
            &&& scale_decode_string(decoded@[k].0@.subrange(116, decoded@[k].0@.len() as int)) is Some
        } by {
            assert(storer_entry_error(entries@[k].0@, entries@[k].1@) is None);
        }
    }
    match collect_manifests_storer_data(storer, &decoded) {
        Ok(out) => {
            assert(storer_entries_decode_to(entries@, decoded@));
            Ok(out)
        },
        Err(_) => Err(StoredValueError::InvalidAccount),
    }
}

// ---------------------------------------------------------------------------------------
// Pools, join requests and users
// ---------------------------------------------------------------------------------------

/// What `Decode::decode` of `parity_scale_codec` reads from the start of `bytes` as a
/// stored pool, each account as its 32 bytes.
pub uninterp spec fn scale_decode_pool(bytes: Seq<u8>) -> Option<(Seq<u8>, Option<Seq<u8>>, Option<u32>, Seq<Seq<u8>>, u8, Seq<u8>)>;

/// A decoded stored pool tuple, as plain values.
pub open spec fn pool_tuple_view(v: (Vec<u8>, Option<[u8; 32]>, Option<u32>, Vec<[u8; 32]>, u8, Vec<u8>)) -> (Seq<u8>, Option<Seq<u8>>, Option<u32>, Seq<Seq<u8>>, u8, Seq<u8>) {
    (v.0@, match v.1 { Some(a) => Some(a@), None => None }, v.2, raw_accounts_view(v.3@), v.4, v.5@)
}

/// Calls `Decode::decode` of `parity_scale_codec` on the tuple that a stored pool
/// encodes as (its name, owner, parent, participants, request count and region). The contract names what is read; it does not state the SCALE
/// layout (compact lengths, option tags).
#[verifier::external_body]
fn decode_pool_value(bytes: &[u8]) -> (r: Option<(Vec<u8>, Option<[u8; 32]>, Option<u32>, Vec<[u8; 32]>, u8, Vec<u8>)>)
    ensures
        r is Some <==> scale_decode_pool(bytes@) is Some,
        r matches Some(v) ==> scale_decode_pool(bytes@) == Some(pool_tuple_view(v)),
{
    parity_scale_codec::Decode::decode(&mut &bytes[..]).ok()
}

/// Whether a stored stored pool is the decoded tuple `d`.
pub open spec fn pool_decodes_to(x: runtime::Pool, d: (Seq<u8>, Option<Seq<u8>>, Option<u32>, Seq<Seq<u8>>, u8, Seq<u8>)) -> bool {
    &&& x.name@ == d.0
    &&& (x.owner is Some <==> d.1 is Some)
    &&& (x.owner is Some ==> x.owner->0@ == d.1->0)
    &&& x.parent == d.2
    &&& x.participants@.len() == d.3.len()
    &&& forall|j: int| 0 <= j < d.3.len() ==> (#[trigger] x.participants@[j])@ == d.3[j]
    &&& x.request_number == d.4
    &&& x.region@ == d.5
}

/// The stored pool that a decoded tuple holds.
fn pool_from_tuple(v: (Vec<u8>, Option<[u8; 32]>, Option<u32>, Vec<[u8; 32]>, u8, Vec<u8>)) -> (x: runtime::Pool)
    ensures
        pool_decodes_to(x, pool_tuple_view(v)),
{
    let (name, owner, parent, participants, request_number, region) = v;
    let owner = match owner {
        Some(a) => Some(AccountId32(a)),
        None => None,
    };
    let participants = accounts_from_raw(&participants);
    runtime::Pool { name, owner, parent, participants, request_number, region }
}

/// Why a raw stored pool entry cannot be reported, if it cannot: a key too short for what
/// the query reads from it, or a value that does not decode.
pub open spec fn pool_entry_error(key: Seq<u8>, value: Seq<u8>) -> Option<StoredValueError> {
    if key.len() < 52 {
        Some(StoredValueError::ShortKey)
    } else if scale_decode_pool(value) is None {
        Some(StoredValueError::UndecodableValue)
    } else {
        None
    }
}

/// Whether every raw stored pool entry can be reported.
pub open spec fn pool_entries_clean(entries: Seq<(Vec<u8>, Vec<u8>)>) -> bool {
    forall|k: int| 0 <= k < entries.len() ==> pool_entry_error((#[trigger] entries[k]).0@, entries[k].1@) is None
}

/// Whether `e` is the error of the first raw stored pool entry that cannot be reported.
pub open spec fn first_pool_error(entries: Seq<(Vec<u8>, Vec<u8>)>, e: StoredValueError) -> bool {
    exists|i: int|
        0 <= i < entries.len() && pool_entries_clean(entries.take(i)) && #[trigger] pool_entry_error(
            entries[i].0@,
            entries[i].1@,
        ) == Some(e)
}

/// Whether `decoded` holds, entry for entry, the keys of `raw` and what its values decode to.
pub open spec fn pool_entries_decode_to(raw: Seq<(Vec<u8>, Vec<u8>)>, decoded: Seq<(Vec<u8>, runtime::Pool)>) -> bool {
    &&& decoded.len() == raw.len()
    &&& forall|k: int|
        0 <= k < raw.len() ==> (#[trigger] decoded[k]).0@ == raw[k].0@ && scale_decode_pool(raw[k].1@) is Some
            && pool_decodes_to(decoded[k].1, scale_decode_pool(raw[k].1@)->0)
}

/// Decodes the raw stored pool entries, failing with the error of the first entry that
/// cannot be reported.
fn decode_pool_entries(entries: &Vec<(Vec<u8>, Vec<u8>)>) -> (r: Result<Vec<(Vec<u8>, runtime::Pool)>, StoredValueError>)
    ensures
        r is Ok <==> pool_entries_clean(entries@),
        r matches Err(e) ==> first_pool_error(entries@, e),
        r matches Ok(d) ==> pool_entries_decode_to(entries@, d@),
{
    let mut decoded: Vec<(Vec<u8>, runtime::Pool)> = Vec::new();
    let mut i: usize = 0;
    while i < entries.len()
        invariant
            i <= entries@.len(),
            decoded@.len() == i,
            pool_entries_clean(entries@.take(i as int)),
            forall|k: int|
                0 <= k < i ==> (#[trigger] decoded@[k]).0@ == entries@[k].0@ && scale_decode_pool(entries@[k].1@) is Some
                    && pool_decodes_to(decoded@[k].1, scale_decode_pool(entries@[k].1@)->0),
        decreases entries@.len() - i,
    {
        let entry = &entries[i];
        let ghost clean_before = entries@.take(i as int);
        let err: Option<StoredValueError>;
        if entry.0.len() < 52 {
            err = Some(StoredValueError::ShortKey);
        } else {
            match decode_pool_value(entry.1.as_slice()) {
                None => {
                    err = Some(StoredValueError::UndecodableValue);
                },
                Some(v) => {
                    let x = pool_from_tuple(v);
                    let key = entry.0.clone();
                    assert(key@ =~= entry.0@);
                    decoded.push((key, x));
                    err = None;
                },
            }
        }
        match err {
            Some(e) => {
                assert(pool_entry_error(entries@[i as int].0@, entries@[i as int].1@) == Some(e));
                assert(first_pool_error(entries@, e));
                proof {
                    if pool_entries_clean(entries@) {
                        assert(pool_entry_error(entries@[i as int].0@, entries@[i as int].1@) is None);
                    }
                }
                return Err(e);
            },
            None => {},
        }
        assert(pool_entries_clean(entries@.take(i + 1))) by {
            assert forall|k: int| 0 <= k < entries@.take(i + 1).len() implies pool_entry_error(
                (#[trigger] entries@.take(i + 1)[k]).0@,
                entries@.take(i + 1)[k].1@,
            ) is None by {
                if k < i {
                    assert(entries@.take(i + 1)[k] == clean_before[k]);
                }
            }
        }
        i = i + 1;
    }
    assert(entries@.take(entries@.len() as int) =~= entries@);
    Ok(decoded)
}

/// What `Decode::decode` of `parity_scale_codec` reads from the start of `bytes` as a
/// stored join request, each account as its 32 bytes.
pub uninterp spec fn scale_decode_pool_request(bytes: Seq<u8>) -> Option<(Seq<Seq<u8>>, u16, Seq<u8>)>;

/// A decoded stored join request tuple, as plain values.
pub open spec fn pool_request_tuple_view(v: (Vec<[u8; 32]>, u16, Vec<u8>)) -> (Seq<Seq<u8>>, u16, Seq<u8>) {
    (raw_accounts_view(v.0@), v.1, v.2@)
}

/// Calls `Decode::decode` of `parity_scale_codec` on the tuple that a stored join request
/// encodes as (the accounts that voted, the positive votes and the peer identifier). The contract names what is read; it does not state the SCALE
/// layout (compact lengths, option tags).
#[verifier::external_body]
fn decode_pool_request_value(bytes: &[u8]) -> (r: Option<(Vec<[u8; 32]>, u16, Vec<u8>)>)
    ensures
        r is Some <==> scale_decode_pool_request(bytes@) is Some,
        r matches Some(v) ==> scale_decode_pool_request(bytes@) == Some(pool_request_tuple_view(v)),
{
    parity_scale_codec::Decode::decode(&mut &bytes[..]).ok()
}

/// Whether a stored stored join request is the decoded tuple `d`.
pub open spec fn pool_request_decodes_to(x: runtime::PoolRequest, d: (Seq<Seq<u8>>, u16, Seq<u8>)) -> bool {
    &&& x.voted@.len() == d.0.len()
    &&& forall|j: int| 0 <= j < d.0.len() ==> (#[trigger] x.voted@[j])@ == d.0[j]
    &&& x.positive_votes == d.1
    &&& x.peer_id@ == d.2
}

/// The stored join request that a decoded tuple holds.
fn pool_request_from_tuple(v: (Vec<[u8; 32]>, u16, Vec<u8>)) -> (x: runtime::PoolRequest)
    ensures
        pool_request_decodes_to(x, pool_request_tuple_view(v)),
{
    let (voted, positive_votes, peer_id) = v;
    let voted = accounts_from_raw(&voted);
    runtime::PoolRequest { voted, positive_votes, peer_id }
}

/// Why a raw stored join request entry cannot be reported, if it cannot: a key too short for what
/// the query reads from it, or a value that does not decode.
pub open spec fn pool_request_entry_error(key: Seq<u8>, value: Seq<u8>) -> Option<StoredValueError> {
    if key.len() < 100 {
        Some(StoredValueError::ShortKey)
    } else if scale_decode_pool_request(value) is None {
        Some(StoredValueError::UndecodableValue)
    } else {
        None
    }
}

/// Whether every raw stored join request entry can be reported.
pub open spec fn pool_request_entries_clean(entries: Seq<(Vec<u8>, Vec<u8>)>) -> bool {
    forall|k: int| 0 <= k < entries.len() ==> pool_request_entry_error((#[trigger] entries[k]).0@, entries[k].1@) is None
}

/// Whether `e` is the error of the first raw stored join request entry that cannot be reported.
pub open spec fn first_pool_request_error(entries: Seq<(Vec<u8>, Vec<u8>)>, e: StoredValueError) -> bool {
    exists|i: int|
        0 <= i < entries.len() && pool_request_entries_clean(entries.take(i)) && #[trigger] pool_request_entry_error(
            entries[i].0@,
            entries[i].1@,
        ) == Some(e)
}

/// Whether `decoded` holds, entry for entry, the keys of `raw` and what its values decode to.
pub open spec fn pool_request_entries_decode_to(raw: Seq<(Vec<u8>, Vec<u8>)>, decoded: Seq<(Vec<u8>, runtime::PoolRequest)>) -> bool {
    &&& decoded.len() == raw.len()
    &&& forall|k: int|
        0 <= k < raw.len() ==> (#[trigger] decoded[k]).0@ == raw[k].0@ && scale_decode_pool_request(raw[k].1@) is Some
            && pool_request_decodes_to(decoded[k].1, scale_decode_pool_request(raw[k].1@)->0)
}

/// Decodes the raw stored join request entries, failing with the error of the first entry that
/// cannot be reported.
fn decode_pool_request_entries(entries: &Vec<(Vec<u8>, Vec<u8>)>) -> (r: Result<Vec<(Vec<u8>, runtime::PoolRequest)>, StoredValueError>)
    ensures
        r is Ok <==> pool_request_entries_clean(entries@),
        r matches Err(e) ==> first_pool_request_error(entries@, e),
        r matches Ok(d) ==> pool_request_entries_decode_to(entries@, d@),
{
    let mut decoded: Vec<(Vec<u8>, runtime::PoolRequest)> = Vec::new();
    let mut i: usize = 0;
    while i < entries.len()
        invariant
            i <= entries@.len(),
            decoded@.len() == i,
            pool_request_entries_clean(entries@.take(i as int)),
            forall|k: int|
                0 <= k < i ==> (#[trigger] decoded@[k]).0@ == entries@[k].0@ && scale_decode_pool_request(entries@[k].1@) is Some
                    && pool_request_decodes_to(decoded@[k].1, scale_decode_pool_request(entries@[k].1@)->0),
        decreases entries@.len() - i,
    {
        let entry = &entries[i];
        let ghost clean_before = entries@.take(i as int);
        let err: Option<StoredValueError>;
        if entry.0.len() < 100 {
            err = Some(StoredValueError::ShortKey);
        } else {
            match decode_pool_request_value(entry.1.as_slice()) {
                None => {
                    err = Some(StoredValueError::UndecodableValue);
                },
                Some(v) => {
                    let x = pool_request_from_tuple(v);
                    let key = entry.0.clone();
                    assert(key@ =~= entry.0@);
                    decoded.push((key, x));
                    err = None;
                },
            }
        }
        match err {
            Some(e) => {
                assert(pool_request_entry_error(entries@[i as int].0@, entries@[i as int].1@) == Some(e));
                assert(first_pool_request_error(entries@, e));
                proof {
                    if pool_request_entries_clean(entries@) {
                        assert(pool_request_entry_error(entries@[i as int].0@, entries@[i as int].1@) is None);
                    }
                }
                return Err(e);
            },
            None => {},
        }
        assert(pool_request_entries_clean(entries@.take(i + 1))) by {
            assert forall|k: int| 0 <= k < entries@.take(i + 1).len() implies pool_request_entry_error(
                (#[trigger] entries@.take(i + 1)[k]).0@,
                entries@.take(i + 1)[k].1@,
            ) is None by {
                if k < i {
                    assert(entries@.take(i + 1)[k] == clean_before[k]);
                }
            }
        }
        i = i + 1;
    }
    assert(entries@.take(entries@.len() as int) =~= entries@);
    Ok(decoded)
}

/// What `Decode::decode` of `parity_scale_codec` reads from the start of `bytes` as a
/// stored pool user, each account as its 32 bytes.
pub uninterp spec fn scale_decode_user(bytes: Seq<u8>) -> Option<(Option<u32>, Option<u32>, Seq<u8>)>;

/// A decoded stored pool user tuple, as plain values.
pub open spec fn user_tuple_view(v: (Option<u32>, Option<u32>, Vec<u8>)) -> (Option<u32>, Option<u32>, Seq<u8>) {
    (v.0, v.1, v.2@)
}

/// Calls `Decode::decode` of `parity_scale_codec` on the tuple that a stored pool user
/// encodes as (the pool, the requested pool and the peer identifier). The contract names what is read; it does not state the SCALE
/// layout (compact lengths, option tags).
#[verifier::external_body]
fn decode_user_value(bytes: &[u8]) -> (r: Option<(Option<u32>, Option<u32>, Vec<u8>)>)
    ensures
        r is Some <==> scale_decode_user(bytes@) is Some,
        r matches Some(v) ==> scale_decode_user(bytes@) == Some(user_tuple_view(v)),
{
    parity_scale_codec::Decode::decode(&mut &bytes[..]).ok()
}

/// Whether a stored stored pool user is the decoded tuple `d`.
pub open spec fn user_decodes_to(x: runtime::User, d: (Option<u32>, Option<u32>, Seq<u8>)) -> bool {
    &&& x.pool_id == d.0
    &&& x.request_pool_id == d.1
    &&& x.peer_id@ == d.2
}

/// The stored pool user that a decoded tuple holds.
fn user_from_tuple(v: (Option<u32>, Option<u32>, Vec<u8>)) -> (x: runtime::User)
    ensures
        user_decodes_to(x, user_tuple_view(v)),
{
    let (pool_id, request_pool_id, peer_id) = v;
    runtime::User { pool_id, request_pool_id, peer_id }
}

/// Why a raw stored pool user entry cannot be reported, if it cannot: a key too short for what
/// the query reads from it, or a value that does not decode.
pub open spec fn user_entry_error(key: Seq<u8>, value: Seq<u8>) -> Option<StoredValueError> {
    if key.len() < 80 {
        Some(StoredValueError::ShortKey)
    } else if scale_decode_user(value) is None {
        Some(StoredValueError::UndecodableValue)
    } else {
        None
    }
}

/// Whether every raw stored pool user entry can be reported.
pub open spec fn user_entries_clean(entries: Seq<(Vec<u8>, Vec<u8>)>) -> bool {
    forall|k: int| 0 <= k < entries.len() ==> user_entry_error((#[trigger] entries[k]).0@, entries[k].1@) is None
}

/// Whether `e` is the error of the first raw stored pool user entry that cannot be reported.
pub open spec fn first_user_error(entries: Seq<(Vec<u8>, Vec<u8>)>, e: StoredValueError) -> bool {
    exists|i: int|
        0 <= i < entries.len() && user_entries_clean(entries.take(i)) && #[trigger] user_entry_error(
            entries[i].0@,
            entries[i].1@,
        ) == Some(e)
}

/// Whether `decoded` holds, entry for entry, the keys of `raw` and what its values decode to.
pub open spec fn user_entries_decode_to(raw: Seq<(Vec<u8>, Vec<u8>)>, decoded: Seq<(Vec<u8>, runtime::User)>) -> bool {
    &&& decoded.len() == raw.len()
    &&& forall|k: int|
        0 <= k < raw.len() ==> (#[trigger] decoded[k]).0@ == raw[k].0@ && scale_decode_user(raw[k].1@) is Some
            && user_decodes_to(decoded[k].1, scale_decode_user(raw[k].1@)->0)
}

/// Decodes the raw stored pool user entries, failing with the error of the first entry that
/// cannot be reported.
fn decode_user_entries(entries: &Vec<(Vec<u8>, Vec<u8>)>) -> (r: Result<Vec<(Vec<u8>, runtime::User)>, StoredValueError>)
    ensures
        r is Ok <==> user_entries_clean(entries@),
        r matches Err(e) ==> first_user_error(entries@, e),
        r matches Ok(d) ==> user_entries_decode_to(entries@, d@),
{
    let mut decoded: Vec<(Vec<u8>, runtime::User)> = Vec::new();
    let mut i: usize = 0;
    while i < entries.len()
        invariant
            i <= entries@.len(),
            decoded@.len() == i,
            user_entries_clean(entries@.take(i as int)),
            forall|k: int|
                0 <= k < i ==> (#[trigger] decoded@[k]).0@ == entries@[k].0@ && scale_decode_user(entries@[k].1@) is Some
                    && user_decodes_to(decoded@[k].1, scale_decode_user(entries@[k].1@)->0),
        decreases entries@.len() - i,
    {
        let entry = &entries[i];
        let ghost clean_before = entries@.take(i as int);
        let err: Option<StoredValueError>;
        if entry.0.len() < 80 {
            err = Some(StoredValueError::ShortKey);
        } else {
            match decode_user_value(entry.1.as_slice()) {
                None => {
                    err = Some(StoredValueError::UndecodableValue);
                },
                Some(v) => {
                    let x = user_from_tuple(v);
                    let key = entry.0.clone();
                    assert(key@ =~= entry.0@);
                    decoded.push((key, x));
                    err = None;
                },
            }
        }
        match err {
            Some(e) => {
                assert(user_entry_error(entries@[i as int].0@, entries@[i as int].1@) == Some(e));
                assert(first_user_error(entries@, e));
                proof {
                    if user_entries_clean(entries@) {
                        assert(user_entry_error(entries@[i as int].0@, entries@[i as int].1@) is None);
                    }
                }
                return Err(e);
            },
            None => {},
        }
        assert(user_entries_clean(entries@.take(i + 1))) by {
            assert forall|k: int| 0 <= k < entries@.take(i + 1).len() implies user_entry_error(
                (#[trigger] entries@.take(i + 1)[k]).0@,
                entries@.take(i + 1)[k].1@,
            ) is None by {
                if k < i {
                    assert(entries@.take(i + 1)[k] == clean_before[k]);
                }
            }
        }
        i = i + 1;
    }
    assert(entries@.take(entries@.len() as int) =~= entries@);
    Ok(decoded)
}

/// The pools that a pool query reports from the raw entries the node returns: the error
/// of the first entry that cannot be reported, or the pools in the asked region, in order.
pub fn collect_pools_raw(region: &Option<String>, entries: &Vec<(Vec<u8>, Vec<u8>)>) -> (r: Result<
    Vec<PoolData>,
    StoredValueError,
>)
    ensures
        r is Ok <==> pool_entries_clean(entries@),
        r matches Err(e) ==> first_pool_error(entries@, e),
        r matches Ok(out) ==> exists|d: Seq<(Vec<u8>, runtime::Pool)>|
            #[trigger] pool_entries_decode_to(entries@, d) && pools_reported(out@, *region, d),
{
    let decoded = decode_pool_entries(entries)?;
    assert forall|k: int| 0 <= k < decoded@.len() implies (#[trigger] decoded@[k]).0@.len() >= 52 by {
        assert(pool_entry_error(entries@[k].0@, entries@[k].1@) is None);
    }
    let out = collect_pools(region, &decoded);
    assert(pool_entries_decode_to(entries@, decoded@));
    Ok(out)
}

/// The join requests that a request query reports from the raw entries the node returns:
/// the error of the first entry that cannot be reported, then a refusal of an invalid
/// account filter when there is a request to compare it with, or the selected requests.
pub fn collect_pool_requests_raw(account: &Option<Account>, entries: &Vec<(Vec<u8>, Vec<u8>)>) -> (r: Result<
    Vec<PoolRequestData>,
    StoredValueError,
>)
    ensures
        r is Ok <==> pool_request_entries_clean(entries@) && !(account_filter_invalid(*account) && entries@.len() > 0),
        !pool_request_entries_clean(entries@) ==> (r matches Err(e) && first_pool_request_error(entries@, e)),
        pool_request_entries_clean(entries@) && account_filter_invalid(*account) && entries@.len() > 0 ==> r == Err::<
            Vec<PoolRequestData>,
            StoredValueError,
        >(StoredValueError::InvalidAccount),
        r matches Ok(out) ==> exists|d: Seq<(Vec<u8>, runtime::PoolRequest)>|
            #[trigger] pool_request_entries_decode_to(entries@, d) && pool_requests_reported(out@, *account, d),
{
    let decoded = decode_pool_request_entries(entries)?;
    assert forall|k: int| 0 <= k < decoded@.len() implies (#[trigger] decoded@[k]).0@.len() >= 100 by {
        assert(pool_request_entry_error(entries@[k].0@, entries@[k].1@) is None);
    }
    match collect_pool_requests(account, &decoded) {
        Ok(out) => {
            assert(pool_request_entries_decode_to(entries@, decoded@));
            Ok(out)
        },
        Err(_) => Err(StoredValueError::InvalidAccount),
    }
}

/// The users that a user query reports from the raw entries the node returns: the error
/// of the first entry that cannot be reported, then a refusal of an invalid account filter
/// when there is a user to compare it with, or the selected users.
pub fn collect_pool_users_raw(
    account: &Option<Account>,
    pool_id: Option<PoolId>,
    request_pool_id: Option<PoolId>,
    entries: &Vec<(Vec<u8>, Vec<u8>)>,
) -> (r: Result<Vec<PoolUserData>, StoredValueError>)
    ensures
        r is Ok <==> user_entries_clean(entries@) && !(account_filter_invalid(*account) && entries@.len() > 0),
        !user_entries_clean(entries@) ==> (r matches Err(e) && first_user_error(entries@, e)),
        user_entries_clean(entries@) && account_filter_invalid(*account) && entries@.len() > 0 ==> r == Err::<
            Vec<PoolUserData>,
            StoredValueError,
        >(StoredValueError::InvalidAccount),
        r matches Ok(out) ==> exists|d: Seq<(Vec<u8>, runtime::User)>|
            #[trigger] user_entries_decode_to(entries@, d) && pool_users_reported(out@, *account, pool_id, request_pool_id, d),
{
    let decoded = decode_user_entries(entries)?;
    assert forall|k: int| 0 <= k < decoded@.len() implies (#[trigger] decoded@[k]).0@.len() >= 80 by {
        assert(user_entry_error(entries@[k].0@, entries@[k].1@) is None);
    }
    match collect_pool_users(account, pool_id, request_pool_id, &decoded) {
        Ok(out) => {
            assert(user_entries_decode_to(entries@, decoded@));
            Ok(out)
        },
        Err(_) => Err(StoredValueError::InvalidAccount),
    }
}

} // verus!
