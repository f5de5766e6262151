//! The decisions of the manifest endpoints: how manifests, uploaders and storers read
//! from the chain are reported, which of them a query selects, and how request values
//! are handed to the chain.

use vstd::prelude::*;
use vstd::utf8::encode_utf8;

use crate::address::{
    accounts_encode, accounts_from_ids, same_account, ss58_decode, ss58_encode, AccountError,
    AccountId32,
};
use crate::keys::{key_account, key_account_at, key_text_at, key_u32, key_u32_at};
use crate::pool::account_filter_invalid;
use crate::primitives::{Account, Cid, PoolId, ReplicationFactor};
use crate::runtime;
use crate::scale::scale_decode_string;
use crate::text::{text_bytes, utf8_or_empty, utf8_or_empty_spec};
use crate::types::challenge::{challenge_state_value, ChallengeStateValue};

verus! {

/// An uploader of a manifest, the accounts storing it, and how many more storers it lacks.
#[derive(Clone, Debug)]
pub struct UploaderData {
    pub uploader: Account,
    pub storers: Vec<Account>,
    pub replication_available: ReplicationFactor,
}

/// A manifest as a manifest query reports it; the metadata is the stored JSON text.
#[derive(Clone, Debug)]
pub struct ManifestRecord {
    pub pool_id: PoolId,
    pub uploaders: Vec<UploaderData>,
    pub manifest_metadata: Vec<u8>,
    pub size: Option<u64>,
}

/// A manifest that still lacks storers, as a query reports it; the metadata is the
/// stored JSON text.
#[derive(Clone, Debug)]
pub struct ManifestAvailableRecord {
    pub pool_id: PoolId,
    pub manifest_metadata: Vec<u8>,
    pub replication_available: ReplicationFactor,
}

/// What a storer has recorded for a manifest, as a query reports it.
#[derive(Clone, Debug)]
pub struct ManifestStorageData {
    pub active_cycles: u16,
    pub missed_cycles: u16,
    pub active_days: i32,
    pub pool_id: PoolId,
    pub account: Account,
    pub cid: Cid,
    pub state: ChallengeStateValue,
}

/// The filters of a manifest query.
#[derive(Clone, Debug)]
pub struct GetAllManifestsInput {
    pub pool_id: Option<PoolId>,
    pub uploader: Option<Account>,
    pub storer: Option<Account>,
}

/// The filter of an available-manifest query.
#[derive(Clone, Debug)]
pub struct GetAvailableManifestsInput {
    pub pool_id: Option<PoolId>,
}

/// The filters of a storer-data query.
#[derive(Clone, Debug)]
pub struct GetAllManifestsStorerDataInput {
    pub pool_id: Option<PoolId>,
    pub storer: Option<Account>,
}

/// Whether every uploader of a stored manifest lists no more storers than it asked for.
pub open spec fn uploaders_within_replication(users: Seq<runtime::UploaderData>) -> bool {
    forall|i: int| 0 <= i < users.len() ==> (#[trigger] users[i]).storers@.len() <= users[i].replication_factor
}

/// What is reported of a stored uploader: its address, the addresses of its storers and
/// how many storers it still lacks.
pub open spec fn uploader_reports(d: UploaderData, u: runtime::UploaderData) -> bool {
    &&& d.uploader@ == ss58_encode(u.uploader@)
    &&& ss58_decode(d.uploader@) == Some(u.uploader@)
    &&& accounts_encode(d.storers@, u.storers@)
    &&& d.replication_available.0 == u.replication_factor - u.storers@.len()
}

/// Whether `out` reports the stored uploaders `users`, one for one and in order.
pub open spec fn uploaders_report(out: Seq<UploaderData>, users: Seq<runtime::UploaderData>) -> bool {
    &&& out.len() == users.len()
    &&& forall|i: int| 0 <= i < out.len() ==> uploader_reports(#[trigger] out[i], users[i])
}

/// The uploaders of a stored manifest as the API reports them. The stored replication
/// factor is at least the number of storers (the subtraction would underflow otherwise).
pub fn transform_vec_uploader_data_runtime_to_vec_uploader_data(
    users: Vec<runtime::UploaderData>,
) -> (r: Vec<UploaderData>)
    requires
        uploaders_within_replication(users@),
    ensures
        uploaders_report(r@, users@),
{
    uploaders_from_runtime(&users)
}

/// The uploaders of a stored manifest as the API reports them (borrowing the list).
pub fn uploaders_from_runtime(users: &Vec<runtime::UploaderData>) -> (r: Vec<UploaderData>)
    requires
        uploaders_within_replication(users@),
    ensures
        uploaders_report(r@, users@),
{
    let mut result_array: Vec<UploaderData> = Vec::new();
    let mut i: usize = 0;
    while i < users.len()
        invariant
            i <= users@.len(),
            uploaders_within_replication(users@),
            result_array@.len() == i,
            forall|k: int| 0 <= k < i ==> uploader_reports(#[trigger] result_array@[k], users@[k]),
        decreases users@.len() - i,
    {
        let user_data = &users[i];
        assert(user_data.storers@.len() <= user_data.replication_factor);
        let storer_count = user_data.storers.len() as u16;
        result_array.push(UploaderData {
            uploader: Account::from_account_id(user_data.uploader),
            storers: accounts_from_ids(&user_data.storers),
            replication_available: ReplicationFactor(user_data.replication_factor - storer_count),
        });
        i = i + 1;
    }
    result_array
}

/// Whether every storer address of the uploaders is valid SS58.
pub open spec fn storers_valid(uploaders: Seq<UploaderData>) -> bool {
    forall|i: int, j: int|
        0 <= i < uploaders.len() && 0 <= j < uploaders[i].storers@.len() ==> ss58_decode(
            (#[trigger] uploaders[i].storers@[j])@,
        ) is Some
}

/// Whether some storer of the uploaders is the account with bytes `id`.
pub open spec fn stores(uploaders: Seq<UploaderData>, id: Seq<u8>) -> bool {
    exists|i: int, j: int|
        0 <= i < uploaders.len() && 0 <= j < uploaders[i].storers@.len() && ss58_decode(
            (#[trigger] uploaders[i].storers@[j])@,
        ) == Some(id)
}

/// Whether every uploader address is valid SS58.
pub open spec fn uploaders_valid(uploaders: Seq<UploaderData>) -> bool {
    forall|i: int| 0 <= i < uploaders.len() ==> ss58_decode((#[trigger] uploaders[i]).uploader@) is Some
}

/// Whether some uploader is the account with bytes `id`.
pub open spec fn uploads(uploaders: Seq<UploaderData>, id: Seq<u8>) -> bool {
    exists|i: int| 0 <= i < uploaders.len() && ss58_decode((#[trigger] uploaders[i]).uploader@) == Some(id)
}

/// Whether `account` stores a manifest with these uploaders. Fails when `account` or
/// any storer address is not valid SS58.
pub fn verify_contains_storer(uploaders: Vec<UploaderData>, account: Account) -> (r: Result<bool, AccountError>)
    ensures
        r is Ok <==> (ss58_decode(account@) is Some && storers_valid(uploaders@)),
        r matches Ok(b) ==> b == stores(uploaders@, ss58_decode(account@)->0),
{
    contains_storer(&uploaders, &account)
}

/// Whether `account` stores a manifest with these uploaders (borrowing its arguments).
pub fn contains_storer(uploaders: &Vec<UploaderData>, account: &Account) -> (r: Result<bool, AccountError>)
    ensures
        r is Ok <==> (ss58_decode(account@) is Some && storers_valid(uploaders@)),
        r matches Ok(b) ==> b == stores(uploaders@, ss58_decode(account@)->0),
{
    let account_id = AccountId32::try_from_account(account)?;
    let mut result = false;
    let mut i: usize = 0;
    while i < uploaders.len()
        invariant
            i <= uploaders@.len(),
            ss58_decode(account@) == Some(account_id@),
            forall|i2: int, j: int|
                0 <= i2 < i && 0 <= j < uploaders@[i2].storers@.len() ==> ss58_decode(
                    (#[trigger] uploaders@[i2].storers@[j])@,
                ) is Some,
            result == exists|i2: int, j: int|
                0 <= i2 < i && 0 <= j < uploaders@[i2].storers@.len() && ss58_decode(
                    (#[trigger] uploaders@[i2].storers@[j])@,
                ) == Some(account_id@),
        decreases uploaders@.len() - i,
    {
        let storers = &uploaders[i].storers;
        let mut j: usize = 0;
        while j < storers.len()
            invariant
                i < uploaders@.len(),
                j <= storers@.len(),
                *storers == uploaders@[i as int].storers,
                ss58_decode(account@) == Some(account_id@),
                forall|i2: int, j2: int|
                    0 <= i2 < i && 0 <= j2 < uploaders@[i2].storers@.len() ==> ss58_decode(
                        (#[trigger] uploaders@[i2].storers@[j2])@,
                    ) is Some,
                forall|j2: int| 0 <= j2 < j ==> ss58_decode((#[trigger] storers@[j2])@) is Some,
                result == ((exists|i2: int, j2: int|
                    0 <= i2 < i && 0 <= j2 < uploaders@[i2].storers@.len() && ss58_decode(
                        (#[trigger] uploaders@[i2].storers@[j2])@,
                    ) == Some(account_id@)) || (exists|j2: int|
                    0 <= j2 < j && ss58_decode((#[trigger] storers@[j2])@) == Some(account_id@))),
            decreases storers@.len() - j,
        {
            let storer_account_id = match AccountId32::try_from_account(&storers[j]) {
                Ok(id) => id,
                Err(e) => {
                    assert(!storers_valid(uploaders@)) by {
                        assert(ss58_decode(uploaders@[i as int].storers@[j as int]@) is None);
                    }
                    return Err(e);
                },
            };
            if storer_account_id.same_as(&account_id) {
                result = true;
            }
            j = j + 1;
        }
        i = i + 1;
    }
    Ok(result)
}

/// Whether `account` uploaded a manifest with these uploaders. Fails when `account` or
/// any uploader address is not valid SS58.
pub fn verify_contains_uploader(uploaders: Vec<UploaderData>, account: Account) -> (r: Result<bool, AccountError>)
    ensures
        r is Ok <==> (ss58_decode(account@) is Some && uploaders_valid(uploaders@)),
        r matches Ok(b) ==> b == uploads(uploaders@, ss58_decode(account@)->0),
{
    contains_uploader(&uploaders, &account)
}

/// Whether `account` uploaded a manifest with these uploaders (borrowing its arguments).
pub fn contains_uploader(uploaders: &Vec<UploaderData>, account: &Account) -> (r: Result<bool, AccountError>)
    ensures
        r is Ok <==> (ss58_decode(account@) is Some && uploaders_valid(uploaders@)),
        r matches Ok(b) ==> b == uploads(uploaders@, ss58_decode(account@)->0),
{
    let account_id = AccountId32::try_from_account(account)?;
    let mut result = false;
    let mut i: usize = 0;
    while i < uploaders.len()
        invariant
            i <= uploaders@.len(),
            ss58_decode(account@) == Some(account_id@),
            forall|i2: int| 0 <= i2 < i ==> ss58_decode((#[trigger] uploaders@[i2]).uploader@) is Some,
            result == exists|i2: int| 0 <= i2 < i && ss58_decode((#[trigger] uploaders@[i2]).uploader@) == Some(account_id@),
        decreases uploaders@.len() - i,
    {
        let uploader_account_id = match AccountId32::try_from_account(&uploaders[i].uploader) {
            Ok(id) => id,
            Err(e) => {
                assert(!uploaders_valid(uploaders@)) by {
                    assert(ss58_decode(uploaders@[i as int].uploader@) is None);
                }
                return Err(e);
            },
        };
        if uploader_account_id.same_as(&account_id) {
            result = true;
        }
        i = i + 1;
    }
    Ok(result)
}

/// The UTF-8 bytes of each content identifier, in order, as the chain takes them.
pub fn get_vec_cids_from_input(cids: Vec<Cid>) -> (r: Vec<Vec<u8>>)
    ensures
        r@.len() == cids@.len(),
        forall|i: int| 0 <= i < r@.len() ==> (#[trigger] r@[i])@ == encode_utf8(cids@[i]@),
{
    let mut r: Vec<Vec<u8>> = Vec::new();
    let mut i: usize = 0;
    while i < cids.len()
        invariant
            i <= cids@.len(),
            r@.len() == i,
            forall|k: int| 0 <= k < i ==> (#[trigger] r@[k])@ == encode_utf8(cids@[k]@),
        decreases cids@.len() - i,
    {
        r.push(text_bytes(cids[i].as_str()));
        i = i + 1;
    }
    r
}

/// Each content identifier that the chain reports as bytes, as text (empty when the
/// bytes are not UTF-8), in order.
pub fn get_vec_cids_from_node(cids: Vec<Vec<u8>>) -> (r: Vec<Cid>)
    ensures
        r@.len() == cids@.len(),
        forall|i: int| 0 <= i < r@.len() ==> (#[trigger] r@[i])@ == utf8_or_empty_spec(cids@[i]@),
{
    let mut r: Vec<Cid> = Vec::new();
    let mut i: usize = 0;
    while i < cids.len()
        invariant
            i <= cids@.len(),
            r@.len() == i,
            forall|k: int| 0 <= k < i ==> (#[trigger] r@[k])@ == utf8_or_empty_spec(cids@[k]@),
        decreases cids@.len() - i,
    {
        let bytes = cids[i].clone();
        assert(bytes@ =~= cids@[i as int]@);
        r.push(Cid(utf8_or_empty(bytes)));
        i = i + 1;
    }
    r
}

/// The raw number of each pool identifier, in order.
pub fn get_vec_pool_id_from_input(pool_ids: Vec<PoolId>) -> (r: Vec<u32>)
    ensures
        r@.len() == pool_ids@.len(),
        forall|i: int| 0 <= i < r@.len() ==> #[trigger] r@[i] == pool_ids@[i].0,
{
    let mut r: Vec<u32> = Vec::new();
    let mut i: usize = 0;
    while i < pool_ids.len()
        invariant
            i <= pool_ids@.len(),
            r@.len() == i,
            forall|k: int| 0 <= k < i ==> #[trigger] r@[k] == pool_ids@[k].0,
        decreases pool_ids@.len() - i,
    {
        r.push(pool_ids[i].0);
        i = i + 1;
    }
    r
}

/// Each raw pool number as a pool identifier, in order.
pub fn get_vec_pool_id_from_node(pool_ids: Vec<u32>) -> (r: Vec<PoolId>)
    ensures
        r@.len() == pool_ids@.len(),
        forall|i: int| 0 <= i < r@.len() ==> (#[trigger] r@[i]).0 == pool_ids@[i],
{
    let mut r: Vec<PoolId> = Vec::new();
    let mut i: usize = 0;
    while i < pool_ids.len()
        invariant
            i <= pool_ids@.len(),
            r@.len() == i,
            forall|k: int| 0 <= k < i ==> (#[trigger] r@[k]).0 == pool_ids@[k],
        decreases pool_ids@.len() - i,
    {
        r.push(PoolId(pool_ids[i]));
        i = i + 1;
    }
    r
}

/// The raw value of each replication factor, in order.
pub fn get_vec_replication_factor_from_input(repliaction_factors: Vec<ReplicationFactor>) -> (r: Vec<u16>)
    ensures
        r@.len() == repliaction_factors@.len(),
        forall|i: int| 0 <= i < r@.len() ==> #[trigger] r@[i] == repliaction_factors@[i].0,
{
    let mut r: Vec<u16> = Vec::new();
    let mut i: usize = 0;
    while i < repliaction_factors.len()
        invariant
            i <= repliaction_factors@.len(),
            r@.len() == i,
            forall|k: int| 0 <= k < i ==> #[trigger] r@[k] == repliaction_factors@[k].0,
        decreases repliaction_factors@.len() - i,
    {
        r.push(repliaction_factors[i].0);
        i = i + 1;
    }
    r
}

/// Whether some uploader of a manifest still lacks storers.
pub fn verify_availability(uploaders: Vec<UploaderData>) -> (r: bool)
    ensures
        r == exists|i: int| 0 <= i < uploaders@.len() && (#[trigger] uploaders@[i]).replication_available.0 > 0,
{
    has_available_replication(&uploaders)
}

/// Whether some uploader of a manifest still lacks storers (borrowing the list).
pub fn has_available_replication(uploaders: &Vec<UploaderData>) -> (r: bool)
    ensures
        r == exists|i: int| 0 <= i < uploaders@.len() && (#[trigger] uploaders@[i]).replication_available.0 > 0,
{
    let mut i: usize = 0;
    while i < uploaders.len()
        invariant
            i <= uploaders@.len(),
            forall|k: int| 0 <= k < i ==> (#[trigger] uploaders@[k]).replication_available.0 == 0,
        decreases uploaders@.len() - i,
    {
        if uploaders[i].replication_available.0 > 0 {
            return true;
        }
        i = i + 1;
    }
    false
}

/// The number of storers that the uploaders still lack, added up.
pub open spec fn replication_sum(uploaders: Seq<UploaderData>) -> int
    decreases uploaders.len(),
{
    if uploaders.len() == 0 {
        0
    } else {
        replication_sum(uploaders.drop_last()) + uploaders.last().replication_available.0
    }
}

/// A sum over a prefix is at most the sum over the whole list.
proof fn lemma_replication_sum_prefix(uploaders: Seq<UploaderData>, i: int)
    requires
        0 <= i <= uploaders.len(),
    ensures
        replication_sum(uploaders.take(i)) <= replication_sum(uploaders),
    decreases uploaders.len() - i,
{
    if i < uploaders.len() {
        lemma_replication_sum_prefix(uploaders, i + 1);
        assert(uploaders.take(i + 1).drop_last() =~= uploaders.take(i));
    } else {
        assert(uploaders.take(i) =~= uploaders);
    }
}

/// A manifest still lacks storers exactly when the storers its uploaders lack add up to
/// more than zero: `verify_availability` holds exactly when `get_added_replication` is
/// positive.
pub proof fn lemma_available_iff_added_replication(uploaders: Seq<UploaderData>)
    ensures
        (replication_sum(uploaders) > 0) <==> exists|i: int|
            0 <= i < uploaders.len() && (#[trigger] uploaders[i]).replication_available.0 > 0,
    decreases uploaders.len(),
{
    if uploaders.len() > 0 {
        let prefix = uploaders.drop_last();
        lemma_available_iff_added_replication(prefix);
        lemma_replication_sum_nonnegative(prefix);
        if exists|i: int| 0 <= i < prefix.len() && (#[trigger] prefix[i]).replication_available.0 > 0 {
            let i = choose|i: int| 0 <= i < prefix.len() && (#[trigger] prefix[i]).replication_available.0 > 0;
            assert(uploaders[i] == prefix[i]);
        }
        if exists|i: int| 0 <= i < uploaders.len() && (#[trigger] uploaders[i]).replication_available.0 > 0 {
            let i = choose|i: int| 0 <= i < uploaders.len() && (#[trigger] uploaders[i]).replication_available.0 > 0;
            if i < uploaders.len() - 1 {
                assert(prefix[i] == uploaders[i]);
            }
        }
    }
}

/// A sum of lacking storers is never negative.
proof fn lemma_replication_sum_nonnegative(uploaders: Seq<UploaderData>)
    ensures
        replication_sum(uploaders) >= 0,
    decreases uploaders.len(),
{
    if uploaders.len() > 0 {
        lemma_replication_sum_nonnegative(uploaders.drop_last());
    }
}

/// The number of storers that the uploaders of a manifest still lack altogether. The
/// total fits in a replication factor (the addition would overflow otherwise).
pub fn get_added_replication(uploaders: Vec<UploaderData>) -> (r: ReplicationFactor)
    requires
        replication_sum(uploaders@) <= u16::MAX,
    ensures
        r.0 == replication_sum(uploaders@),
{
    added_replication(&uploaders)
}

/// The number of storers that the uploaders still lack altogether (borrowing the list).
pub fn added_replication(uploaders: &Vec<UploaderData>) -> (r: ReplicationFactor)
    requires
        replication_sum(uploaders@) <= u16::MAX,
    ensures
        r.0 == replication_sum(uploaders@),
{
    let mut result: u16 = 0;
    let mut i: usize = 0;
    while i < uploaders.len()
        invariant
            i <= uploaders@.len(),
            replication_sum(uploaders@) <= u16::MAX,
            result == replication_sum(uploaders@.take(i as int)),
        decreases uploaders@.len() - i,
    {
        assert(uploaders@.take(i + 1).drop_last() =~= uploaders@.take(i as int));
        proof {
            lemma_replication_sum_prefix(uploaders@, i + 1);
        }
        result = result + uploaders[i].replication_available.0;
        i = i + 1;
    }
    assert(uploaders@.take(uploaders@.len() as int) =~= uploaders@);
    ReplicationFactor(result)
}

/// The raw number of an optional pool identifier.
pub fn transform_option_pool_id_value_reverse(value: Option<PoolId>) -> (r: Option<u32>)
    ensures
        r is Some <==> value is Some,
        r matches Some(v) ==> v == (value->0).0,
{
    match value {
        Some(p) => Some(p.0),
        None => None,
    }
}

/// The on-chain account of an optional address; fails when the address is not valid SS58.
pub fn transform_option_account_value_reverse(value: Option<Account>) -> (r: Result<Option<AccountId32>, AccountError>)
    ensures
        r is Err <==> (value matches Some(a) && ss58_decode(a@) is None),
        r matches Ok(o) ==> (o is Some <==> value is Some),
        r matches Ok(Some(id)) ==> ss58_decode(value->0@) == Some(id@),
{
    match value {
        Some(account) => {
            let id = AccountId32::try_from_account(&account)?;
            Ok(Some(id))
        },
        None => Ok(None),
    }
}

/// Offset of the pool number in a key of the `Manifests` and `ManifestsStorerData` maps.
pub const MANIFEST_POOL_OFFSET: usize = 48;

/// Offset of the storer account in a key of the `ManifestsStorerData` map.
pub const STORER_ACCOUNT_OFFSET: usize = 68;

/// Offset of the content identifier in a key of the `ManifestsStorerData` map.
pub const STORER_CID_OFFSET: usize = 116;

/// Whether some storer of the stored uploaders is the account with bytes `id`.
pub open spec fn runtime_stores(users: Seq<runtime::UploaderData>, id: Seq<u8>) -> bool {
    exists|i: int, j: int|
        0 <= i < users.len() && 0 <= j < users[i].storers@.len() && (#[trigger] users[i].storers@[j])@ == id
}

/// Whether some stored uploader is the account with bytes `id`.
pub open spec fn runtime_uploads(users: Seq<runtime::UploaderData>, id: Seq<u8>) -> bool {
    exists|i: int| 0 <= i < users.len() && (#[trigger] users[i]).uploader@ == id
}

/// Whether a stored manifest passes the filters of a manifest query. A filter whose
/// address is not valid SS58 is ignored; a valid one keeps the manifests that the
/// account stores (respectively uploaded).
pub open spec fn manifest_selected(
    storer: Option<Account>,
    uploader: Option<Account>,
    users: Seq<runtime::UploaderData>,
) -> bool {
    &&& match storer {
        Some(s) => ss58_decode(s@) is Some ==> runtime_stores(users, ss58_decode(s@)->0),
        None => true,
    }
    &&& match uploader {
        Some(u) => ss58_decode(u@) is Some ==> runtime_uploads(users, ss58_decode(u@)->0),
        None => true,
    }
}

/// Reported uploaders store exactly what the stored uploaders store.
pub(crate) proof fn lemma_report_stores(out: Seq<UploaderData>, users: Seq<runtime::UploaderData>, id: Seq<u8>)
    requires
        uploaders_report(out, users),
    ensures
        storers_valid(out),
        uploaders_valid(out),
        stores(out, id) == runtime_stores(users, id),
        uploads(out, id) == runtime_uploads(users, id),
{
    assert forall|i: int, j: int| 0 <= i < out.len() && 0 <= j < out[i].storers@.len() implies ss58_decode(
        (#[trigger] out[i].storers@[j])@,
    ) == Some(users[i].storers@[j]@) by {
        assert(uploader_reports(out[i], users[i]));
    }
    if stores(out, id) {
        let (i, j) = choose|i: int, j: int|
            0 <= i < out.len() && 0 <= j < out[i].storers@.len() && ss58_decode(
                (#[trigger] out[i].storers@[j])@,
            ) == Some(id);
        assert(users[i].storers@[j]@ == id);
    }
    if runtime_stores(users, id) {
        let (i, j) = choose|i: int, j: int|
            0 <= i < users.len() && 0 <= j < users[i].storers@.len() && (#[trigger] users[i].storers@[j])@ == id;
        assert(uploader_reports(out[i], users[i]));
        assert(ss58_decode(out[i].storers@[j]@) == Some(id));
    }
    if uploads(out, id) {
        let i = choose|i: int| 0 <= i < out.len() && ss58_decode((#[trigger] out[i]).uploader@) == Some(id);
        assert(uploader_reports(out[i], users[i]));
    }
    if runtime_uploads(users, id) {
        let i = choose|i: int| 0 <= i < users.len() && (#[trigger] users[i]).uploader@ == id;
        assert(uploader_reports(out[i], users[i]));
    }
}

/// Whether a stored manifest passes the filters of a manifest query, given its reported
/// uploaders.
pub fn manifest_meets_filters(
    storer: &Option<Account>,
    uploader: &Option<Account>,
    uploaders_data: &Vec<UploaderData>,
    Ghost(users): Ghost<Seq<runtime::UploaderData>>,
) -> (r: bool)
    requires
        uploaders_report(uploaders_data@, users),
    ensures
        r == manifest_selected(*storer, *uploader, users),
{
    let mut meet_requirements = true;
    if let Some(storer) = storer {
        proof {
            if ss58_decode(storer@) is Some {
                lemma_report_stores(uploaders_data@, users, ss58_decode(storer@)->0);
            }
        }
        if let Ok(contained_value) = contains_storer(uploaders_data, storer) {
            if !contained_value {
                meet_requirements = false;
            }
        }
    }
    if let Some(uploader) = uploader {
        proof {
            if ss58_decode(uploader@) is Some {
                lemma_report_stores(uploaders_data@, users, ss58_decode(uploader@)->0);
            }
        }
        if let Ok(contained_value) = contains_uploader(uploaders_data, uploader) {
            if !contained_value {
                meet_requirements = false;
            }
        }
    }
    meet_requirements
}

/// What is reported of a stored manifest.
pub open spec fn manifest_record_reports(
    d: ManifestRecord,
    pool_id: int,
    users: Seq<runtime::UploaderData>,
    metadata: Seq<u8>,
    size: Option<u64>,
) -> bool {
    &&& d.pool_id.0 == pool_id
    &&& uploaders_report(d.uploaders@, users)
    &&& d.manifest_metadata@ == metadata
    &&& d.size == size
}

/// Whether every stored manifest keeps its storers within its replication factors.
pub open spec fn manifests_within_replication(entries: Seq<(Vec<u8>, runtime::Manifest)>) -> bool {
    forall|i: int| 0 <= i < entries.len() ==> uploaders_within_replication((#[trigger] entries[i]).1.users_data@)
}

/// Whether `out` is what a manifest query reports for the stored `entries` (key and
/// manifest), in order: one record for each manifest that passes the filters.
pub open spec fn manifests_reported(
    out: Seq<ManifestRecord>,
    storer: Option<Account>,
    uploader: Option<Account>,
    entries: Seq<(Vec<u8>, runtime::Manifest)>,
) -> bool
    decreases entries.len(),
{
    if entries.len() == 0 {
        out.len() == 0
    } else {
        let e = entries.last();
        if manifest_selected(storer, uploader, e.1.users_data@) {
            &&& out.len() > 0
            &&& manifest_record_reports(out.last(), key_u32(e.0@, 48), e.1.users_data@, e.1.manifest_metadata@, e.1.size)
            &&& manifests_reported(out.drop_last(), storer, uploader, entries.drop_last())
        } else {
            manifests_reported(out, storer, uploader, entries.drop_last())
        }
    }
}

/// The manifests that a manifest query reports, from the stored manifests and their keys
/// (the pool filter is applied by the storage prefix the keys were read under).
pub fn collect_manifests(
    input: &GetAllManifestsInput,
    entries: &Vec<(Vec<u8>, runtime::Manifest)>,
) -> (r: Vec<ManifestRecord>)
    requires
        forall|i: int| 0 <= i < entries@.len() ==> (#[trigger] entries@[i]).0@.len() >= 52,
        manifests_within_replication(entries@),
    ensures
        manifests_reported(r@, input.storer, input.uploader, entries@),
{
    let mut out: Vec<ManifestRecord> = Vec::new();
    let mut i: usize = 0;
    while i < entries.len()
        invariant
            i <= entries@.len(),
            forall|k: int| 0 <= k < entries@.len() ==> (#[trigger] entries@[k]).0@.len() >= 52,
            manifests_within_replication(entries@),
            manifests_reported(out@, input.storer, input.uploader, entries@.take(i as int)),
        decreases entries@.len() - i,
    {
        let entry = &entries[i];
        assert(entries@.take(i + 1).drop_last() =~= entries@.take(i as int));
        assert(uploaders_within_replication(entries@[i as int].1.users_data@));
        let pool_id = key_u32_at(entry.0.as_slice(), MANIFEST_POOL_OFFSET);
        let uploaders_data = uploaders_from_runtime(&entry.1.users_data);
        if manifest_meets_filters(&input.storer, &input.uploader, &uploaders_data, Ghost(entry.1.users_data@)) {
            let metadata = entry.1.manifest_metadata.clone();
            assert(metadata@ =~= entry.1.manifest_metadata@);
            let record = ManifestRecord {
                pool_id: PoolId(pool_id),
                uploaders: uploaders_data,
                manifest_metadata: metadata,
                size: entry.1.size,
            };
            let ghost before = out@;
            out.push(record);
            assert(out@.drop_last() =~= before);
        }
        i = i + 1;
    }
    assert(entries@.take(entries@.len() as int) =~= entries@);
    out
}

/// The number of storers that stored uploaders still lack, added up.
pub open spec fn runtime_replication_sum(users: Seq<runtime::UploaderData>) -> int
    decreases users.len(),
{
    if users.len() == 0 {
        0
    } else {
        runtime_replication_sum(users.drop_last()) + (users.last().replication_factor - users.last().storers@.len())
    }
}

/// Whether some stored uploader lists fewer storers than it asked for.
pub open spec fn runtime_available(users: Seq<runtime::UploaderData>) -> bool {
    exists|i: int| 0 <= i < users.len() && (#[trigger] users[i]).storers@.len() < users[i].replication_factor
}

/// Reported uploaders lack, altogether, what the stored uploaders lack.
proof fn lemma_report_replication(out: Seq<UploaderData>, users: Seq<runtime::UploaderData>)
    requires
        uploaders_report(out, users),
    ensures
        replication_sum(out) == runtime_replication_sum(users),
        (exists|i: int| 0 <= i < out.len() && (#[trigger] out[i]).replication_available.0 > 0) == runtime_available(users),
    decreases users.len(),
{
    if users.len() > 0 {
        assert(uploaders_report(out.drop_last(), users.drop_last())) by {
            assert forall|i: int| 0 <= i < out.drop_last().len() implies uploader_reports(
                #[trigger] out.drop_last()[i],
                users.drop_last()[i],
            ) by {
                assert(uploader_reports(out[i], users[i]));
            }
        }
        lemma_report_replication(out.drop_last(), users.drop_last());
        assert(uploader_reports(out[out.len() - 1], users[users.len() - 1]));
    }
    if runtime_available(users) {
        let i = choose|i: int| 0 <= i < users.len() && (#[trigger] users[i]).storers@.len() < users[i].replication_factor;
        assert(uploader_reports(out[i], users[i]));
    }
    if exists|i: int| 0 <= i < out.len() && (#[trigger] out[i]).replication_available.0 > 0 {
        let i = choose|i: int| 0 <= i < out.len() && (#[trigger] out[i]).replication_available.0 > 0;
        assert(uploader_reports(out[i], users[i]));
    }
}

/// Whether every stored manifest that lacks storers lacks no more than a replication
/// factor can count (the addition would overflow otherwise).
pub open spec fn available_sums_fit(entries: Seq<(Vec<u8>, runtime::Manifest)>) -> bool {
    forall|i: int|
        0 <= i < entries.len() && runtime_available((#[trigger] entries[i]).1.users_data@) ==> runtime_replication_sum(
            entries[i].1.users_data@,
        ) <= u16::MAX
}

/// Whether `out` is what an available-manifest query reports for the stored `entries`:
/// one record, with the number of missing storers, for each manifest that lacks storers.
pub open spec fn available_manifests_reported(
    out: Seq<ManifestAvailableRecord>,
    entries: Seq<(Vec<u8>, runtime::Manifest)>,
) -> bool
    decreases entries.len(),
{
    if entries.len() == 0 {
        out.len() == 0
    } else {
        let e = entries.last();
        if runtime_available(e.1.users_data@) {
            &&& out.len() > 0
            &&& out.last().pool_id.0 == key_u32(e.0@, 48)
            &&& out.last().manifest_metadata@ == e.1.manifest_metadata@
            &&& out.last().replication_available.0 == runtime_replication_sum(e.1.users_data@)
            &&& available_manifests_reported(out.drop_last(), entries.drop_last())
        } else {
            available_manifests_reported(out, entries.drop_last())
        }
    }
}

/// The manifests that still lack storers, from the stored manifests and their keys.
pub fn collect_available_manifests(entries: &Vec<(Vec<u8>, runtime::Manifest)>) -> (r: Vec<ManifestAvailableRecord>)
    requires
        forall|i: int| 0 <= i < entries@.len() ==> (#[trigger] entries@[i]).0@.len() >= 52,
        manifests_within_replication(entries@),
        available_sums_fit(entries@),
    ensures
        available_manifests_reported(r@, entries@),
{
    let mut out: Vec<ManifestAvailableRecord> = Vec::new();
    let mut i: usize = 0;
    while i < entries.len()
        invariant
            i <= entries@.len(),
            forall|k: int| 0 <= k < entries@.len() ==> (#[trigger] entries@[k]).0@.len() >= 52,
            manifests_within_replication(entries@),
            available_sums_fit(entries@),
            available_manifests_reported(out@, entries@.take(i as int)),
        decreases entries@.len() - i,
    {
        let entry = &entries[i];
        assert(entries@.take(i + 1).drop_last() =~= entries@.take(i as int));
        assert(uploaders_within_replication(entries@[i as int].1.users_data@));
        let pool_id = key_u32_at(entry.0.as_slice(), MANIFEST_POOL_OFFSET);
        let uploaders_data = uploaders_from_runtime(&entry.1.users_data);
        proof {
            lemma_report_replication(uploaders_data@, entry.1.users_data@);
        }
        if has_available_replication(&uploaders_data) {
            let metadata = entry.1.manifest_metadata.clone();
            assert(metadata@ =~= entry.1.manifest_metadata@);
            let record = ManifestAvailableRecord {
                pool_id: PoolId(pool_id),
                manifest_metadata: metadata,
                replication_available: added_replication(&uploaders_data),
            };
            let ghost before = out@;
            out.push(record);
            assert(out@.drop_last() =~= before);
        }
        i = i + 1;
    }
    assert(entries@.take(entries@.len() as int) =~= entries@);
    out
}

/// Whether the storer key of every entry is long enough and carries a readable content
/// identifier at its end.
pub open spec fn storer_keys_readable(entries: Seq<(Vec<u8>, runtime::ManifestStorageData)>) -> bool {
    forall|i: int|
        0 <= i < entries.len() ==> {
            &&& (#[trigger] entries[i]).0@.len() >= 116
            &&& scale_decode_string(entries[i].0@.subrange(116, entries[i].0@.len() as int)) is Some
        }
}

/// What is reported of a storer's record, read from its key and its stored value.
pub open spec fn storage_data_reports(d: ManifestStorageData, key: Seq<u8>, v: runtime::ManifestStorageData) -> bool {
    &&& d.active_cycles == v.active_cycles
    &&& d.missed_cycles == v.missed_cycles
    &&& d.active_days == v.active_days
    &&& d.pool_id.0 == key_u32(key, 48)
    &&& d.account@ == ss58_encode(key_account(key, 68))
    &&& Some(d.cid@) == scale_decode_string(key.subrange(116, key.len() as int))
    &&& d.state == challenge_state_value(v.challenge_state)
}

/// Whether a storer's record passes the storer filter: no filter, or the filter names the
/// storer of the key.
pub open spec fn storage_data_selected(storer: Option<Account>, key: Seq<u8>) -> bool {
    match storer {
        Some(s) => ss58_decode(s@) == Some(key_account(key, 68)),
        None => true,
    }
}

/// Whether `out` is what a storer-data query reports for the stored `entries`.
pub open spec fn storage_data_reported(
    out: Seq<ManifestStorageData>,
    storer: Option<Account>,
    entries: Seq<(Vec<u8>, runtime::ManifestStorageData)>,
) -> bool
    decreases entries.len(),
{
    if entries.len() == 0 {
        out.len() == 0
    } else {
        let e = entries.last();
        if storage_data_selected(storer, e.0@) {
            &&& out.len() > 0
            &&& storage_data_reports(out.last(), e.0@, e.1)
            &&& storage_data_reported(out.drop_last(), storer, entries.drop_last())
        } else {
            storage_data_reported(out, storer, entries.drop_last())
        }
    }
}

/// The storers' records that a storer-data query reports, from the stored records and
/// their keys. Fails when the storer filter is not a valid address and there is a record
/// to compare it with.
pub fn collect_manifests_storer_data(
    storer: &Option<Account>,
    entries: &Vec<(Vec<u8>, runtime::ManifestStorageData)>,
) -> (r: Result<Vec<ManifestStorageData>, AccountError>)
    requires
        storer_keys_readable(entries@),
    ensures
        r is Err <==> (account_filter_invalid(*storer) && entries@.len() > 0),
        r matches Ok(out) ==> storage_data_reported(out@, *storer, entries@),
{
    let mut out: Vec<ManifestStorageData> = Vec::new();
    let mut i: usize = 0;
    while i < entries.len()
        invariant
            i <= entries@.len(),
            storer_keys_readable(entries@),
            account_filter_invalid(*storer) ==> i == 0,
            storage_data_reported(out@, *storer, entries@.take(i as int)),
        decreases entries@.len() - i,
    {
        let entry = &entries[i];
        assert(entries@.take(i + 1).drop_last() =~= entries@.take(i as int));
        assert(entries@[i as int].0@.len() >= 116);
        let key = entry.0.as_slice();
        let pool_id = key_u32_at(key, MANIFEST_POOL_OFFSET);
        let account = Account::from_account_id(key_account_at(key, STORER_ACCOUNT_OFFSET));
        let cid = match key_text_at(key, STORER_CID_OFFSET) {
            Some(text) => text,
            None => {
                assert(false);
                String::new()
            },
        };
        let mut meet_requirements = true;
        if let Some(filter) = storer {
            if !same_account(&account, filter)? {
                meet_requirements = false;
            }
        }
        if meet_requirements {
            let value = &entry.1;
            let data = ManifestStorageData {
                active_cycles: value.active_cycles,
                missed_cycles: value.missed_cycles,
                active_days: value.active_days,
                pool_id: PoolId(pool_id),
                account,
                cid: Cid(cid),
                state: value.challenge_state.into(),
            };
            let ghost before = out@;
            out.push(data);
            assert(out@.drop_last() =~= before);
        }
        i = i + 1;
    }
    assert(entries@.take(entries@.len() as int) =~= entries@);
    Ok(out)
}

/// Why a storer-data query could not be answered.
#[derive(Clone, Copy, Debug, PartialEq, Eq, Structural)]
pub enum StorerDataError {
    /// The storer filter is not a valid address.
    InvalidAccount,
    /// A storage key is too short or does not end in a content identifier.
    UnreadableKey,
}

/// The storers' records that a storer-data query reports, checking first that every key
/// can be read; `UnreadableKey` when one cannot (where the query itself would abort).
pub fn try_collect_manifests_storer_data(
    storer: &Option<Account>,
    entries: &Vec<(Vec<u8>, runtime::ManifestStorageData)>,
) -> (r: Result<Vec<ManifestStorageData>, StorerDataError>)
    ensures
        r == Err::<Vec<ManifestStorageData>, StorerDataError>(StorerDataError::UnreadableKey) <==> !storer_keys_readable(entries@),
        r == Err::<Vec<ManifestStorageData>, StorerDataError>(StorerDataError::InvalidAccount) <==> (storer_keys_readable(entries@)
            && account_filter_invalid(*storer) && entries@.len() > 0),
        r matches Ok(out) ==> storage_data_reported(out@, *storer, entries@),
{
    let mut i: usize = 0;
    while i < entries.len()
        invariant
            i <= entries@.len(),
            forall|k: int|
                0 <= k < i ==> {
                    &&& (#[trigger] entries@[k]).0@.len() >= 116
                    &&& scale_decode_string(entries@[k].0@.subrange(116, entries@[k].0@.len() as int)) is Some
                },
        decreases entries@.len() - i,
    {
        let key = entries[i].0.as_slice();
        if key.len() < STORER_CID_OFFSET {
            return Err(StorerDataError::UnreadableKey);
        }
        if key_text_at(key, STORER_CID_OFFSET).is_none() {
            return Err(StorerDataError::UnreadableKey);
        }
        i = i + 1;
    }
    match collect_manifests_storer_data(storer, entries) {
        Ok(out) => Ok(out),
        Err(_) => Err(StorerDataError::InvalidAccount),
    }
}

/// The manifests that the manifest query event lists, as the API reports them.
pub fn transform_get_manifests(manifests: Vec<runtime::ManifestWithPoolId>) -> (r: Vec<ManifestRecord>)
    requires
        forall|i: int| 0 <= i < manifests@.len() ==> uploaders_within_replication((#[trigger] manifests@[i]).users_data@),
    ensures
        r@.len() == manifests@.len(),
        forall|i: int|
            0 <= i < r@.len() ==> manifest_record_reports(
                #[trigger] r@[i],
                manifests@[i].pool_id as int,
                manifests@[i].users_data@,
                manifests@[i].manifest_metadata@,
                manifests@[i].size,
            ),
{
    let mut result: Vec<ManifestRecord> = Vec::new();
    let mut i: usize = 0;
    while i < manifests.len()
        invariant
            i <= manifests@.len(),
            forall|k: int| 0 <= k < manifests@.len() ==> uploaders_within_replication((#[trigger] manifests@[k]).users_data@),
            result@.len() == i,
            forall|k: int|
                0 <= k < i ==> manifest_record_reports(
                    #[trigger] result@[k],
                    manifests@[k].pool_id as int,
                    manifests@[k].users_data@,
                    manifests@[k].manifest_metadata@,
                    manifests@[k].size,
                ),
        decreases manifests@.len() - i,
    {
        let manifest = &manifests[i];
        assert(uploaders_within_replication(manifests@[i as int].users_data@));
        let metadata = manifest.manifest_metadata.clone();
        assert(metadata@ =~= manifest.manifest_metadata@);
        result.push(ManifestRecord {
            pool_id: PoolId(manifest.pool_id),
            uploaders: uploaders_from_runtime(&manifest.users_data),
            manifest_metadata: metadata,
            size: manifest.size,
        });
        i = i + 1;
    }
    result
}

/// The manifests that the available-manifest event lists, as the API reports them.
pub fn transform_get_available_manifests(manifests: Vec<runtime::ManifestAvailable>) -> (r: Vec<ManifestAvailableRecord>)
    ensures
        r@.len() == manifests@.len(),
        forall|i: int|
            0 <= i < r@.len() ==> {
                &&& (#[trigger] r@[i]).pool_id.0 == manifests@[i].pool_id
                &&& r@[i].manifest_metadata@ == manifests@[i].manifest_metadata@
                &&& r@[i].replication_available.0 == manifests@[i].replication_factor
            },
{
    let mut result: Vec<ManifestAvailableRecord> = Vec::new();
    let mut i: usize = 0;
    while i < manifests.len()
        invariant
            i <= manifests@.len(),
            result@.len() == i,
            forall|k: int|
                0 <= k < i ==> {
                    &&& (#[trigger] result@[k]).pool_id.0 == manifests@[k].pool_id
                    &&& result@[k].manifest_metadata@ == manifests@[k].manifest_metadata@
                    &&& result@[k].replication_available.0 == manifests@[k].replication_factor
                },
        decreases manifests@.len() - i,
    {
        let manifest = &manifests[i];
        let metadata = manifest.manifest_metadata.clone();
        assert(metadata@ =~= manifest.manifest_metadata@);
        result.push(ManifestAvailableRecord {
            pool_id: PoolId(manifest.pool_id),
            manifest_metadata: metadata,
            replication_available: ReplicationFactor(manifest.replication_factor),
        });
        i = i + 1;
    }
    result
}

/// The storers' records that the storer-data event lists, as the API reports them.
pub fn transform_get_manifests_storer_data(manifests: Vec<runtime::StorerData>) -> (r: Vec<ManifestStorageData>)
    ensures
        r@.len() == manifests@.len(),
        forall|i: int|
            0 <= i < r@.len() ==> {
                &&& (#[trigger] r@[i]).pool_id.0 == manifests@[i].pool_id
                &&& r@[i].account@ == ss58_encode(manifests@[i].account@)
                &&& r@[i].cid@ == utf8_or_empty_spec(manifests@[i].cid@)
                &&& r@[i].active_days == manifests@[i].manifest_data.active_days
                &&& r@[i].active_cycles == manifests@[i].manifest_data.active_cycles
                &&& r@[i].missed_cycles == manifests@[i].manifest_data.missed_cycles
                &&& r@[i].state == challenge_state_value(manifests@[i].manifest_data.challenge_state)
            },
{
    let mut result: Vec<ManifestStorageData> = Vec::new();
    let mut i: usize = 0;
    while i < manifests.len()
        invariant
            i <= manifests@.len(),
            result@.len() == i,
            forall|k: int|
                0 <= k < i ==> {
                    &&& (#[trigger] result@[k]).pool_id.0 == manifests@[k].pool_id
                    &&& result@[k].account@ == ss58_encode(manifests@[k].account@)
                    &&& result@[k].cid@ == utf8_or_empty_spec(manifests@[k].cid@)
                    &&& result@[k].active_days == manifests@[k].manifest_data.active_days
                    &&& result@[k].active_cycles == manifests@[k].manifest_data.active_cycles
                    &&& result@[k].missed_cycles == manifests@[k].manifest_data.missed_cycles
                    &&& result@[k].state == challenge_state_value(manifests@[k].manifest_data.challenge_state)
                },
        decreases manifests@.len() - i,
    {
        let manifest = &manifests[i];
        let cid = manifest.cid.clone();
        assert(cid@ =~= manifest.cid@);
        result.push(ManifestStorageData {
            pool_id: PoolId(manifest.pool_id),
            account: Account::from_account_id(manifest.account),
            cid: Cid(utf8_or_empty(cid)),
            active_days: manifest.manifest_data.active_days,
            active_cycles: manifest.manifest_data.active_cycles,
            missed_cycles: manifest.manifest_data.missed_cycles,
            state: manifest.manifest_data.challenge_state.into(),
        });
        i = i + 1;
    }
    result
}


/// The number of stored manifests that the account with bytes `id` uploaded.
pub open spec fn count_uploaded_by(entries: Seq<(Vec<u8>, runtime::Manifest)>, id: Seq<u8>) -> nat
    decreases entries.len(),
{
    if entries.len() == 0 {
        0
    } else {
        count_uploaded_by(entries.drop_last(), id) + if exists|i: int|
            0 <= i < entries.last().1.users_data@.len() && (#[trigger] entries.last().1.users_data@[i]).uploader@ == id {
            1nat
        } else {
            0nat
        }
    }
}

/// A manifest query filtered by a valid uploader address (and by no storer) reports one
/// record for each stored manifest that this account uploaded, whoever stores it; and
/// each reported record lists that account among its uploaders.
pub proof fn lemma_uploader_filter_reports_uploads(
    out: Seq<ManifestRecord>,
    uploader: Account,
    entries: Seq<(Vec<u8>, runtime::Manifest)>,
)
    requires
        manifests_reported(out, None, Some(uploader), entries),
        ss58_decode(uploader@) is Some,
    ensures
        out.len() == count_uploaded_by(entries, ss58_decode(uploader@)->0),
        forall|j: int|
            0 <= j < out.len() ==> exists|k: int|
                0 <= k < (#[trigger] out[j]).uploaders@.len() && out[j].uploaders@[k].uploader@ == ss58_encode(
                    ss58_decode(uploader@)->0,
                ),
    decreases entries.len(),
{
    let id = ss58_decode(uploader@)->0;
    if entries.len() > 0 {
        let e = entries.last();
        let users = e.1.users_data@;
        if manifest_selected(None, Some(uploader), users) {
            lemma_uploader_filter_reports_uploads(out.drop_last(), uploader, entries.drop_last());
            let i = choose|i: int| 0 <= i < users.len() && (#[trigger] users[i]).uploader@ == id;
            let last = out[out.len() - 1];
            assert(uploader_reports(last.uploaders@[i], users[i]));
            assert forall|j: int| 0 <= j < out.len() implies exists|k: int|
                0 <= k < (#[trigger] out[j]).uploaders@.len() && out[j].uploaders@[k].uploader@ == ss58_encode(id) by {
                if j < out.len() - 1 {
                    assert(out[j] == out.drop_last()[j]);
                } else {
                    assert(out[j].uploaders@[i].uploader@ == ss58_encode(id));
                }
            }
        } else {
            lemma_uploader_filter_reports_uploads(out, uploader, entries.drop_last());
        }
    }
}

/// The number of stored manifests that the account with bytes `id` stores.
pub open spec fn count_stored_manifests_of(entries: Seq<(Vec<u8>, runtime::Manifest)>, id: Seq<u8>) -> nat
    decreases entries.len(),
{
    if entries.len() == 0 {
        0
    } else {
        count_stored_manifests_of(entries.drop_last(), id) + if exists|i: int, j: int|
            0 <= i < entries.last().1.users_data@.len() && 0 <= j < entries.last().1.users_data@[i].storers@.len()
                && (#[trigger] entries.last().1.users_data@[i].storers@[j])@ == id {
            1nat
        } else {
            0nat
        }
    }
}

/// A manifest query filtered by a valid storer address (and by no uploader) reports one
/// record for each stored manifest that this account stores, whoever uploaded it.
pub proof fn lemma_storer_filter_reports_stored(
    out: Seq<ManifestRecord>,
    storer: Account,
    entries: Seq<(Vec<u8>, runtime::Manifest)>,
)
    requires
        manifests_reported(out, Some(storer), None, entries),
        ss58_decode(storer@) is Some,
    ensures
        out.len() == count_stored_manifests_of(entries, ss58_decode(storer@)->0),
    decreases entries.len(),
{
    if entries.len() > 0 {
        if manifest_selected(Some(storer), None, entries.last().1.users_data@) {
            lemma_storer_filter_reports_stored(out.drop_last(), storer, entries.drop_last());
        } else {
            lemma_storer_filter_reports_stored(out, storer, entries.drop_last());
        }
    }
}

/// The number of stored storer records whose key names the account with bytes `id`.
pub open spec fn count_stored_by(entries: Seq<(Vec<u8>, runtime::ManifestStorageData)>, id: Seq<u8>) -> nat
    decreases entries.len(),
{
    if entries.len() == 0 {
        0
    } else {
        count_stored_by(entries.drop_last(), id) + if entries.last().0@.subrange(68, 100) == id {
            1nat
        } else {
            0nat
        }
    }
}

/// A storer-data query filtered by a valid storer address reports one record for each
/// stored record whose key names that storer (bytes 68 to 100 of the key), and each
/// reported record is that storer's.
pub proof fn lemma_storer_filter_reports_own_records(
    out: Seq<ManifestStorageData>,
    storer: Account,
    entries: Seq<(Vec<u8>, runtime::ManifestStorageData)>,
)
    requires
        storage_data_reported(out, Some(storer), entries),
        ss58_decode(storer@) is Some,
    ensures
        out.len() == count_stored_by(entries, ss58_decode(storer@)->0),
        forall|j: int| 0 <= j < out.len() ==> (#[trigger] out[j]).account@ == ss58_encode(ss58_decode(storer@)->0),
    decreases entries.len(),
{
    if entries.len() > 0 {
        let e = entries.last();
        if storage_data_selected(Some(storer), e.0@) {
            lemma_storer_filter_reports_own_records(out.drop_last(), storer, entries.drop_last());
            assert forall|j: int| 0 <= j < out.len() implies (#[trigger] out[j]).account@ == ss58_encode(
                ss58_decode(storer@)->0,
            ) by {
                if j < out.len() - 1 {
                    assert(out[j] == out.drop_last()[j]);
                }
            }
        } else {
            lemma_storer_filter_reports_own_records(out, storer, entries.drop_last());
        }
    }
}

} // verus!
