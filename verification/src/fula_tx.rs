//! The manifest extrinsics: what each endpoint hands to the chain, and how the event the
//! chain emits is reported. The submission itself follows `tx::tx_step`.

use vstd::prelude::*;
use vstd::utf8::encode_utf8;

use crate::address::{accounts_encode, accounts_from_ids, ss58_encode, AccountId32};
use crate::fula::{get_vec_cids_from_node, get_vec_pool_id_from_input, get_vec_pool_id_from_node, get_vec_replication_factor_from_input};
use crate::pool::option_account_reports;
use crate::primitives::{transform_option_account_value, Account, Cid, PoolId, ReplicationFactor, Seed};
use crate::response::RequestError;
use crate::text::{text_bytes, utf8_or_empty, utf8_or_empty_spec};

verus! {

/// A manifest to upload; the metadata is its JSON text as bytes.
#[derive(Clone, Debug)]
pub struct UploadManifestInput {
    pub seed: Seed,
    pub manifest_metadata: Vec<u8>,
    pub cid: Cid,
    pub pool_id: PoolId,
    pub replication_factor: ReplicationFactor,
}

/// The arguments of the `upload_manifest` extrinsic.
#[derive(Clone, Debug)]
pub struct UploadManifestCall {
    pub manifest: Vec<u8>,
    pub cid: Vec<u8>,
    pub pool_id: u32,
    pub replication_factor: u16,
}

/// The arguments of an upload: the metadata bytes, the UTF-8 bytes of the identifier,
/// the raw pool number and replication factor.
pub fn upload_manifest_call(req: &UploadManifestInput) -> (r: UploadManifestCall)
    ensures
        r.manifest@ == req.manifest_metadata@,
        r.cid@ == encode_utf8(req.cid@),
        r.pool_id == req.pool_id.0,
        r.replication_factor == req.replication_factor.0,
{
    let manifest = req.manifest_metadata.clone();
    assert(manifest@ =~= req.manifest_metadata@);
    UploadManifestCall {
        manifest,
        cid: text_bytes(req.cid.as_str()),
        pool_id: req.pool_id.0,
        replication_factor: req.replication_factor.0,
    }
}

/// Several manifests to upload, position by position.
#[derive(Clone, Debug)]
pub struct BatchUploadManifestInput {
    pub seed: Seed,
    pub manifest_metadata: Vec<Vec<u8>>,
    pub cid: Vec<Cid>,
    pub pool_id: Vec<PoolId>,
    pub replication_factor: Vec<ReplicationFactor>,
}

/// The arguments of the `batch_upload_manifest` extrinsic.
#[derive(Clone, Debug)]
pub struct BatchUploadManifestCall {
    pub manifests: Vec<Vec<u8>>,
    pub cids: Vec<Vec<u8>>,
    pub pool_ids: Vec<u32>,
    pub replication_factors: Vec<u16>,
}

/// The arguments of a batch upload: each list converted position by position.
pub fn batch_upload_manifest_call(req: &BatchUploadManifestInput) -> (r: BatchUploadManifestCall)
    ensures
        r.manifests.deep_view() == req.manifest_metadata.deep_view(),
        r.cids@.len() == req.cid@.len(),
        forall|i: int| 0 <= i < r.cids@.len() ==> (#[trigger] r.cids@[i])@ == encode_utf8(req.cid@[i]@),
        r.pool_ids@.len() == req.pool_id@.len(),
        forall|i: int| 0 <= i < r.pool_ids@.len() ==> #[trigger] r.pool_ids@[i] == req.pool_id@[i].0,
        r.replication_factors@.len() == req.replication_factor@.len(),
        forall|i: int| 0 <= i < r.replication_factors@.len() ==> #[trigger] r.replication_factors@[i] == req.replication_factor@[i].0,
{
    let mut manifests: Vec<Vec<u8>> = Vec::new();
    let mut i: usize = 0;
    while i < req.manifest_metadata.len()
        invariant
            i <= req.manifest_metadata@.len(),
            manifests@.len() == i,
            forall|k: int| 0 <= k < i ==> (#[trigger] manifests@[k])@ == req.manifest_metadata@[k]@,
        decreases req.manifest_metadata@.len() - i,
    {
        let m = req.manifest_metadata[i].clone();
        assert(m@ =~= req.manifest_metadata@[i as int]@);
        manifests.push(m);
        i = i + 1;
    }
    assert(manifests.deep_view() =~= req.manifest_metadata.deep_view());
    let mut cids: Vec<Vec<u8>> = Vec::new();
    let mut j: usize = 0;
    while j < req.cid.len()
        invariant
            j <= req.cid@.len(),
            cids@.len() == j,
            forall|k: int| 0 <= k < j ==> (#[trigger] cids@[k])@ == encode_utf8(req.cid@[k]@),
        decreases req.cid@.len() - j,
    {
        cids.push(text_bytes(req.cid[j].as_str()));
        j = j + 1;
    }
    BatchUploadManifestCall {
        manifests,
        cids,
        pool_ids: get_vec_pool_id_from_input(req.pool_id.clone()),
        replication_factors: get_vec_replication_factor_from_input(req.replication_factor.clone()),
    }
}

/// A storer's update of the cycles it has kept a manifest.
#[derive(Clone, Debug)]
pub struct UpdateManifestInput {
    pub seed: Seed,
    pub cid: Cid,
    pub pool_id: PoolId,
    pub active_cycles: u16,
    pub missed_cycles: u16,
    pub active_days: i32,
}

/// The arguments of the `update_manifest` extrinsic.
#[derive(Clone, Debug)]
pub struct UpdateManifestCall {
    pub cid: Vec<u8>,
    pub pool_id: u32,
    pub active_cycles: u16,
    pub missed_cycles: u16,
    pub active_days: i32,
}

/// The arguments of an update: the UTF-8 bytes of the identifier, the raw pool number and
/// the counters as given.
pub fn update_manifest_call(req: &UpdateManifestInput) -> (r: UpdateManifestCall)
    ensures
        r.cid@ == encode_utf8(req.cid@),
        r.pool_id == req.pool_id.0,
        r.active_cycles == req.active_cycles,
        r.missed_cycles == req.missed_cycles,
        r.active_days == req.active_days,
{
    UpdateManifestCall {
        cid: text_bytes(req.cid.as_str()),
        pool_id: req.pool_id.0,
        active_cycles: req.active_cycles,
        missed_cycles: req.missed_cycles,
        active_days: req.active_days,
    }
}

/// The event of an upload.
#[derive(Clone, Debug)]
pub struct ManifestOutputEvent {
    pub uploader: AccountId32,
    pub storer: Vec<AccountId32>,
    pub manifest: Vec<u8>,
    pub pool_id: u32,
}

#[derive(Clone, Debug)]
pub struct UploadManifestOutput {
    pub uploader: Account,
    pub storers: Vec<Account>,
    pub manifest_metadata: Vec<u8>,
    pub pool_id: PoolId,
}

/// The answer of an upload.
pub fn upload_manifest_output(event: &ManifestOutputEvent) -> (r: UploadManifestOutput)
    ensures
        r.uploader@ == ss58_encode(event.uploader@),
        accounts_encode(r.storers@, event.storer@),
        r.manifest_metadata@ == event.manifest@,
        r.pool_id.0 == event.pool_id,
{
    let manifest = event.manifest.clone();
    assert(manifest@ =~= event.manifest@);
    UploadManifestOutput {
        uploader: Account::from_account_id(event.uploader),
        storers: accounts_from_ids(&event.storer),
        manifest_metadata: manifest,
        pool_id: PoolId(event.pool_id),
    }
}

/// The event of a batch upload.
#[derive(Clone, Debug)]
pub struct BatchManifestOutputEvent {
    pub uploader: AccountId32,
    pub manifests: Vec<Vec<u8>>,
    pub pool_ids: Vec<u32>,
}

#[derive(Clone, Debug)]
pub struct BatchUploadManifestOutput {
    pub uploader: Account,
    pub manifest_metadata: Vec<Vec<u8>>,
    pub pool_id: Vec<PoolId>,
}

/// The answer of a batch upload.
pub fn batch_upload_manifest_output(event: &BatchManifestOutputEvent) -> (r: BatchUploadManifestOutput)
    ensures
        r.uploader@ == ss58_encode(event.uploader@),
        r.manifest_metadata.deep_view() == event.manifests.deep_view(),
        r.pool_id@.len() == event.pool_ids@.len(),
        forall|i: int| 0 <= i < r.pool_id@.len() ==> (#[trigger] r.pool_id@[i]).0 == event.pool_ids@[i],
{
    let mut manifests: Vec<Vec<u8>> = Vec::new();
    let mut i: usize = 0;
    while i < event.manifests.len()
        invariant
            i <= event.manifests@.len(),
            manifests@.len() == i,
            forall|k: int| 0 <= k < i ==> (#[trigger] manifests@[k])@ == event.manifests@[k]@,
        decreases event.manifests@.len() - i,
    {
        let m = event.manifests[i].clone();
        assert(m@ =~= event.manifests@[i as int]@);
        manifests.push(m);
        i = i + 1;
    }
    assert(manifests.deep_view() =~= event.manifests.deep_view());
    BatchUploadManifestOutput {
        uploader: Account::from_account_id(event.uploader),
        manifest_metadata: manifests,
        pool_id: get_vec_pool_id_from_node(event.pool_ids.clone()),
    }
}

/// An event about one manifest of one account: an upload's removal (the account is the
/// uploader) or a storer taking it on (the account is the storer).
#[derive(Clone, Debug)]
pub struct ManifestAccountEvent {
    pub account: AccountId32,
    pub cid: Vec<u8>,
    pub pool_id: u32,
}

/// The answer about one manifest of one account.
#[derive(Clone, Debug)]
pub struct ManifestAccountOutput {
    pub account: Account,
    pub cid: Cid,
    pub pool_id: PoolId,
}

/// The answer of a single-manifest event: the account's address, the identifier as text
/// (empty when not UTF-8), the pool.
pub fn manifest_account_output(event: &ManifestAccountEvent) -> (r: ManifestAccountOutput)
    ensures
        r.account@ == ss58_encode(event.account@),
        r.cid@ == utf8_or_empty_spec(event.cid@),
        r.pool_id.0 == event.pool_id,
{
    let cid = event.cid.clone();
    assert(cid@ =~= event.cid@);
    ManifestAccountOutput {
        account: Account::from_account_id(event.account),
        cid: Cid(utf8_or_empty(cid)),
        pool_id: PoolId(event.pool_id),
    }
}

/// The event of a storer giving up a manifest; the storer may be unknown.
#[derive(Clone, Debug)]
pub struct RemoveStorerEvent {
    pub storer: Option<AccountId32>,
    pub cid: Vec<u8>,
    pub pool_id: u32,
}

#[derive(Clone, Debug)]
pub struct RemoveStoringManifestOutput {
    pub storer: Option<Account>,
    pub cid: Cid,
    pub pool_id: PoolId,
}

/// The answer of a storer giving up a manifest.
pub fn remove_stored_manifest_output(event: &RemoveStorerEvent) -> (r: RemoveStoringManifestOutput)
    ensures
        option_account_reports(r.storer, event.storer),
        r.cid@ == utf8_or_empty_spec(event.cid@),
        r.pool_id.0 == event.pool_id,
{
    let cid = event.cid.clone();
    assert(cid@ =~= event.cid@);
    RemoveStoringManifestOutput {
        storer: transform_option_account_value(event.storer),
        cid: Cid(utf8_or_empty(cid)),
        pool_id: PoolId(event.pool_id),
    }
}

/// An event about several manifests of one account in one pool.
#[derive(Clone, Debug)]
pub struct BatchPoolEvent {
    pub account: AccountId32,
    pub pool_id: u32,
    pub cids: Vec<Vec<u8>>,
}

#[derive(Clone, Debug)]
pub struct BatchPoolOutput {
    pub account: Account,
    pub pool_id: PoolId,
    pub cid: Vec<Cid>,
}

/// The answer of a batch event in one pool (batch storage, batch removal of stored
/// manifests).
pub fn batch_pool_output(event: &BatchPoolEvent) -> (r: BatchPoolOutput)
    ensures
        r.account@ == ss58_encode(event.account@),
        r.pool_id.0 == event.pool_id,
        r.cid@.len() == event.cids@.len(),
        forall|i: int| 0 <= i < r.cid@.len() ==> (#[trigger] r.cid@[i])@ == utf8_or_empty_spec(event.cids@[i]@),
{
    BatchPoolOutput {
        account: Account::from_account_id(event.account),
        pool_id: PoolId(event.pool_id),
        cid: get_vec_cids_from_node(event.cids.clone()),
    }
}

/// The event of removing several uploads, each with its pool.
#[derive(Clone, Debug)]
pub struct BatchManifestRemovedEvent {
    pub uploader: AccountId32,
    pub cids: Vec<Vec<u8>>,
    pub pool_ids: Vec<u32>,
}

#[derive(Clone, Debug)]
pub struct BatchRemoveManifestOutput {
    pub uploader: Account,
    pub cid: Vec<Cid>,
    pub pool_id: Vec<PoolId>,
}

/// The answer of removing several uploads.
pub fn batch_remove_manifest_output(event: &BatchManifestRemovedEvent) -> (r: BatchRemoveManifestOutput)
    ensures
        r.uploader@ == ss58_encode(event.uploader@),
        r.cid@.len() == event.cids@.len(),
        forall|i: int| 0 <= i < r.cid@.len() ==> (#[trigger] r.cid@[i])@ == utf8_or_empty_spec(event.cids@[i]@),
        r.pool_id@.len() == event.pool_ids@.len(),
        forall|i: int| 0 <= i < r.pool_id@.len() ==> (#[trigger] r.pool_id@[i]).0 == event.pool_ids@[i],
{
    BatchRemoveManifestOutput {
        uploader: Account::from_account_id(event.uploader),
        cid: get_vec_cids_from_node(event.cids.clone()),
        pool_id: get_vec_pool_id_from_node(event.pool_ids.clone()),
    }
}

/// The event of a storer's manifest verification.
#[derive(Clone, Debug)]
pub struct VerifiedStorerManifestsEvent {
    pub storer: AccountId32,
    pub valid_cids: Vec<Vec<u8>>,
    pub invalid_cids: Vec<Vec<u8>>,
}

#[derive(Clone, Debug)]
pub struct VerifyManifestsOutput {
    pub storer: Account,
    pub valid_manifests: Vec<Cid>,
    pub invalid_manifests: Vec<Cid>,
}

/// The answer of a manifest verification.
pub fn verify_manifests_output(event: &VerifiedStorerManifestsEvent) -> (r: VerifyManifestsOutput)
    ensures
        r.storer@ == ss58_encode(event.storer@),
        r.valid_manifests@.len() == event.valid_cids@.len(),
        forall|i: int| 0 <= i < r.valid_manifests@.len() ==> (#[trigger] r.valid_manifests@[i])@ == utf8_or_empty_spec(event.valid_cids@[i]@),
        r.invalid_manifests@.len() == event.invalid_cids@.len(),
        forall|i: int| 0 <= i < r.invalid_manifests@.len() ==> (#[trigger] r.invalid_manifests@[i])@ == utf8_or_empty_spec(event.invalid_cids@[i]@),
{
    VerifyManifestsOutput {
        storer: Account::from_account_id(event.storer),
        valid_manifests: get_vec_cids_from_node(event.valid_cids.clone()),
        invalid_manifests: get_vec_cids_from_node(event.invalid_cids.clone()),
    }
}

/// The event of a storer's update of its cycles.
#[derive(Clone, Debug)]
pub struct ManifestStorageUpdatedEvent {
    pub storer: AccountId32,
    pub pool_id: u32,
    pub cid: Vec<u8>,
    pub active_days: i32,
    pub active_cycles: u16,
    pub missed_cycles: u16,
}

#[derive(Clone, Debug)]
pub struct UpdatedManifestOutput {
    pub storer: Account,
    pub pool_id: PoolId,
    pub cid: Cid,
    pub active_days: i32,
    pub active_cycles: u16,
    pub missed_cycles: u16,
}

/// The answer of an update of a storer's cycles.
pub fn updated_manifest_output(event: &ManifestStorageUpdatedEvent) -> (r: UpdatedManifestOutput)
    ensures
        r.storer@ == ss58_encode(event.storer@),
        r.pool_id.0 == event.pool_id,
        r.cid@ == utf8_or_empty_spec(event.cid@),
        r.active_days == event.active_days,
        r.active_cycles == event.active_cycles,
        r.missed_cycles == event.missed_cycles,
{
    let cid = event.cid.clone();
    assert(cid@ =~= event.cid@);
    UpdatedManifestOutput {
        storer: Account::from_account_id(event.storer),
        pool_id: PoolId(event.pool_id),
        cid: Cid(utf8_or_empty(cid)),
        active_days: event.active_days,
        active_cycles: event.active_cycles,
        missed_cycles: event.missed_cycles,
    }
}

/// The manifest extrinsics.
#[derive(Clone, Copy, Debug, PartialEq, Eq, Structural)]
pub enum ManifestCall {
    UploadManifest,
    BatchUploadManifest,
    StorageManifest,
    BatchStorageManifest,
    RemoveManifest,
    BatchRemoveManifest,
    RemoveStoredManifest,
    BatchRemoveStoredManifest,
    VerifyManifests,
    UpdateManifest,
}

/// The event each manifest extrinsic is expected to emit, as its refusal names it.
pub open spec fn missing_event_text(call: ManifestCall) -> Seq<char> {
    match call {
        ManifestCall::UploadManifest => "Failed to find sugarfunge::fula::events::UploadManifests"@,
        ManifestCall::BatchUploadManifest => "Failed to find sugarfunge::fula::events::BatchUploadManifests"@,
        ManifestCall::StorageManifest => "Failed to find sugarfunge::fula::events::StorageManifest"@,
        ManifestCall::BatchStorageManifest => "Failed to find sugarfunge::fula::events::BatchStorageManifestOutput"@,
        ManifestCall::RemoveManifest => "Failed to find sugarfunge::fula::events::RemoveManifest"@,
        ManifestCall::BatchRemoveManifest => "Failed to find sugarfunge::fula::events::RemoveManifest"@,
        ManifestCall::RemoveStoredManifest => "Failed to find sugarfunge::fula::events::RemoveStorer"@,
        ManifestCall::BatchRemoveStoredManifest => "Failed to find sugarfunge::fula::events::RemoveStorer"@,
        ManifestCall::VerifyManifests => "Failed to find sugarfunge::fula::events::UploadManifests"@,
        ManifestCall::UpdateManifest => "Failed to find sugarfunge::fula::events::UpdateManifests"@,
    }
}

/// The refusal of a manifest extrinsic whose event was not found.
pub fn missing_event_error(call: ManifestCall) -> (r: RequestError)
    ensures
        r.message@ == missing_event_text(call),
        r.description@ == ""@,
{
    let message = match call {
        ManifestCall::UploadManifest => "Failed to find sugarfunge::fula::events::UploadManifests",
        ManifestCall::BatchUploadManifest => "Failed to find sugarfunge::fula::events::BatchUploadManifests",
        ManifestCall::StorageManifest => "Failed to find sugarfunge::fula::events::StorageManifest",
        ManifestCall::BatchStorageManifest => "Failed to find sugarfunge::fula::events::BatchStorageManifestOutput",
        ManifestCall::RemoveManifest => "Failed to find sugarfunge::fula::events::RemoveManifest",
        ManifestCall::BatchRemoveManifest => "Failed to find sugarfunge::fula::events::RemoveManifest",
        ManifestCall::RemoveStoredManifest => "Failed to find sugarfunge::fula::events::RemoveStorer",
        ManifestCall::BatchRemoveStoredManifest => "Failed to find sugarfunge::fula::events::RemoveStorer",
        ManifestCall::VerifyManifests => "Failed to find sugarfunge::fula::events::UploadManifests",
        ManifestCall::UpdateManifest => "Failed to find sugarfunge::fula::events::UpdateManifests",
    };
    RequestError::new(message, "")
}

} // verus!
