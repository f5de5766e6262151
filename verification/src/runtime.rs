//! The values that the chain's pallets store and emit, held as plain values: what the
//! API reads from storage and events, and what it hands to extrinsics.

use vstd::prelude::*;

use crate::address::AccountId32;

verus! {

/// The comparison of a market `Has` rule.
#[derive(Clone, Copy, Debug, PartialEq, Eq, Structural)]
pub enum AmountOp {
    Equal,
    LessThan,
    LessEqualThan,
    GreaterThan,
    GreaterEqualThan,
}

/// The automated market maker of a market transfer.
#[derive(Clone, Copy, Debug, PartialEq, Eq, Structural)]
pub enum AMM {
    Constant,
}

/// What a market rate does with an asset.
#[derive(Clone, Copy, Debug, PartialEq, Eq, Structural)]
pub enum RateAction {
    Transfer(i128),
    MarketTransfer(AMM, u64, u64),
    Mint(i128),
    Burn(i128),
    Has(AmountOp, i128),
}

/// The party a market rate moves assets from or to.
#[derive(Clone, Copy, Debug)]
pub enum RateAccount {
    Market,
    Account(AccountId32),
    Buyer,
}

/// One rule of a market rate.
#[derive(Clone, Copy, Debug)]
pub struct AssetRate {
    pub class_id: u64,
    pub asset_id: u64,
    pub action: RateAction,
    pub from: RateAccount,
    pub to: RateAccount,
}

/// The balance that a rule of a market rate produced.
#[derive(Clone, Copy, Debug)]
pub struct RateBalance {
    pub rate: AssetRate,
    pub balance: i128,
}

/// The state of a storage challenge.
#[derive(Clone, Copy, Debug, PartialEq, Eq, Structural)]
pub enum ChallengeState {
    Open,
    Successful,
    Failed,
}

/// An uploader of a manifest, the accounts storing it and how many storers it asked for.
#[derive(Clone, Debug)]
pub struct UploaderData {
    pub uploader: AccountId32,
    pub storers: Vec<AccountId32>,
    pub replication_factor: u16,
}

/// What a storer has recorded for a manifest it stores.
#[derive(Clone, Copy, Debug)]
pub struct ManifestStorageData {
    pub active_cycles: u16,
    pub missed_cycles: u16,
    pub active_days: i32,
    pub challenge_state: ChallengeState,
}

/// The storage record of a manifest: its uploaders, its metadata (JSON bytes) and the
/// size of the file once a storer has reported it.
#[derive(Clone, Debug)]
pub struct Manifest {
    pub users_data: Vec<UploaderData>,
    pub manifest_metadata: Vec<u8>,
    pub size: Option<u64>,
}

/// A manifest together with its pool, as the manifest query event lists it.
#[derive(Clone, Debug)]
pub struct ManifestWithPoolId {
    pub pool_id: u32,
    pub users_data: Vec<UploaderData>,
    pub manifest_metadata: Vec<u8>,
    pub size: Option<u64>,
}

/// A manifest that still lacks storers, as the available-manifest event lists it.
#[derive(Clone, Debug)]
pub struct ManifestAvailable {
    pub pool_id: u32,
    pub manifest_metadata: Vec<u8>,
    pub replication_factor: u16,
}

/// What a storer has recorded for a manifest, with the pool, file and storer it is about.
#[derive(Clone, Debug)]
pub struct StorerData {
    pub pool_id: u32,
    pub cid: Vec<u8>,
    pub account: AccountId32,
    pub manifest_data: ManifestStorageData,
}

/// The storage record of a pool.
#[derive(Clone, Debug)]
pub struct Pool {
    pub name: Vec<u8>,
    pub owner: Option<AccountId32>,
    pub parent: Option<u32>,
    pub participants: Vec<AccountId32>,
    pub request_number: u8,
    pub region: Vec<u8>,
}

/// The storage record of a request to join a pool.
#[derive(Clone, Debug)]
pub struct PoolRequest {
    pub voted: Vec<AccountId32>,
    pub positive_votes: u16,
    pub peer_id: Vec<u8>,
}

/// The storage record of a pool user.
#[derive(Clone, Debug)]
pub struct User {
    pub pool_id: Option<u32>,
    pub request_pool_id: Option<u32>,
    pub peer_id: Vec<u8>,
}

/// The storage record of a challenge, keyed by the challenged account.
#[derive(Clone, Copy, Debug)]
pub struct Challenge {
    pub challenger: AccountId32,
    pub challenge_state: ChallengeState,
}

/// The storage record of the labor-token claims of an account.
#[derive(Clone, Copy, Debug)]
pub struct ClaimData {
    pub minted_labor_tokens: u128,
    pub expected_labor_tokens: u128,
    pub challenge_tokens: u128,
}

/// The composition of a bundle: its classes, and per class the assets and amounts.
#[derive(Clone, Debug)]
pub struct BundleSchema {
    pub class_ids: Vec<u64>,
    pub asset_ids: Vec<Vec<u64>>,
    pub amounts: Vec<Vec<u128>>,
}

/// The storage record of a bundle.
#[derive(Clone, Debug)]
pub struct Bundle {
    pub creator: AccountId32,
    pub class_id: u64,
    pub asset_id: u64,
    pub metadata: Vec<u8>,
    pub schema: BundleSchema,
}

} // verus!
