//! Requests and responses of the manifest endpoints.

#[allow(unused_imports)]
use vstd::prelude::*;
use crate::primitives::{Account, Cid, Seed};

verus! {

#[derive(Debug)]
pub struct RemoveManifestInput {
    pub seed: Seed,
    pub cid: Cid,
    pub pool_id: u16,
}

#[derive(Debug)]
pub struct RemoveManifestOutput {
    pub uploader: Account,
    pub cid: Cid,
    pub pool_id: u16,
}

#[derive(Debug)]
pub struct RemoveStorerInput {
    pub seed: Seed,
    pub storage: Account,
    pub cid: Cid,
    pub pool_id: u16,
}

#[derive(Debug)]
pub struct RemoveStorerOutput {
    pub uploader: Account,
    pub storage: Option<Account>,
    pub cid: Cid,
    pub pool_id: u16,
}

#[derive(Debug)]
pub struct RemoveStoringManifestInput {
    pub seed: Seed,
    pub uploader: Account,
    pub cid: Cid,
    pub pool_id: u16,
}

#[derive(Debug)]
pub struct RemoveStoringManifestOutput {
    pub uploader: Account,
    pub storage: Option<Account>,
    pub cid: Cid,
    pub pool_id: u16,
}

#[derive(Debug)]
pub struct GetAllManifestsInput {
    pub pool_id: Option<u16>,
    pub uploader: Option<Account>,
    pub storage: Option<Account>,
}

#[derive(Debug)]
pub struct GetAvailableManifestsInput {
    pub pool_id: Option<u16>,
}

#[derive(Debug)]
pub struct StorageManifestInput {
    pub seed: Seed,
    pub uploader: Account,
    pub cid: Cid,
    pub pool_id: u16,
}

#[derive(Debug)]
pub struct StorageManifestOutput {
    pub storage: Account,
    pub uploader: Account,
    pub cid: Cid,
    pub pool_id: u16,
}

} // verus!
