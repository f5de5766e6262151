//! Requests and responses of the escrow endpoints.

#[allow(unused_imports)]
use vstd::prelude::*;
use crate::primitives::{Account, AssetId, ClassId, Seed};

verus! {

#[derive(Debug)]
pub struct RegisterEscrowOutput {
    pub who: Account,
    pub class_id: ClassId,
}

#[derive(Debug)]
pub struct CreateEscrowInput {
    pub seed: Seed,
    pub class_id: ClassId,
    pub owners: Vec<String>,
    pub shares: Vec<u128>,
}

#[derive(Debug)]
pub struct CreateEscrowOutput {
    pub escrow: String,
    pub class_id: ClassId,
    pub asset_id: AssetId,
    pub owners: Vec<String>,
}

#[derive(Debug)]
pub struct SweepAssetsInput {
    pub seed: Seed,
    pub to: Account,
    pub escrow: String,
}

#[derive(Debug)]
pub struct SweepAssetsOutput {
    pub escrow: String,
    pub who: Account,
    pub to: Account,
}

#[derive(Debug)]
pub struct DepositAssetsInput {
    pub seed: Seed,
    pub escrow: String,
    pub class_ids: Vec<u64>,
    pub asset_ids: Vec<Vec<u64>>,
    pub amounts: Vec<Vec<u128>>,
}

#[derive(Debug)]
pub struct DepositAssetsOutput {
    pub escrow: String,
    pub who: Account,
}

} // verus!
