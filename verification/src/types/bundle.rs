//! Requests and responses of the bundle endpoints.

#[allow(unused_imports)]
use vstd::prelude::*;
use crate::primitives::{Account, AssetId, Balance, BundleId, ClassId, Seed};

verus! {

/// The composition of a bundle: its classes, and per class the assets and amounts.
#[derive(Clone, Debug)]
pub struct BundleSchema {
    pub class_ids: Vec<ClassId>,
    pub asset_ids: Vec<Vec<AssetId>>,
    pub amounts: Vec<Vec<Balance>>,
}

#[derive(Debug)]
pub struct RegisterBundleOutput {
    pub bundle_id: BundleId,
    pub who: Account,
    pub class_id: ClassId,
    pub asset_id: AssetId,
}

#[derive(Debug)]
pub struct MintBundleInput {
    pub seed: Seed,
    pub from: Account,
    pub to: Account,
    pub bundle_id: BundleId,
    pub amount: Balance,
}

#[derive(Debug)]
pub struct MintBundleOutput {
    pub who: Account,
    pub from: Account,
    pub to: Account,
    pub bundle_id: BundleId,
    pub amount: Balance,
}

#[derive(Debug)]
pub struct BurnBundleInput {
    pub seed: Seed,
    pub from: Account,
    pub to: Account,
    pub bundle_id: BundleId,
    pub amount: Balance,
}

#[derive(Debug)]
pub struct BurnBundleOutput {
    pub who: Account,
    pub from: Account,
    pub to: Account,
    pub bundle_id: BundleId,
    pub amount: Balance,
}

#[derive(Debug)]
pub struct GetBundles {
    pub bundles: Vec<BundleItem>,
}

#[derive(Debug)]
pub struct BundleItem {
    pub class_id: ClassId,
    pub asset_id: AssetId,
    pub bundle_id: BundleId,
}

} // verus!
