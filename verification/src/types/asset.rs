//! Requests and responses of the asset endpoints.

#[allow(unused_imports)]
use vstd::prelude::*;
use crate::primitives::{Account, AssetId, Balance, ClassId, Seed};

verus! {

#[derive(Debug)]
pub struct CreateClassOutput {
    pub class_id: ClassId,
    pub who: Account,
}

#[derive(Debug)]
pub struct ClassInfoInput {
    pub class_id: ClassId,
}

#[derive(Debug)]
pub struct CreateOutput {
    pub class_id: ClassId,
    pub asset_id: AssetId,
    pub who: Account,
}

#[derive(Debug)]
pub struct AssetInfoInput {
    pub class_id: ClassId,
    pub asset_id: AssetId,
}

#[derive(Debug)]
pub struct MintInput {
    pub seed: Seed,
    pub to: Account,
    pub class_id: ClassId,
    pub asset_id: AssetId,
    pub amount: Balance,
}

#[derive(Debug)]
pub struct MintOutput {
    pub to: Account,
    pub class_id: ClassId,
    pub asset_id: AssetId,
    pub amount: Balance,
    pub who: Account,
}

#[derive(Debug)]
pub struct BurnInput {
    pub seed: Seed,
    pub from: Account,
    pub class_id: ClassId,
    pub asset_id: AssetId,
    pub amount: Balance,
}

#[derive(Debug)]
pub struct BurnOutput {
    pub from: Account,
    pub class_id: ClassId,
    pub asset_id: AssetId,
    pub amount: Balance,
    pub who: Account,
}

#[derive(Debug)]
pub struct AssetBalanceInput {
    pub account: Account,
    pub class_id: ClassId,
    pub asset_id: AssetId,
}

#[derive(Debug)]
pub struct AssetBalanceOutput {
    pub amount: Balance,
}

#[derive(Debug)]
pub struct AssetBalancesInput {
    pub account: Account,
    pub class_id: Option<ClassId>,
}

#[derive(Debug)]
pub struct AssetBalancesOutput {
    pub balances: Vec<AssetBalanceItemOutput>,
}

#[derive(Debug)]
pub struct AssetBalanceItemOutput {
    pub class_id: ClassId,
    pub asset_id: AssetId,
    pub amount: Balance,
}

#[derive(Debug)]
pub struct TransferFromInput {
    pub seed: Seed,
    pub from: Account,
    pub to: Account,
    pub class_id: ClassId,
    pub asset_id: AssetId,
    pub amount: Balance,
}

#[derive(Debug)]
pub struct TransferFromOutput {
    pub from: Account,
    pub to: Account,
    pub class_id: ClassId,
    pub asset_id: AssetId,
    pub amount: Balance,
    pub who: Account,
}

} // verus!
