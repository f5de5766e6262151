//! Requests and responses of the bag endpoints.

#[allow(unused_imports)]
use vstd::prelude::*;
use crate::primitives::{Account, AssetId, Balance, ClassId};

verus! {

#[derive(Debug)]
pub struct RegisterOutput {
    pub who: Account,
    pub class_id: ClassId,
}

#[derive(Debug)]
pub struct CreateOutput {
    pub bag: Account,
    pub class_id: ClassId,
    pub asset_id: AssetId,
    pub owners: Vec<Account>,
}

#[derive(Debug)]
pub struct SweepInput {
    pub bag: Account,
}

#[derive(Debug)]
pub struct SweepOutput {
    pub bag: Account,
    pub who: Account,
    pub to: Account,
}

#[derive(Debug)]
pub struct DepositInput {
    pub bag: Account,
    pub class_ids: Vec<ClassId>,
    pub asset_ids: Vec<Vec<AssetId>>,
    pub amounts: Vec<Vec<Balance>>,
}

#[derive(Debug)]
pub struct DepositOutput {
    pub bag: Account,
    pub who: Account,
}

} // verus!
