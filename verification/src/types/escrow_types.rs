//! Escrow requests and responses in their earlier shape.

#[allow(unused_imports)]
use vstd::prelude::*;

verus! {

#[derive(Debug)]
pub struct CreateEscrowInput {
    pub seed: String,
    pub owner: String,
}

#[derive(Debug)]
pub struct CreateEscrowOutput {
    pub escrow: String,
    pub operator: String,
    pub owner: String,
}

#[derive(Debug)]
pub struct RefundAssetsInput {
    pub seed: String,
    pub escrow: String,
}

#[derive(Debug)]
pub struct RefundAssetsOutput {
    pub escrow: String,
    pub operator: String,
    pub owner: String,
}

#[derive(Debug)]
pub struct DepositAssetsInput {
    pub seed: String,
    pub escrow: String,
    pub class_id: u64,
    pub asset_ids: Vec<u64>,
    pub amounts: Vec<u128>,
}

#[derive(Debug)]
pub struct DepositAssetsOutput {
    pub escrow: String,
    pub operator: String,
    pub owner: String,
}

} // verus!
