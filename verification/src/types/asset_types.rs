//! Asset requests and responses in their earlier shape.

#[allow(unused_imports)]
use vstd::prelude::*;

verus! {

#[derive(Debug)]
pub struct CreateClassOutput {
    class_id: u64,
    who: String,
}

#[derive(Debug)]
pub struct CreateOutput {
    class_id: u64,
    asset_id: u64,
    who: String,
}

#[derive(Debug)]
pub struct MintInput {
    seed: String,
    to: String,
    class_id: u64,
    asset_id: u64,
    amount: u128,
}

#[derive(Debug)]
pub struct MintOutput {
    to: String,
    class_id: u64,
    asset_id: u64,
    amount: u128,
    who: String,
}

#[derive(Debug)]
pub struct BurnInput {
    seed: String,
    from: String,
    class_id: u64,
    asset_id: u64,
    amount: u128,
}

#[derive(Debug)]
pub struct BurnOutput {
    from: String,
    class_id: u64,
    asset_id: u64,
    amount: u128,
    who: String,
}

#[derive(Debug)]
pub struct AssetBalanceInput {
    account: String,
    class_id: u64,
    asset_id: u64,
}

#[derive(Debug)]
pub struct AssetBalanceOutput {
    amount: u128,
}

#[derive(Debug)]
pub struct AssetBalancesInput {
    account: String,
    class_id: Option<u64>,
}

#[derive(Debug)]
pub struct AssetBalancesOutput {
    balances: Vec<AssetBalanceItemOutput>,
}

#[derive(Debug)]
pub struct AssetBalanceItemOutput {
    class_id: u64,
    asset_id: u64,
    amount: u128,
}

#[derive(Debug)]
pub struct TransferFromInput {
    seed: String,
    from: String,
    to: String,
    class_id: u64,
    asset_id: u64,
    amount: u128,
}

#[derive(Debug)]
pub struct TransferFromOutput {
    from: String,
    to: String,
    class_id: u64,
    asset_id: u64,
    amount: u128,
    who: String,
}

} // verus!
