//! Requests and responses of the exchange (dex) endpoints.

#[allow(unused_imports)]
use vstd::prelude::*;

verus! {

#[derive(Debug)]
pub struct Currency {
    pub class_id: u64,
    pub asset_id: u64,
}

#[derive(Debug)]
pub struct CreateDexInput {
    pub seed: String,
    pub exchange_id: u32,
    pub currency: Currency,
    pub asset_class_id: u64,
    pub lp_class_id: u64,
}

#[derive(Debug)]
pub struct CreateDexOutput {
    pub exchange_id: u32,
    pub who: String,
}

#[derive(Debug)]
pub struct BuyAssetsInput {
    pub seed: String,
    pub exchange_id: u32,
    pub asset_ids: Vec<u64>,
    pub asset_amounts_out: Vec<u128>,
    pub max_currency: u128,
    pub to: String,
}

#[derive(Debug)]
pub struct BuyAssetsOutput {
    pub exchange_id: u32,
    pub who: String,
    pub to: String,
    pub asset_ids: Vec<u64>,
    pub asset_amounts_out: Vec<u128>,
    pub currency_amounts_in: Vec<u128>,
}

#[derive(Debug)]
pub struct SellAssetsInput {
    pub seed: String,
    pub exchange_id: u32,
    pub asset_ids: Vec<u64>,
    pub asset_amounts_in: Vec<u128>,
    pub min_currency: u128,
    pub to: String,
}

#[derive(Debug)]
pub struct SellAssetsOutput {
    pub exchange_id: u32,
    pub who: String,
    pub to: String,
    pub asset_ids: Vec<u64>,
    pub asset_amounts_in: Vec<u128>,
    pub currency_amounts_out: Vec<u128>,
}

#[derive(Debug)]
pub struct AddLiquidityInput {
    pub seed: String,
    pub to: String,
    pub exchange_id: u32,
    pub asset_ids: Vec<u64>,
    pub asset_amounts: Vec<u128>,
    pub max_currencies: Vec<u128>,
}

#[derive(Debug)]
pub struct AddLiquidityOutput {
    pub exchange_id: u32,
    pub who: String,
    pub to: String,
    pub asset_ids: Vec<u64>,
    pub asset_amounts: Vec<u128>,
    pub currency_amounts: Vec<u128>,
}

#[derive(Debug)]
pub struct RemoveLiquidityInput {
    pub seed: String,
    pub to: String,
    pub exchange_id: u32,
    pub asset_ids: Vec<u64>,
    pub liquidities: Vec<u128>,
    pub min_currencies: Vec<u128>,
    pub min_assets: Vec<u128>,
}

#[derive(Debug)]
pub struct RemoveLiquidityOutput {
    pub exchange_id: u32,
    pub who: String,
    pub to: String,
    pub asset_ids: Vec<u64>,
    pub asset_amounts: Vec<u128>,
    pub currency_amounts: Vec<u128>,
}

} // verus!
