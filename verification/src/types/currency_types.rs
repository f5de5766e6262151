//! Currency requests and responses in their earlier shape.

#[allow(unused_imports)]
use vstd::prelude::*;

verus! {

#[derive(Debug)]
pub struct Currency {
    pub class_id: u64,
    pub asset_id: u64,
}

#[derive(Debug)]
pub struct IssueCurrencyInput {
    pub seed: String,
    pub currency: Currency,
    pub amount: i128,
}

#[derive(Debug)]
pub struct IssueCurrencyOutput {
    pub currency: Currency,
    pub who: String,
    pub amount: i128,
}

#[derive(Debug)]
pub struct CurrencyIssuanceInput {
    pub currency: Currency,
}

#[derive(Debug)]
pub struct CurrencyIssuanceOutput {
    pub amount: u128,
}

#[derive(Debug)]
pub struct CurrencySupplyInput {
    pub currency: Currency,
}

#[derive(Debug)]
pub struct CurrencySupplyOutput {
    pub total_supply: u128,
}

#[derive(Debug)]
pub struct MintCurrencyInput {
    pub seed: String,
    pub currency: Currency,
    pub amount: u128,
}

#[derive(Debug)]
pub struct MintCurrencyOutput {
    pub currency: Currency,
    pub amount: u128,
    pub who: String,
}

#[derive(Debug)]
pub struct BurnCurrencyInput {
    pub seed: String,
    pub currency: Currency,
    pub amount: u128,
}

#[derive(Debug)]
pub struct BurnCurrencyOutput {
    pub currency: Currency,
    pub amount: u128,
    pub who: String,
}

} // verus!
