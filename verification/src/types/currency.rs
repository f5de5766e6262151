//! Requests and responses of the currency endpoints.

#[allow(unused_imports)]
use vstd::prelude::*;
use crate::primitives::{Account, AssetId, Balance, ClassId, Seed};

verus! {

#[derive(Debug)]
pub struct Currency {
    pub class_id: ClassId,
    pub asset_id: AssetId,
}

#[derive(Debug)]
pub struct IssueCurrencyInput {
    pub seed: Seed,
    pub currency: Currency,
    pub amount: i128,
}

#[derive(Debug)]
pub struct IssueCurrencyOutput {
    pub currency: Currency,
    pub who: Account,
    pub amount: i128,
}

#[derive(Debug)]
pub struct CurrencyIssuanceInput {
    pub currency: Currency,
}

#[derive(Debug)]
pub struct CurrencyIssuanceOutput {
    pub amount: Balance,
}

#[derive(Debug)]
pub struct CurrencySupplyInput {
    pub currency: Currency,
}

#[derive(Debug)]
pub struct CurrencySupplyOutput {
    pub total_supply: u128,
}

#[derive(Debug)]
pub struct MintCurrencyInput {
    pub seed: Seed,
    pub currency: Currency,
    pub amount: Balance,
}

#[derive(Debug)]
pub struct MintCurrencyOutput {
    pub currency: Currency,
    pub amount: Balance,
    pub who: Account,
}

#[derive(Debug)]
pub struct BurnCurrencyInput {
    pub seed: Seed,
    pub currency: Currency,
    pub amount: Balance,
}

#[derive(Debug)]
pub struct BurnCurrencyOutput {
    pub currency: Currency,
    pub amount: Balance,
    pub who: Account,
}

} // verus!
