//! Market requests and rates in their earlier shape.

#[allow(unused_imports)]
use vstd::prelude::*;
use crate::primitives::{Account};

verus! {

#[derive(Clone, Debug)]
pub enum AmountOp {
    Equal,
    LessThan,
    LessEqualThan,
    GreaterThan,
    GreaterEqualThan,
}

#[derive(Clone, Debug)]
pub enum AmountOpInput {
    Transfer,
    Mint,
    Burn,
    HasEqual,
    HasLessThan,
    HasLessEqualThan,
    HasGreaterThan,
    HasGreaterEqualThan,
}

#[derive(Clone, Debug)]
pub enum RateAction {
    Transfer,
    Mint,
    Burn,
    Has(AmountOp),
}

#[derive(Clone, Debug)]
pub enum RateAccount {
    Market,
    Account(String),
    Buyer,
}

#[derive(Clone, Debug)]
pub struct AssetRateInput {
    class_id: u64,
    asset_id: u64,
    action: AmountOpInput,
    amount: i128,
    from: String,
    to: String,
}

#[derive(Clone, Debug)]
pub struct RatesInput {
    rates: Vec<AssetRateInput>,
    metadata: Vec<u8>,
}

#[derive(Clone, Debug)]
pub struct AssetRate {
    class_id: u64,
    asset_id: u64,
    action: RateAction,
    amount: i128,
    from: RateAccount,
    to: RateAccount,
}

#[derive(Clone, Debug)]
pub struct RateBalance {
    rate: AssetRate,
    balance: i128,
}

#[derive(Debug)]
pub struct CreateMarketInput {
    seed: String,
    market_id: u64,
}

#[derive(Debug)]
pub struct CreateMarketOutput {
    market_id: u64,
    who: String,
}

#[derive(Debug)]
pub struct CreateMarketRateOutput {
    market_id: u64,
    market_rate_id: u64,
    who: String,
}

#[derive(Debug)]
pub struct DepositAssetsInput {
    seed: String,
    market_id: u64,
    market_rate_id: u64,
    amount: u128,
}

#[derive(Debug)]
pub struct DepositAssetsOutput {
    who: String,
    market_id: u64,
    market_rate_id: u64,
    amount: u128,
    balances: Vec<RateBalance>,
    success: bool,
}

#[derive(Debug)]
pub struct ExchangeAssetsInput {
    seed: String,
    market_id: u64,
    market_rate_id: u64,
    amount: u128,
}

#[derive(Debug)]
pub struct ExchangeAssetsOutput {
    buyer: String,
    market_id: u64,
    market_rate_id: u64,
    amount: u128,
    balances: Vec<RateBalance>,
    success: bool,
}

} // verus!
