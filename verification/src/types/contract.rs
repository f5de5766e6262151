//! Requests and responses exchanged with the contract service.

#[allow(unused_imports)]
use vstd::prelude::*;
use crate::primitives::{Balance, Seed};

verus! {

#[derive(Debug)]
pub struct ContractTransactionInput {
    pub account_address: String,
    pub amount: u128,
}

#[derive(Debug)]
pub struct ContractTotalSupplyOutput {
    pub total_supply: u128,
}

#[derive(Debug)]
pub struct ContractAllowanceInput {
    pub owner_address: String,
    pub spender_address: String,
}

#[derive(Debug)]
pub struct ContractAllowanceOutput {
    pub allowance: u128,
}

#[derive(Debug)]
pub struct ConvertFulaInput {
    pub seed: Seed,
    pub wallet_account: String,
    pub amount: Balance,
}

} // verus!
