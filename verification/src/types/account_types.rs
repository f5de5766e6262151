//! Account requests and responses in their earlier shape.

#[allow(unused_imports)]
use vstd::prelude::*;

verus! {

#[derive(Debug)]
pub struct CreateAccountOutput1 {
    pub seed: String,
    pub account: String,
}

#[derive(Debug)]
pub struct FundAccountInput {
    pub seed: String,
    pub to: String,
    pub amount: u128,
}

#[derive(Debug)]
pub struct FundAccountOutput {
    pub from: String,
    pub to: String,
    pub amount: u128,
}

#[derive(Debug)]
pub struct AccountBalanceInput {
    pub account: String,
}

#[derive(Debug)]
pub struct AccountBalanceOutput {
    pub balance: u128,
}

} // verus!
