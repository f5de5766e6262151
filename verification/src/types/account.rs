//! Requests and responses of the account endpoints.

#[allow(unused_imports)]
use vstd::prelude::*;
use crate::primitives::{Account, Balance, Seed};

verus! {

#[derive(Debug)]
pub struct CreateAccountOutput {
    pub seed: Seed,
    pub account: Account,
}

#[derive(Debug)]
pub struct FundAccountInput {
    pub seed: Seed,
    pub to: Account,
    pub amount: Balance,
}

#[derive(Debug)]
pub struct FundAccountOutput {
    pub from: Account,
    pub to: Account,
    pub amount: Balance,
}

#[derive(Debug)]
pub struct AccountBalanceInput {
    pub account: Account,
}

#[derive(Debug)]
pub struct AccountBalanceOutput {
    pub balance: Balance,
}

#[derive(Debug)]
pub struct AccountExistsInput {
    pub account: Account,
}

#[derive(Debug)]
pub struct AccountExistsOutput {
    pub account: Account,
    pub exists: bool,
}

#[derive(Debug)]
pub struct SeededAccountInput {
    pub seed: Seed,
}

#[derive(Debug)]
pub struct SeededAccountOutput {
    pub seed: Seed,
    pub account: Account,
}

#[derive(Clone, Debug)]
pub struct Refund {
    pub seed: String,
    pub amount: u128,
}

} // verus!
