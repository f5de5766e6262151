//! Requests and responses of the token endpoints.

use vstd::prelude::*;

use crate::address::{ss58_decode, ss58_encode, AccountError, AccountId32};
use crate::primitives::Account;

verus! {

#[derive(Debug)]
pub struct CreateClassOutput {
    class_id: u64,
    account: String,
}

#[derive(Debug)]
pub struct CreateOutput {
    class_id: u64,
    token_id: u64,
    account: String,
}

#[derive(Debug)]
pub struct MintInput {
    input: MintArg,
}

#[derive(Debug)]
pub struct MintArg {
    seed: String,
    account: String,
    class_id: u64,
    token_id: u64,
    amount: u128,
}

#[derive(Debug)]
pub struct MintOutput {
    account: String,
    class_id: u64,
    token_id: u64,
    amount: u128,
}

#[derive(Debug)]
pub struct TokenBalanceInput {
    input: TokenBalanceArg,
}

#[derive(Debug)]
pub struct TokenBalanceArg {
    account: String,
    class_id: u64,
    token_id: u64,
}

#[derive(Debug)]
pub struct TokenBalanceOutput {
    amount: u128,
}

#[derive(Debug)]
pub struct TransferFromInput {
    input: TransferFromArg,
}

#[derive(Debug)]
pub struct TransferFromArg {
    seed: String,
    from: String,
    to: String,
    class_id: u64,
    token_id: u64,
    amount: u128,
}

#[derive(Debug)]
pub struct TransferFromOutput {
    from: String,
    to: String,
    class_id: u64,
    token_id: u64,
    amount: u128,
}

impl CreateClassOutput {
    /// The class and the address of the account that created it.
    pub closed spec fn fields(self) -> (u64, Seq<char>) {
        (self.class_id, self.account@)
    }
}

impl CreateOutput {
    /// The class, the token and the address of the account that created it.
    pub closed spec fn fields(self) -> (u64, u64, Seq<char>) {
        (self.class_id, self.token_id, self.account@)
    }
}

impl MintOutput {
    /// The address of the account credited, the class, the token and the amount.
    pub closed spec fn fields(self) -> (Seq<char>, u64, u64, u128) {
        (self.account@, self.class_id, self.token_id, self.amount)
    }
}

impl TokenBalanceOutput {
    /// The balance.
    pub closed spec fn amount_of(self) -> u128 {
        self.amount
    }
}

impl TransferFromOutput {
    /// Both addresses, the class, the token and the amount.
    pub closed spec fn fields(self) -> (Seq<char>, Seq<char>, u64, u64, u128) {
        (self.from@, self.to@, self.class_id, self.token_id, self.amount)
    }
}

impl TransferFromArg {
    /// The addresses of the sender and the recipient.
    pub closed spec fn accounts(self) -> (Seq<char>, Seq<char>) {
        (self.from@, self.to@)
    }
}

impl TransferFromInput {
    /// The addresses of the sender and the recipient.
    pub closed spec fn accounts(self) -> (Seq<char>, Seq<char>) {
        self.input.accounts()
    }

    /// The accounts of a transfer; fails when an address is not valid SS58 (the sender's
    /// is read first).
    pub fn parties(&self) -> (r: Result<(AccountId32, AccountId32), AccountError>)
        ensures
            r is Ok <==> (ss58_decode(self.accounts().0) is Some && ss58_decode(self.accounts().1) is Some),
            r matches Ok((f, t)) ==> ss58_decode(self.accounts().0) == Some(f@) && ss58_decode(self.accounts().1) == Some(t@),
    {
        let from = AccountId32::try_from_account(&Account(self.input.from.clone()))?;
        let to = AccountId32::try_from_account(&Account(self.input.to.clone()))?;
        Ok((from, to))
    }
}

/// The answer of a token class's creation.
pub fn create_class_output(class_id: u64, account: AccountId32) -> (r: CreateClassOutput)
    ensures
        r.fields() == (class_id, ss58_encode(account@)),
{
    CreateClassOutput { class_id, account: account.to_ss58_string() }
}

/// The answer of a token's creation.
pub fn create_output(class_id: u64, token_id: u64, account: AccountId32) -> (r: CreateOutput)
    ensures
        r.fields() == (class_id, token_id, ss58_encode(account@)),
{
    CreateOutput { class_id, token_id, account: account.to_ss58_string() }
}

/// The answer of a token mint.
pub fn mint_output(account: AccountId32, class_id: u64, token_id: u64, amount: u128) -> (r: MintOutput)
    ensures
        r.fields() == (ss58_encode(account@), class_id, token_id, amount),
{
    MintOutput { account: account.to_ss58_string(), class_id, token_id, amount }
}

/// The answer of the token balance query.
pub fn balance_output(amount: u128) -> (r: TokenBalanceOutput)
    ensures
        r.amount_of() == amount,
{
    TokenBalanceOutput { amount }
}

/// The answer of a token transfer.
pub fn transfer_from_output(from: AccountId32, to: AccountId32, class_id: u64, token_id: u64, amount: u128) -> (r: TransferFromOutput)
    ensures
        r.fields() == (ss58_encode(from@), ss58_encode(to@), class_id, token_id, amount),
{
    TransferFromOutput { from: from.to_ss58_string(), to: to.to_ss58_string(), class_id, token_id, amount }
}

} // verus!
