//! Accounts derived from secret seeds, new seeds, and the answers of the account queries.

use vstd::prelude::*;

use crate::address::{ss58_encode, AccountId32};
use crate::primitives::{Account, Balance, Seed};
use crate::response::RequestError;
use crate::scale::{encode_hex, hex_lower};
use crate::types::account::{
    AccountBalanceOutput, AccountExistsOutput, CreateAccountOutput, SeededAccountInput, SeededAccountOutput,
};

verus! {

/// What `sp_core::sr25519::Pair::from_string(uri, None)` yields for a secret URI: the
/// 32 bytes of the public key of the derived pair, or the `Debug` text of the error.
pub uninterp spec fn sr25519_public_of_uri(uri: Seq<char>) -> Result<Seq<u8>, Seq<char>>;

/// Calls `Pair::from_string` of `sp_core::sr25519` with no password override (phrase or
/// hex seed, then the derivation path) and takes the public key of the pair, or the
/// `Debug` text of the `SecretStringError`. The derivation is a function of the text
/// alone; the contract names it `sr25519_public_of_uri`.
#[verifier::external_body]
fn public_from_uri(uri: &str) -> (r: Result<[u8; 32], String>)
    ensures
        r is Ok <==> sr25519_public_of_uri(uri@) is Ok,
        r matches Ok(b) ==> (sr25519_public_of_uri(uri@) matches Ok(p) && p == b@),
        r matches Err(e) ==> (sr25519_public_of_uri(uri@) matches Err(t) && t == e@),
{
    match <sp_core::sr25519::Pair as sp_core::Pair>::from_string(uri, None) {
        Ok(pair) => Ok(sp_core::Pair::public(&pair).0),
        Err(e) => Err(format!("{:?}", e)),
    }
}

/// Whether an error body is the one a seed that cannot be read is refused with: the
/// text of the key derivation error, described as an API error.
pub open spec fn seed_refusal(e: RequestError, seed: Seq<char>) -> bool {
    &&& sr25519_public_of_uri(seed) matches Err(text)
    &&& e.message@ == text
    &&& e.description@ == "API error"@
}

/// The on-chain account that signs with a seed (the public key of its sr25519 pair).
/// Fails when the seed cannot be read.
pub fn account_from_seed(seed: &Seed) -> (r: Result<AccountId32, RequestError>)
    ensures
        r is Ok <==> sr25519_public_of_uri(seed@) is Ok,
        r matches Ok(id) ==> (sr25519_public_of_uri(seed@) matches Ok(p) && p == id@),
        r matches Err(e) ==> seed_refusal(e, seed@),
{
    match public_from_uri(seed.as_str()) {
        Ok(bytes) => Ok(AccountId32(bytes)),
        Err(text) => Err(RequestError { message: text, description: String::from_str("API error") }),
    }
}

/// The seed made from 32 random bytes: `//` followed by their hexadecimal text (a hard
/// derivation from the development phrase).
pub open spec fn seed_text(entropy: Seq<u8>) -> Seq<char> {
    "//"@ + hex_lower(entropy)
}

/// The seed made from 32 random bytes.
pub fn seed_from_entropy(entropy: &[u8; 32]) -> (r: Seed)
    ensures
        r@ == seed_text(entropy@),
{
    let mut text = String::from_str("//");
    let digits = encode_hex(entropy);
    text.append(digits.as_str());
    Seed(text)
}

/// A new account: the seed made from the random bytes and the address it signs with.
pub fn create_account(entropy: &[u8; 32]) -> (r: Result<CreateAccountOutput, RequestError>)
    ensures
        r is Ok <==> sr25519_public_of_uri(seed_text(entropy@)) is Ok,
        r matches Ok(o) ==> {
            &&& o.seed@ == seed_text(entropy@)
            &&& sr25519_public_of_uri(seed_text(entropy@)) matches Ok(public)
            &&& o.account@ == ss58_encode(public)
        },
        r matches Err(e) ==> seed_refusal(e, seed_text(entropy@)),
{
    let seed = seed_from_entropy(entropy);
    let id = account_from_seed(&seed)?;
    Ok(CreateAccountOutput { seed, account: Account::from_account_id(id) })
}

/// The address that a given seed signs with, together with the seed.
pub fn seeded(req: &SeededAccountInput) -> (r: Result<SeededAccountOutput, RequestError>)
    ensures
        r is Ok <==> sr25519_public_of_uri(req.seed@) is Ok,
        r matches Ok(o) ==> {
            &&& o.seed@ == req.seed@
            &&& sr25519_public_of_uri(req.seed@) matches Ok(public)
            &&& o.account@ == ss58_encode(public)
        },
        r matches Err(e) ==> seed_refusal(e, req.seed@),
{
    let id = account_from_seed(&req.seed)?;
    Ok(SeededAccountOutput { seed: Seed(req.seed.0.clone()), account: Account::from_account_id(id) })
}

/// A new account is the account of its own seed: what `create_account` reports for some
/// random bytes is what `seeded` reports for the seed it made.
pub proof fn lemma_created_account_is_seeded(entropy: Seq<u8>, created: CreateAccountOutput, again: SeededAccountOutput)
    requires
        created.seed@ == seed_text(entropy),
        sr25519_public_of_uri(seed_text(entropy)) matches Ok(public) && created.account@ == ss58_encode(public),
        again.seed@ == created.seed@,
        sr25519_public_of_uri(again.seed@) matches Ok(public) && again.account@ == ss58_encode(public),
    ensures
        again.account@ == created.account@,
{
}

/// The system record of an account as the existence and balance queries read it.
#[derive(Clone, Copy, Debug)]
pub struct AccountInfo {
    pub providers: u32,
    pub free: u128,
}

/// The answer of the existence query for an account whose system record was read: the
/// account exists when some provider keeps it; a missing record is refused.
pub fn exists_output(account: AccountId32, info: Option<AccountInfo>) -> (r: Result<AccountExistsOutput, RequestError>)
    ensures
        r is Ok <==> info is Some,
        r matches Ok(o) ==> o.account@ == ss58_encode(account@) && o.exists == (info->0.providers > 0),
        r matches Err(e) ==> e.message@ == "Failed to find sugarfunge::balances::events::balance"@
            && e.description@ == "Error in account::exist"@,
{
    match info {
        Some(data) => Ok(AccountExistsOutput { account: Account::from_account_id(account), exists: data.providers > 0 }),
        None => Err(RequestError::new("Failed to find sugarfunge::balances::events::balance", "Error in account::exist")),
    }
}

/// The answer of the balance query: the free balance of the record; a missing record is
/// refused.
pub fn balance_output(info: Option<AccountInfo>) -> (r: Result<AccountBalanceOutput, RequestError>)
    ensures
        r is Ok <==> info is Some,
        r matches Ok(o) ==> o.balance.0 == info->0.free,
        r matches Err(e) ==> e.message@ == "Failed to find sugarfunge::balances::events::balance"@
            && e.description@ == "Error in account::balance"@,
{
    match info {
        Some(data) => Ok(AccountBalanceOutput { balance: Balance(data.free) }),
        None => Err(RequestError::new("Failed to find sugarfunge::balances::events::balance", "Error in account::balance")),
    }
}

/// The health of the node as the health query reports it.
#[derive(Clone, Copy, Debug)]
pub struct HealthResponse {
    pub is_syncing: bool,
    pub peers: u64,
    pub should_have_peers: bool,
}

/// The answer of the health query: the node's syncing flag, peer count and whether it
/// should have peers.
pub fn health_response(is_syncing: bool, peers: usize, should_have_peers: bool) -> (r: HealthResponse)
    ensures
        r.is_syncing == is_syncing,
        r.peers == peers,
        r.should_have_peers == should_have_peers,
{
    HealthResponse { is_syncing, peers: peers as u64, should_have_peers }
}

} // verus!
