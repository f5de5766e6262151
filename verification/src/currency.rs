//! The decisions of the currency endpoints: the balance update that issues the requested
//! amount, and the answers built from the chain's events.

use vstd::prelude::*;

use crate::address::{ss58_encode, AccountId32};
use crate::primitives::{Account, AssetId, Balance, ClassId};
use crate::response::RequestError;
use crate::types::currency::{
    Currency, CurrencyIssuanceOutput, CurrencySupplyOutput, IssueCurrencyInput, IssueCurrencyOutput, MintCurrencyOutput,
    BurnCurrencyOutput,
};

verus! {

/// The balance update that issues an amount of a currency to an account.
#[derive(Clone, Copy, Debug)]
pub struct BalanceUpdate {
    pub who: AccountId32,
    pub class_id: u64,
    pub asset_id: u64,
    pub amount: i128,
}

/// The balance update that issuing `req` asks for: exactly the requested amount of the
/// request's currency, for the account of the request's seed.
pub fn issue_update(who: AccountId32, req: &IssueCurrencyInput) -> (r: BalanceUpdate)
    ensures
        r.who == who,
        r.class_id == req.currency.class_id.0,
        r.asset_id == req.currency.asset_id.0,
        r.amount == req.amount,
{
    BalanceUpdate { who, class_id: req.currency.class_id.0, asset_id: req.currency.asset_id.0, amount: req.amount }
}

/// The balance-updated event of the currencies pallet.
#[derive(Clone, Copy, Debug)]
pub struct BalanceUpdated {
    pub who: AccountId32,
    pub class_id: u64,
    pub asset_id: u64,
    pub amount: i128,
}

/// The answer of an issue: the event's currency, account and amount, or a refusal when no
/// such event was emitted.
pub fn issue_output(event: Option<BalanceUpdated>) -> (r: Result<IssueCurrencyOutput, RequestError>)
    ensures
        r is Ok <==> event is Some,
        r matches Ok(o) ==> {
            &&& o.currency.class_id.0 == event->0.class_id
            &&& o.currency.asset_id.0 == event->0.asset_id
            &&& o.who@ == ss58_encode(event->0.who@)
            &&& o.amount == event->0.amount
        },
        r matches Err(e) ==> e.message@ == "Failed to find sugarfunge::orml_currencies::events::BalanceUpdated"@
            && e.description@ == ""@,
{
    match event {
        Some(e) => Ok(IssueCurrencyOutput {
            currency: Currency { class_id: ClassId(e.class_id), asset_id: AssetId(e.asset_id) },
            who: Account::from_account_id(e.who),
            amount: e.amount,
        }),
        None => Err(RequestError::new("Failed to find sugarfunge::orml_currencies::events::BalanceUpdated", "")),
    }
}

/// The answer of the issuance query: the total issuance read.
pub fn issuance_output(total_issuance: u128) -> (r: CurrencyIssuanceOutput)
    ensures
        r.amount.0 == total_issuance,
{
    CurrencyIssuanceOutput { amount: Balance(total_issuance) }
}

/// The answer of the supply query: the total supply of the currency's asset record, or 0
/// when there is none.
pub fn supply_output(total_supply: Option<u128>) -> (r: CurrencySupplyOutput)
    ensures
        r.total_supply == match total_supply {
            Some(s) => s,
            None => 0,
        },
{
    let total_supply = if let Some(s) = total_supply {
        s
    } else {
        0
    };
    CurrencySupplyOutput { total_supply }
}

/// A mint or burn event of the currency pallet.
#[derive(Clone, Copy, Debug)]
pub struct CurrencyAmountEvent {
    pub class_id: u64,
    pub asset_id: u64,
    pub amount: u128,
    pub who: AccountId32,
}

/// The answer of a mint: the event's currency, amount and account, or a refusal when no
/// mint event was emitted.
pub fn mint_output(event: Option<CurrencyAmountEvent>) -> (r: Result<MintCurrencyOutput, RequestError>)
    ensures
        r is Ok <==> event is Some,
        r matches Ok(o) ==> {
            &&& o.currency.class_id.0 == event->0.class_id
            &&& o.currency.asset_id.0 == event->0.asset_id
            &&& o.amount.0 == event->0.amount
            &&& o.who@ == ss58_encode(event->0.who@)
        },
        r matches Err(e) ==> e.message@ == "Failed to find sugarfunge::currency::events::Mint"@ && e.description@ == ""@,
{
    match event {
        Some(e) => Ok(MintCurrencyOutput {
            currency: Currency { class_id: ClassId(e.class_id), asset_id: AssetId(e.asset_id) },
            amount: Balance(e.amount),
            who: Account::from_account_id(e.who),
        }),
        None => Err(RequestError::new("Failed to find sugarfunge::currency::events::Mint", "")),
    }
}

/// The answer of a burn: the event's currency, amount and account, or a refusal when no
/// burn event was emitted.
pub fn burn_output(event: Option<CurrencyAmountEvent>) -> (r: Result<BurnCurrencyOutput, RequestError>)
    ensures
        r is Ok <==> event is Some,
        r matches Ok(o) ==> {
            &&& o.currency.class_id.0 == event->0.class_id
            &&& o.currency.asset_id.0 == event->0.asset_id
            &&& o.amount.0 == event->0.amount
            &&& o.who@ == ss58_encode(event->0.who@)
        },
        r matches Err(e) ==> e.message@ == "Failed to find sugarfunge::currency::events::Burn"@ && e.description@ == ""@,
{
    match event {
        Some(e) => Ok(BurnCurrencyOutput {
            currency: Currency { class_id: ClassId(e.class_id), asset_id: AssetId(e.asset_id) },
            amount: Balance(e.amount),
            who: Account::from_account_id(e.who),
        }),
        None => Err(RequestError::new("Failed to find sugarfunge::currency::events::Burn", "")),
    }
}

} // verus!
