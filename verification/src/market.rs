//! The decisions of the market endpoints: the rules a market rate is created with, the
//! balances a deposit or exchange reports, and the answers built from the chain's events.

use vstd::prelude::*;

use crate::address::{ss58_encode, AccountError, AccountId32};
use crate::primitives::{Account, Balance, MarketId};
use crate::response::RequestError;
use crate::runtime;
use crate::types::market::{
    amount_op_to_runtime, asset_rate_is_valid, asset_rate_matches, rate_account_is_valid, rate_account_matches, rate_action_from_runtime,
    AssetRate, CreateMarketOutput, CreateMarketRateOutput, DepositAssetsOutput, ExchangeAssetsOutput, RateAccount,
    RateAction, RateBalance,
};

verus! {

/// The runtime party of a rate account (borrowing it); fails exactly when the named
/// address is not valid SS58.
pub fn rate_account_to_runtime(account: &RateAccount) -> (r: Result<runtime::RateAccount, AccountError>)
    ensures
        r is Ok <==> rate_account_is_valid(*account),
        r matches Ok(chain) ==> rate_account_matches(*account, chain),
{
    match account {
        RateAccount::Buyer => Ok(runtime::RateAccount::Buyer),
        RateAccount::Market => Ok(runtime::RateAccount::Market),
        RateAccount::Account(a) => {
            let id = AccountId32::try_from_account(a)?;
            Ok(runtime::RateAccount::Account(id))
        },
    }
}

/// The runtime rule of a rule (borrowing it); fails exactly when an address in it is not
/// valid SS58.
pub fn asset_rate_to_runtime(rate: &AssetRate) -> (r: Result<runtime::AssetRate, AccountError>)
    ensures
        r is Ok <==> asset_rate_is_valid(*rate),
        r matches Ok(chain) ==> asset_rate_matches(*rate, chain),
{
    let from = rate_account_to_runtime(&rate.from)?;
    let to = rate_account_to_runtime(&rate.to)?;
    Ok(runtime::AssetRate {
        class_id: rate.class_id.0,
        asset_id: rate.asset_id.0,
        action: rate.action.into(),
        from,
        to,
    })
}

/// Whether every rule of a rate names only valid addresses.
pub open spec fn rates_valid(rates: Seq<AssetRate>) -> bool {
    forall|i: int| 0 <= i < rates.len() ==> asset_rate_is_valid(#[trigger] rates[i])
}

/// Whether `chain` holds the runtime form of each rule, in order.
pub open spec fn rates_match(rates: Seq<AssetRate>, chain: Seq<runtime::AssetRate>) -> bool {
    &&& chain.len() == rates.len()
    &&& forall|i: int| 0 <= i < rates.len() ==> asset_rate_matches(#[trigger] rates[i], chain[i])
}

/// The rules of a market rate as the chain takes them; fails, at the first rule naming an
/// address that is not valid SS58, exactly when there is one.
pub fn try_extrinsinc_rates(in_rates: &Vec<AssetRate>) -> (r: Result<Vec<runtime::AssetRate>, AccountError>)
    ensures
        r is Ok <==> rates_valid(in_rates@),
        r matches Ok(chain) ==> rates_match(in_rates@, chain@),
{
    let mut out: Vec<runtime::AssetRate> = Vec::new();
    let mut i: usize = 0;
    while i < in_rates.len()
        invariant
            i <= in_rates@.len(),
            out@.len() == i,
            forall|k: int| 0 <= k < i ==> asset_rate_is_valid(#[trigger] in_rates@[k]),
            forall|k: int| 0 <= k < i ==> asset_rate_matches(#[trigger] in_rates@[k], out@[k]),
        decreases in_rates@.len() - i,
    {
        let chain = match asset_rate_to_runtime(&in_rates[i]) {
            Ok(c) => c,
            Err(e) => {
                assert(!asset_rate_is_valid(in_rates@[i as int]));
                return Err(e);
            },
        };
        out.push(chain);
        i = i + 1;
    }
    Ok(out)
}

/// The rules of a market rate as the chain takes them, for rules whose addresses are all
/// valid.
pub fn extrinsinc_rates(in_rates: &Vec<AssetRate>) -> (r: Vec<runtime::AssetRate>)
    requires
        rates_valid(in_rates@),
    ensures
        rates_match(in_rates@, r@),
{
    match try_extrinsinc_rates(in_rates) {
        Ok(chain) => chain,
        Err(_) => {
            assert(false);
            Vec::new()
        },
    }
}

/// Whether `out` reports the runtime balances one for one.
pub open spec fn balances_report(out: Seq<RateBalance>, chain: Seq<runtime::RateBalance>) -> bool {
    &&& out.len() == chain.len()
    &&& forall|i: int|
        0 <= i < out.len() ==> {
            &&& asset_rate_matches((#[trigger] out[i]).rate, chain[i].rate)
            &&& out[i].rate.action == rate_action_from_runtime(chain[i].rate.action)
            &&& out[i].balance.0 == chain[i].balance
        }
}

/// The balances of a deposit or exchange event as the API reports them.
pub fn transform_balances(in_balances: Vec<runtime::RateBalance>) -> (r: Vec<RateBalance>)
    ensures
        balances_report(r@, in_balances@),
{
    let mut out: Vec<RateBalance> = Vec::new();
    let mut i: usize = 0;
    while i < in_balances.len()
        invariant
            i <= in_balances@.len(),
            out@.len() == i,
            forall|k: int|
                0 <= k < i ==> {
                    &&& asset_rate_matches((#[trigger] out@[k]).rate, in_balances@[k].rate)
                    &&& out@[k].rate.action == rate_action_from_runtime(in_balances@[k].rate.action)
                    &&& out@[k].balance.0 == in_balances@[k].balance
                },
        decreases in_balances@.len() - i,
    {
        out.push(RateBalance::from_runtime(in_balances[i]));
        i = i + 1;
    }
    out
}

/// The event of a market's creation.
#[derive(Clone, Copy, Debug)]
pub struct MarketCreatedEvent {
    pub market_id: u64,
    pub who: AccountId32,
}

/// The answer of a market's creation, or the refusal when its event is missing.
pub fn create_market_output(event: Option<MarketCreatedEvent>) -> (r: Result<CreateMarketOutput, RequestError>)
    ensures
        r is Ok <==> event is Some,
        r matches Ok(o) ==> o.who@ == ss58_encode(event->0.who@) && o.market_id.0 == event->0.market_id,
        r matches Err(e) ==> e.message@ == "Failed to find sugarfunge::market::events::Created"@ && e.description@ == ""@,
{
    match event {
        Some(e) => Ok(CreateMarketOutput { who: Account::from_account_id(e.who), market_id: MarketId(e.market_id) }),
        None => Err(RequestError::new("Failed to find sugarfunge::market::events::Created", "")),
    }
}

/// The event of a market rate's creation.
#[derive(Clone, Copy, Debug)]
pub struct RateCreatedEvent {
    pub market_id: u64,
    pub market_rate_id: u64,
    pub who: AccountId32,
}

/// The answer of a market rate's creation, or the refusal when its event is missing.
pub fn create_market_rate_output(event: Option<RateCreatedEvent>) -> (r: Result<CreateMarketRateOutput, RequestError>)
    ensures
        r is Ok <==> event is Some,
        r matches Ok(o) ==> o.who@ == ss58_encode(event->0.who@) && o.market_id.0 == event->0.market_id
            && o.market_rate_id.0 == event->0.market_rate_id,
        r matches Err(e) ==> e.message@ == "Failed to find sugarfunge::market::events::RateCreated"@ && e.description@ == ""@,
{
    match event {
        Some(e) => Ok(CreateMarketRateOutput {
            who: Account::from_account_id(e.who),
            market_id: MarketId(e.market_id),
            market_rate_id: MarketId(e.market_rate_id),
        }),
        None => Err(RequestError::new("Failed to find sugarfunge::market::events::RateCreated", "")),
    }
}

/// The event of a deposit into, or an exchange with, a market rate.
#[derive(Clone, Debug)]
pub struct MarketTradeEvent {
    pub who: AccountId32,
    pub market_id: u64,
    pub market_rate_id: u64,
    pub amount: u128,
    pub balances: Vec<runtime::RateBalance>,
    pub success: bool,
}

/// The answer of a deposit, or the refusal when its event is missing.
pub fn deposit_assets_output(event: Option<MarketTradeEvent>) -> (r: Result<DepositAssetsOutput, RequestError>)
    ensures
        r is Ok <==> event is Some,
        r matches Ok(o) ==> {
            &&& o.who@ == ss58_encode(event->0.who@)
            &&& o.market_id.0 == event->0.market_id
            &&& o.market_rate_id.0 == event->0.market_rate_id
            &&& o.amount.0 == event->0.amount
            &&& balances_report(o.balances@, event->0.balances@)
            &&& o.success == event->0.success
        },
        r matches Err(e) ==> e.message@ == "Failed to find sugarfunge::market::events::Deposit"@ && e.description@ == ""@,
{
    match event {
        Some(e) => Ok(DepositAssetsOutput {
            who: Account::from_account_id(e.who),
            market_id: MarketId(e.market_id),
            market_rate_id: MarketId(e.market_rate_id),
            amount: Balance(e.amount),
            balances: transform_balances(e.balances),
            success: e.success,
        }),
        None => Err(RequestError::new("Failed to find sugarfunge::market::events::Deposit", "")),
    }
}

/// The answer of an exchange, or the refusal when its event is missing.
pub fn exchange_assets_output(event: Option<MarketTradeEvent>) -> (r: Result<ExchangeAssetsOutput, RequestError>)
    ensures
        r is Ok <==> event is Some,
        r matches Ok(o) ==> {
            &&& o.buyer@ == ss58_encode(event->0.who@)
            &&& o.market_id.0 == event->0.market_id
            &&& o.market_rate_id.0 == event->0.market_rate_id
            &&& o.amount.0 == event->0.amount
            &&& balances_report(o.balances@, event->0.balances@)
            &&& o.success == event->0.success
        },
        r matches Err(e) ==> e.message@ == "Failed to find sugarfunge::market::events::Exchange"@ && e.description@ == ""@,
{
    match event {
        Some(e) => Ok(ExchangeAssetsOutput {
            buyer: Account::from_account_id(e.who),
            market_id: MarketId(e.market_id),
            market_rate_id: MarketId(e.market_rate_id),
            amount: Balance(e.amount),
            balances: transform_balances(e.balances),
            success: e.success,
        }),
        None => Err(RequestError::new("Failed to find sugarfunge::market::events::Exchange", "")),
    }
}

/// Each rule handed to the chain keeps its class, asset, and the kind and amount of its
/// action: minting `a` stays minting `a`, burning stays burning, and so on.
pub proof fn lemma_rules_keep_actions(rates: Seq<AssetRate>, chain: Seq<runtime::AssetRate>)
    requires
        rates_match(rates, chain),
    ensures
        forall|i: int|
            0 <= i < rates.len() ==> {
                &&& (#[trigger] chain[i]).class_id == rates[i].class_id.0
                &&& chain[i].asset_id == rates[i].asset_id.0
                &&& (rates[i].action matches RateAction::Mint(a) ==> chain[i].action == runtime::RateAction::Mint(a.0))
                &&& (rates[i].action matches RateAction::Burn(a) ==> chain[i].action == runtime::RateAction::Burn(a.0))
                &&& (rates[i].action matches RateAction::Transfer(a) ==> chain[i].action == runtime::RateAction::Transfer(a.0))
                &&& (rates[i].action matches RateAction::Has(op, a) ==> chain[i].action == runtime::RateAction::Has(
                    amount_op_to_runtime(op),
                    a.0,
                ))
            },
{
    assert forall|i: int| 0 <= i < rates.len() implies (#[trigger] chain[i]).class_id == rates[i].class_id.0 by {
        assert(asset_rate_matches(rates[i], chain[i]));
    }
}

} // verus!
