//! The decisions of the exchange endpoints: the recipient each trade names, and the
//! answers built from the chain's events.

use vstd::prelude::*;

use crate::address::{ss58_decode, ss58_encode, AccountError, AccountId32};
use crate::response::RequestError;
use crate::types::dex_types::{AddLiquidityOutput, BuyAssetsOutput, CreateDexOutput, RemoveLiquidityOutput, SellAssetsOutput};

verus! {

/// The account a trade sends its proceeds to; fails exactly when the address is not
/// valid SS58.
pub fn recipient(to: &String) -> (r: Result<AccountId32, AccountError>)
    ensures
        r is Ok <==> ss58_decode(to@) is Some,
        r matches Ok(id) ==> ss58_decode(to@) == Some(id@),
{
    AccountId32::try_from_account(&crate::primitives::Account(to.clone()))
}

/// The event of an exchange's creation.
#[derive(Clone, Copy, Debug)]
pub struct ExchangeCreatedEvent {
    pub exchange_id: u32,
    pub who: AccountId32,
}

/// The answer of an exchange's creation.
pub fn create_dex_output(event: &ExchangeCreatedEvent) -> (r: CreateDexOutput)
    ensures
        r.exchange_id == event.exchange_id,
        r.who@ == ss58_encode(event.who@),
{
    CreateDexOutput { exchange_id: event.exchange_id, who: event.who.to_ss58_string() }
}

/// The event of a trade or a liquidity change: the exchange, the signer, the recipient,
/// the assets, the asset amounts and the currency amounts.
#[derive(Clone, Debug)]
pub struct DexTradeEvent {
    pub exchange_id: u32,
    pub who: AccountId32,
    pub to: AccountId32,
    pub asset_ids: Vec<u64>,
    pub asset_amounts: Vec<u128>,
    pub currency_amounts: Vec<u128>,
}

/// Whether an answer's fields are the event's, the accounts by their addresses.
pub open spec fn trade_reports(
    exchange_id: u32,
    who: String,
    to: String,
    asset_ids: Vec<u64>,
    asset_amounts: Vec<u128>,
    currency_amounts: Vec<u128>,
    e: DexTradeEvent,
) -> bool {
    &&& exchange_id == e.exchange_id
    &&& who@ == ss58_encode(e.who@)
    &&& to@ == ss58_encode(e.to@)
    &&& asset_ids@ == e.asset_ids@
    &&& asset_amounts@ == e.asset_amounts@
    &&& currency_amounts@ == e.currency_amounts@
}

/// The answer of buying assets.
pub fn buy_assets_output(event: DexTradeEvent) -> (r: BuyAssetsOutput)
    ensures
        trade_reports(r.exchange_id, r.who, r.to, r.asset_ids, r.asset_amounts_out, r.currency_amounts_in, event),
{
    BuyAssetsOutput {
        exchange_id: event.exchange_id,
        who: event.who.to_ss58_string(),
        to: event.to.to_ss58_string(),
        asset_ids: event.asset_ids,
        asset_amounts_out: event.asset_amounts,
        currency_amounts_in: event.currency_amounts,
    }
}

/// The answer of selling assets.
pub fn sell_assets_output(event: DexTradeEvent) -> (r: SellAssetsOutput)
    ensures
        trade_reports(r.exchange_id, r.who, r.to, r.asset_ids, r.asset_amounts_in, r.currency_amounts_out, event),
{
    SellAssetsOutput {
        exchange_id: event.exchange_id,
        who: event.who.to_ss58_string(),
        to: event.to.to_ss58_string(),
        asset_ids: event.asset_ids,
        asset_amounts_in: event.asset_amounts,
        currency_amounts_out: event.currency_amounts,
    }
}

/// The answer of adding liquidity.
pub fn add_liquidity_output(event: DexTradeEvent) -> (r: AddLiquidityOutput)
    ensures
        trade_reports(r.exchange_id, r.who, r.to, r.asset_ids, r.asset_amounts, r.currency_amounts, event),
{
    AddLiquidityOutput {
        exchange_id: event.exchange_id,
        who: event.who.to_ss58_string(),
        to: event.to.to_ss58_string(),
        asset_ids: event.asset_ids,
        asset_amounts: event.asset_amounts,
        currency_amounts: event.currency_amounts,
    }
}

/// The answer of removing liquidity.
pub fn remove_liquidity_output(event: DexTradeEvent) -> (r: RemoveLiquidityOutput)
    ensures
        trade_reports(r.exchange_id, r.who, r.to, r.asset_ids, r.asset_amounts, r.currency_amounts, event),
{
    RemoveLiquidityOutput {
        exchange_id: event.exchange_id,
        who: event.who.to_ss58_string(),
        to: event.to.to_ss58_string(),
        asset_ids: event.asset_ids,
        asset_amounts: event.asset_amounts,
        currency_amounts: event.currency_amounts,
    }
}

/// The exchange extrinsics.
#[derive(Clone, Copy, Debug, PartialEq, Eq, Structural)]
pub enum DexCall {
    Create,
    BuyAssets,
    SellAssets,
    AddLiquidity,
    RemoveLiquidity,
}

/// The refusal of an exchange extrinsic whose event was not found (every trade names the
/// currency-to-asset event; the creation names the transfer event).
pub fn dex_missing_event_error(call: DexCall) -> (r: RequestError)
    ensures
        call == DexCall::Create ==> r.message@ == "Failed to find sugarfunge::balances::events::Transfer"@,
        call != DexCall::Create ==> r.message@ == "Failed to find sugarfunge::dex::events::CurrencyToAsset"@,
        r.description@ == ""@,
{
    match call {
        DexCall::Create => RequestError::new("Failed to find sugarfunge::balances::events::Transfer", ""),
        _ => RequestError::new("Failed to find sugarfunge::dex::events::CurrencyToAsset", ""),
    }
}

} // verus!
