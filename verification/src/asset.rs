//! The decisions of the asset endpoints: the balances an owner holds, read from their
//! storage keys and values, and the answers built from the chain's events.

use vstd::prelude::*;

use crate::address::{ss58_encode, AccountId32};
use crate::keys::{key_u64, key_u64_at};
use crate::primitives::{Account, AssetId, Balance, ClassId};
use crate::response::RequestError;
use crate::scale::{decode_u128, le_u128};
use crate::types::asset::{
    AssetBalanceItemOutput, AssetBalanceOutput, AssetBalancesOutput, BurnOutput, CreateClassOutput, CreateOutput,
    MintOutput, TransferFromOutput,
};

verus! {

/// Offset of the class identifier in a key of the asset balances map (after the owner
/// and the second key hash).
pub const BALANCE_CLASS_OFFSET: usize = 96;

/// Offset of the asset identifier in a key of the asset balances map.
pub const BALANCE_ASSET_OFFSET: usize = 120;

/// Whether every balance key holds a class and an asset identifier and every stored
/// value holds a `u128`.
pub open spec fn balance_entries_readable(entries: Seq<(Vec<u8>, Vec<u8>)>) -> bool {
    forall|i: int| 0 <= i < entries.len() ==> (#[trigger] entries[i]).0@.len() >= 128 && entries[i].1@.len() >= 16
}

/// What is reported of a stored balance.
pub open spec fn balance_item_reports(item: AssetBalanceItemOutput, key: Seq<u8>, value: Seq<u8>) -> bool {
    &&& item.class_id.0 == key_u64(key, 96)
    &&& item.asset_id.0 == key_u64(key, 120)
    &&& item.amount.0 == le_u128(value)
}

/// The balances an owner holds, one per stored balance (keys and raw values read under
/// the owner's, and possibly the class's, prefix), in order.
pub fn collect_asset_balances(entries: &Vec<(Vec<u8>, Vec<u8>)>) -> (r: AssetBalancesOutput)
    requires
        balance_entries_readable(entries@),
    ensures
        r.balances@.len() == entries@.len(),
        forall|i: int| 0 <= i < entries@.len() ==> balance_item_reports(#[trigger] r.balances@[i], entries@[i].0@, entries@[i].1@),
{
    let mut result_array: Vec<AssetBalanceItemOutput> = Vec::new();
    let mut i: usize = 0;
    while i < entries.len()
        invariant
            i <= entries@.len(),
            balance_entries_readable(entries@),
            result_array@.len() == i,
            forall|k: int| 0 <= k < i ==> balance_item_reports(#[trigger] result_array@[k], entries@[k].0@, entries@[k].1@),
        decreases entries@.len() - i,
    {
        let entry = &entries[i];
        assert(entries@[i as int].0@.len() >= 128 && entries@[i as int].1@.len() >= 16);
        let key = entry.0.as_slice();
        let class_id = key_u64_at(key, BALANCE_CLASS_OFFSET);
        let asset_id = key_u64_at(key, BALANCE_ASSET_OFFSET);
        let amount = match decode_u128(entry.1.as_slice()) {
            Ok(v) => v,
            Err(_) => {
                assert(false);
                0
            },
        };
        result_array.push(AssetBalanceItemOutput { class_id: ClassId(class_id), asset_id: AssetId(asset_id), amount: Balance(amount) });
        i = i + 1;
    }
    AssetBalancesOutput { balances: result_array }
}

/// The answer of the balance query: the stored balance, or a refusal when there is none.
pub fn asset_balance_output(amount: Option<u128>) -> (r: Result<AssetBalanceOutput, RequestError>)
    ensures
        r is Ok <==> amount is Some,
        r matches Ok(o) ==> o.amount.0 == amount->0,
        r matches Err(e) ==> e.message@ == "Failed to find asset::getBalance"@ && e.description@ == "Error in asset::balance"@,
{
    match amount {
        Some(a) => Ok(AssetBalanceOutput { amount: Balance(a) }),
        None => Err(RequestError::new("Failed to find asset::getBalance", "Error in asset::balance")),
    }
}

/// The event of a class's creation.
#[derive(Clone, Copy, Debug)]
pub struct ClassCreatedEvent {
    pub class_id: u64,
    pub who: AccountId32,
}

/// The answer of a class's creation.
pub fn create_class_output(event: &ClassCreatedEvent) -> (r: CreateClassOutput)
    ensures
        r.class_id.0 == event.class_id,
        r.who@ == ss58_encode(event.who@),
{
    CreateClassOutput { class_id: ClassId(event.class_id), who: Account::from_account_id(event.who) }
}

/// The event of an asset's creation.
#[derive(Clone, Copy, Debug)]
pub struct AssetCreatedEvent {
    pub class_id: u64,
    pub asset_id: u64,
    pub who: AccountId32,
}

/// The answer of an asset's creation.
pub fn create_asset_output(event: &AssetCreatedEvent) -> (r: CreateOutput)
    ensures
        r.class_id.0 == event.class_id,
        r.asset_id.0 == event.asset_id,
        r.who@ == ss58_encode(event.who@),
{
    CreateOutput { class_id: ClassId(event.class_id), asset_id: AssetId(event.asset_id), who: Account::from_account_id(event.who) }
}

/// The event of a mint or a burn: the account credited or debited, the asset, the amount
/// and the signer.
#[derive(Clone, Copy, Debug)]
pub struct AssetAmountEvent {
    pub account: AccountId32,
    pub class_id: u64,
    pub asset_id: u64,
    pub amount: u128,
    pub who: AccountId32,
}

/// The answer of a mint.
pub fn mint_asset_output(event: &AssetAmountEvent) -> (r: MintOutput)
    ensures
        r.to@ == ss58_encode(event.account@),
        r.class_id.0 == event.class_id,
        r.asset_id.0 == event.asset_id,
        r.amount.0 == event.amount,
        r.who@ == ss58_encode(event.who@),
{
    MintOutput {
        to: Account::from_account_id(event.account),
        class_id: ClassId(event.class_id),
        asset_id: AssetId(event.asset_id),
        amount: Balance(event.amount),
        who: Account::from_account_id(event.who),
    }
}

/// The answer of a burn.
pub fn burn_asset_output(event: &AssetAmountEvent) -> (r: BurnOutput)
    ensures
        r.from@ == ss58_encode(event.account@),
        r.class_id.0 == event.class_id,
        r.asset_id.0 == event.asset_id,
        r.amount.0 == event.amount,
        r.who@ == ss58_encode(event.who@),
{
    BurnOutput {
        from: Account::from_account_id(event.account),
        class_id: ClassId(event.class_id),
        asset_id: AssetId(event.asset_id),
        amount: Balance(event.amount),
        who: Account::from_account_id(event.who),
    }
}

/// The event of a transfer.
#[derive(Clone, Copy, Debug)]
pub struct TransferredEvent {
    pub from: AccountId32,
    pub to: AccountId32,
    pub class_id: u64,
    pub asset_id: u64,
    pub amount: u128,
    pub who: AccountId32,
}

/// The answer of a transfer.
pub fn transfer_output(event: &TransferredEvent) -> (r: TransferFromOutput)
    ensures
        r.from@ == ss58_encode(event.from@),
        r.to@ == ss58_encode(event.to@),
        r.class_id.0 == event.class_id,
        r.asset_id.0 == event.asset_id,
        r.amount.0 == event.amount,
        r.who@ == ss58_encode(event.who@),
{
    TransferFromOutput {
        from: Account::from_account_id(event.from),
        to: Account::from_account_id(event.to),
        class_id: ClassId(event.class_id),
        asset_id: AssetId(event.asset_id),
        amount: Balance(event.amount),
        who: Account::from_account_id(event.who),
    }
}

/// The asset extrinsics.
#[derive(Clone, Copy, Debug, PartialEq, Eq, Structural)]
pub enum AssetCall {
    CreateClass,
    Create,
    UpdateMetadata,
    Mint,
    Burn,
    TransferFrom,
}

/// The refusal of an asset extrinsic whose event was not found, naming the event it
/// looked for (the metadata update names the class creation event).
pub open spec fn asset_missing_event_text(call: AssetCall) -> Seq<char> {
    match call {
        AssetCall::CreateClass => "Failed to find sugarfunge::asset::events::ClassCreated"@,
        AssetCall::Create => "Failed to find sugarfunge::asset::events::AssetCreated"@,
        AssetCall::UpdateMetadata => "Failed to find sugarfunge::asset::events::ClassCreated"@,
        AssetCall::Mint => "Failed to find sugarfunge::asset::events::Mint"@,
        AssetCall::Burn => "Failed to find sugarfunge::asset::events::Burn"@,
        AssetCall::TransferFrom => "Failed to find sugarfunge::asset::events::Transferred"@,
    }
}

/// The refusal of an asset extrinsic whose event was not found.
pub fn asset_missing_event_error(call: AssetCall) -> (r: RequestError)
    ensures
        r.message@ == asset_missing_event_text(call),
        r.description@ == ""@,
{
    let message = match call {
        AssetCall::CreateClass => "Failed to find sugarfunge::asset::events::ClassCreated",
        AssetCall::Create => "Failed to find sugarfunge::asset::events::AssetCreated",
        AssetCall::UpdateMetadata => "Failed to find sugarfunge::asset::events::ClassCreated",
        AssetCall::Mint => "Failed to find sugarfunge::asset::events::Mint",
        AssetCall::Burn => "Failed to find sugarfunge::asset::events::Burn",
        AssetCall::TransferFrom => "Failed to find sugarfunge::asset::events::Transferred",
    };
    RequestError::new(message, "")
}

} // verus!
