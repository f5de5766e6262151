//! The decisions of the escrow endpoints: the owners an escrow account is created with,
//! and the answers built from the chain's events.

use vstd::prelude::*;

use crate::address::{ss58_encode, AccountId32};
use crate::bag::transform_owners_output;
use crate::primitives::{Account, AssetId, ClassId};
use crate::types::escrow::{CreateEscrowOutput, DepositAssetsOutput, RegisterEscrowOutput, SweepAssetsOutput};

verus! {

/// The answer of an escrow class's registration.
pub fn register_escrow_output(who: AccountId32, class_id: u64) -> (r: RegisterEscrowOutput)
    ensures
        r.who@ == ss58_encode(who@),
        r.class_id.0 == class_id,
{
    RegisterEscrowOutput { who: Account::from_account_id(who), class_id: ClassId(class_id) }
}

/// The answer of an escrow account's creation: its address, class, asset and owners'
/// addresses (the owners of the request are read as `bag::transform_owners_input` does).
pub fn create_escrow_output(escrow: AccountId32, class_id: u64, asset_id: u64, owners: Vec<AccountId32>) -> (r: CreateEscrowOutput)
    ensures
        r.escrow@ == ss58_encode(escrow@),
        r.class_id.0 == class_id,
        r.asset_id.0 == asset_id,
        r.owners@.len() == owners@.len(),
        forall|i: int| 0 <= i < r.owners@.len() ==> (#[trigger] r.owners@[i])@ == ss58_encode(owners@[i]@),
{
    CreateEscrowOutput {
        escrow: escrow.to_ss58_string(),
        class_id: ClassId(class_id),
        asset_id: AssetId(asset_id),
        owners: transform_owners_output(owners),
    }
}

/// The answer of an escrow's sweep.
pub fn sweep_assets_output(escrow: AccountId32, who: AccountId32, to: AccountId32) -> (r: SweepAssetsOutput)
    ensures
        r.escrow@ == ss58_encode(escrow@),
        r.who@ == ss58_encode(who@),
        r.to@ == ss58_encode(to@),
{
    SweepAssetsOutput { escrow: escrow.to_ss58_string(), who: Account::from_account_id(who), to: Account::from_account_id(to) }
}

/// The answer of a deposit into an escrow.
pub fn deposit_assets_output(escrow: AccountId32, who: AccountId32) -> (r: DepositAssetsOutput)
    ensures
        r.escrow@ == ss58_encode(escrow@),
        r.who@ == ss58_encode(who@),
{
    DepositAssetsOutput { escrow: escrow.to_ss58_string(), who: Account::from_account_id(who) }
}

} // verus!
