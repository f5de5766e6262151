//! The decisions of the bag endpoints: the owners a bag is created with, the contents a
//! deposit hands to the chain, and the answers built from the chain's events.

use vstd::prelude::*;

use crate::address::{ss58_decode, ss58_encode, AccountError, AccountId32};
use crate::primitives::{Account, AssetId, Balance, ClassId};
use crate::response::RequestError;
use crate::types::bag::{CreateOutput, DepositOutput, RegisterOutput, SweepOutput};

verus! {

/// Whether every owner text is a valid SS58 address.
pub open spec fn owners_valid(owners: Seq<String>) -> bool {
    forall|i: int| 0 <= i < owners.len() ==> ss58_decode((#[trigger] owners[i])@) is Some
}

/// Whether `ids` are the accounts the owner texts name, in order.
pub open spec fn owners_decode(ids: Seq<AccountId32>, owners: Seq<String>) -> bool {
    &&& ids.len() == owners.len()
    &&& forall|i: int| 0 <= i < ids.len() ==> ss58_decode(owners[i]@) == Some((#[trigger] ids[i])@)
}

/// The accounts of the owner texts; fails, at the first text that is not a valid
/// address, exactly when there is one.
pub fn try_transform_owners_input(in_owners: &Vec<String>) -> (r: Result<Vec<AccountId32>, AccountError>)
    ensures
        r is Ok <==> owners_valid(in_owners@),
        r matches Ok(ids) ==> owners_decode(ids@, in_owners@),
{
    let mut out: Vec<AccountId32> = Vec::new();
    let mut i: usize = 0;
    while i < in_owners.len()
        invariant
            i <= in_owners@.len(),
            out@.len() == i,
            forall|k: int| 0 <= k < i ==> ss58_decode(in_owners@[k]@) == Some((#[trigger] out@[k])@),
        decreases in_owners@.len() - i,
    {
        let id = match AccountId32::try_from_account(&Account(in_owners[i].clone())) {
            Ok(id) => id,
            Err(e) => {
                assert(ss58_decode(in_owners@[i as int]@) is None);
                return Err(e);
            },
        };
        out.push(id);
        i = i + 1;
    }
    proof {
        assert forall|k: int| 0 <= k < in_owners@.len() implies ss58_decode((#[trigger] in_owners@[k])@) is Some by {
            assert(ss58_decode(in_owners@[k]@) == Some(out@[k]@));
        }
    }
    Ok(out)
}

/// The accounts of owner texts that are all valid addresses.
pub fn transform_owners_input(in_owners: Vec<String>) -> (r: Vec<AccountId32>)
    requires
        owners_valid(in_owners@),
    ensures
        owners_decode(r@, in_owners@),
{
    match try_transform_owners_input(&in_owners) {
        Ok(ids) => ids,
        Err(_) => {
            assert(false);
            Vec::new()
        },
    }
}

/// The SS58 text of each owner, in order.
pub fn transform_owners_output(in_owners: Vec<AccountId32>) -> (r: Vec<String>)
    ensures
        r@.len() == in_owners@.len(),
        forall|i: int| 0 <= i < r@.len() ==> (#[trigger] r@[i])@ == ss58_encode(in_owners@[i]@),
        forall|i: int| 0 <= i < r@.len() ==> ss58_decode((#[trigger] r@[i])@) == Some(in_owners@[i]@),
{
    let mut out: Vec<String> = Vec::new();
    let mut i: usize = 0;
    while i < in_owners.len()
        invariant
            i <= in_owners@.len(),
            out@.len() == i,
            forall|k: int| 0 <= k < i ==> (#[trigger] out@[k])@ == ss58_encode(in_owners@[k]@),
            forall|k: int| 0 <= k < i ==> ss58_decode((#[trigger] out@[k])@) == Some(in_owners@[k]@),
        decreases in_owners@.len() - i,
    {
        out.push(in_owners[i].to_ss58_string());
        i = i + 1;
    }
    out
}

/// Reading back the texts of some owners gives the same owners: the output conversion
/// makes valid addresses, and the input conversion of them names the accounts one started
/// from.
pub proof fn lemma_owners_round_trip(ids: Seq<AccountId32>, texts: Seq<String>, back: Seq<AccountId32>)
    requires
        texts.len() == ids.len(),
        forall|i: int| 0 <= i < texts.len() ==> ss58_decode((#[trigger] texts[i])@) == Some(ids[i]@),
        owners_decode(back, texts),
    ensures
        owners_valid(texts),
        back.len() == ids.len(),
        forall|i: int| 0 <= i < ids.len() ==> (#[trigger] back[i])@ == ids[i]@,
{
    assert forall|i: int| 0 <= i < ids.len() implies (#[trigger] back[i])@ == ids[i]@ by {
        assert(ss58_decode(texts[i]@) == Some(back[i]@));
    }
}

/// The event of a bag class's registration.
#[derive(Clone, Copy, Debug)]
pub struct BagRegisterEvent {
    pub who: AccountId32,
    pub class_id: u64,
}

/// The answer of a bag class's registration.
pub fn register_output(event: &BagRegisterEvent) -> (r: RegisterOutput)
    ensures
        r.who@ == ss58_encode(event.who@),
        r.class_id.0 == event.class_id,
{
    RegisterOutput { who: Account::from_account_id(event.who), class_id: ClassId(event.class_id) }
}

/// The event of a bag's creation.
#[derive(Clone, Debug)]
pub struct BagCreatedEvent {
    pub bag: AccountId32,
    pub class_id: u64,
    pub asset_id: u64,
    pub owners: Vec<AccountId32>,
}

/// The answer of a bag's creation: its account, class, asset and the owners' addresses.
pub fn create_output(event: &BagCreatedEvent) -> (r: CreateOutput)
    ensures
        r.bag@ == ss58_encode(event.bag@),
        r.class_id.0 == event.class_id,
        r.asset_id.0 == event.asset_id,
        r.owners@.len() == event.owners@.len(),
        forall|i: int| 0 <= i < r.owners@.len() ==> (#[trigger] r.owners@[i])@ == ss58_encode(event.owners@[i]@),
{
    let texts = transform_owners_output(event.owners.clone());
    let mut owners: Vec<Account> = Vec::new();
    let mut i: usize = 0;
    while i < texts.len()
        invariant
            i <= texts@.len(),
            texts@.len() == event.owners@.len(),
            forall|k: int| 0 <= k < texts@.len() ==> (#[trigger] texts@[k])@ == ss58_encode(event.owners@[k]@),
            owners@.len() == i,
            forall|k: int| 0 <= k < i ==> (#[trigger] owners@[k])@ == texts@[k]@,
        decreases texts@.len() - i,
    {
        owners.push(Account(texts[i].clone()));
        i = i + 1;
    }
    CreateOutput {
        bag: Account::from_account_id(event.bag),
        class_id: ClassId(event.class_id),
        asset_id: AssetId(event.asset_id),
        owners,
    }
}

/// The event of a bag's sweep.
#[derive(Clone, Copy, Debug)]
pub struct BagSweepEvent {
    pub bag: AccountId32,
    pub who: AccountId32,
    pub to: AccountId32,
}

/// The answer of a bag's sweep.
pub fn sweep_output(event: &BagSweepEvent) -> (r: SweepOutput)
    ensures
        r.bag@ == ss58_encode(event.bag@),
        r.who@ == ss58_encode(event.who@),
        r.to@ == ss58_encode(event.to@),
{
    SweepOutput {
        bag: Account::from_account_id(event.bag),
        who: Account::from_account_id(event.who),
        to: Account::from_account_id(event.to),
    }
}

/// The event of a deposit into a bag.
#[derive(Clone, Copy, Debug)]
pub struct BagDepositEvent {
    pub bag: AccountId32,
    pub who: AccountId32,
}

/// The answer of a deposit into a bag.
pub fn deposit_output(event: &BagDepositEvent) -> (r: DepositOutput)
    ensures
        r.bag@ == ss58_encode(event.bag@),
        r.who@ == ss58_encode(event.who@),
{
    DepositOutput { bag: Account::from_account_id(event.bag), who: Account::from_account_id(event.who) }
}

/// The bag extrinsics.
#[derive(Clone, Copy, Debug, PartialEq, Eq, Structural)]
pub enum BagCall {
    Register,
    Create,
    Sweep,
    Deposit,
}

/// The refusal of a bag extrinsic whose event was not found.
pub fn bag_missing_event_error(call: BagCall) -> (r: RequestError)
    ensures
        call == BagCall::Register ==> r.message@ == "Failed to find sugarfunge::bag::events::Register"@,
        call == BagCall::Create ==> r.message@ == "Failed to find sugarfunge::bag::events::Created"@,
        call == BagCall::Sweep ==> r.message@ == "Failed to find sugarfunge::bag::events::Sweep"@,
        call == BagCall::Deposit ==> r.message@ == "Failed to find sugarfunge::bag::events::Deposit"@,
        r.description@ == ""@,
{
    let message = match call {
        BagCall::Register => "Failed to find sugarfunge::bag::events::Register",
        BagCall::Create => "Failed to find sugarfunge::bag::events::Created",
        BagCall::Sweep => "Failed to find sugarfunge::bag::events::Sweep",
        BagCall::Deposit => "Failed to find sugarfunge::bag::events::Deposit",
    };
    RequestError::new(message, "")
}

} // verus!
