//! The pool extrinsics: what each endpoint hands to the chain, and how the event the
//! chain emits is reported. The submission itself follows `tx::tx_step`.

use vstd::prelude::*;
use vstd::utf8::encode_utf8;

use crate::address::{ss58_decode, ss58_encode, AccountError, AccountId32};
use crate::pool::option_account_reports;
use crate::primitives::{transform_option_account_value, Account, PoolId};
use crate::response::RequestError;
use crate::text::{text_bytes, utf8_or_empty, utf8_or_empty_spec};
use crate::types::pool::{
    region_name, region_of_text, CancelJoinPoolOutput, CreatePoolInput, CreatePoolOutput, JoinPoolInput, JoinPoolOutput,
    LeavePoolOutput, Region, VoteInput, VoteOutput,
};

verus! {

/// The arguments of the `create` extrinsic of the pool pallet.
#[derive(Clone, Debug)]
pub struct CreatePoolCall {
    pub pool_name: Vec<u8>,
    pub region: Vec<u8>,
    pub peer_id: Vec<u8>,
}

/// The arguments of a pool's creation: the UTF-8 bytes of the name, the name of the
/// region the text reads as (an unknown text reads as the default region), and the UTF-8
/// bytes of the peer identifier.
pub fn create_pool_call(req: &CreatePoolInput) -> (r: CreatePoolCall)
    ensures
        r.pool_name@ == encode_utf8(req.pool_name@),
        r.region@ == encode_utf8(region_name(region_of_text(req.region@))),
        r.peer_id@ == encode_utf8(req.peer_id@),
{
    let region = Region::from(&req.region);
    CreatePoolCall {
        pool_name: text_bytes(req.pool_name.0.as_str()),
        region: region.to_bytes(),
        peer_id: text_bytes(req.peer_id.0.as_str()),
    }
}

/// The arguments of the `join` extrinsic.
#[derive(Clone, Debug)]
pub struct JoinPoolCall {
    pub pool_id: u32,
    pub peer_id: Vec<u8>,
}

/// The arguments of a join request.
pub fn join_pool_call(req: &JoinPoolInput) -> (r: JoinPoolCall)
    ensures
        r.pool_id == req.pool_id.0,
        r.peer_id@ == encode_utf8(req.peer_id@),
{
    JoinPoolCall { pool_id: req.pool_id.0, peer_id: text_bytes(req.peer_id.0.as_str()) }
}

/// The arguments of the `vote` extrinsic.
#[derive(Clone, Debug)]
pub struct VoteCall {
    pub pool_id: u32,
    pub account: AccountId32,
    pub vote_value: bool,
    pub peer_id: Vec<u8>,
}

/// The arguments of a vote on a join request; fails exactly when the candidate's address
/// is not valid SS58.
pub fn vote_call(req: &VoteInput) -> (r: Result<VoteCall, AccountError>)
    ensures
        r is Ok <==> ss58_decode(req.account@) is Some,
        r matches Ok(c) ==> {
            &&& c.pool_id == req.pool_id.0
            &&& ss58_decode(req.account@) == Some(c.account@)
            &&& c.vote_value == req.vote_value
            &&& c.peer_id@ == encode_utf8(req.peer_id@)
        },
{
    let account = AccountId32::try_from_account(&req.account)?;
    Ok(VoteCall {
        pool_id: req.pool_id.0,
        account,
        vote_value: req.vote_value,
        peer_id: text_bytes(req.peer_id.0.as_str()),
    })
}

/// The event of a pool's creation.
#[derive(Clone, Copy, Debug)]
pub struct PoolCreatedEvent {
    pub owner: Option<AccountId32>,
    pub pool_id: u32,
}

/// The answer of a pool's creation.
pub fn create_pool_output(event: &PoolCreatedEvent) -> (r: CreatePoolOutput)
    ensures
        option_account_reports(r.owner, event.owner),
        r.pool_id.0 == event.pool_id,
{
    CreatePoolOutput { owner: transform_option_account_value(event.owner), pool_id: PoolId(event.pool_id) }
}

/// An event naming an account and a pool: leaving a pool, asking to join, withdrawing
/// the request.
#[derive(Clone, Copy, Debug)]
pub struct PoolAccountEvent {
    pub account: AccountId32,
    pub pool_id: u32,
}

/// The answer of leaving a pool.
pub fn leave_pool_output(event: &PoolAccountEvent) -> (r: LeavePoolOutput)
    ensures
        r.account@ == ss58_encode(event.account@),
        r.pool_id.0 == event.pool_id,
{
    LeavePoolOutput { account: Account::from_account_id(event.account), pool_id: PoolId(event.pool_id) }
}

/// The answer of a join request.
pub fn join_pool_output(event: &PoolAccountEvent) -> (r: JoinPoolOutput)
    ensures
        r.account@ == ss58_encode(event.account@),
        r.pool_id.0 == event.pool_id,
{
    JoinPoolOutput { account: Account::from_account_id(event.account), pool_id: PoolId(event.pool_id) }
}

/// The answer of withdrawing a join request.
pub fn cancel_join_pool_output(event: &PoolAccountEvent) -> (r: CancelJoinPoolOutput)
    ensures
        r.account@ == ss58_encode(event.account@),
        r.pool_id.0 == event.pool_id,
{
    CancelJoinPoolOutput { account: Account::from_account_id(event.account), pool_id: PoolId(event.pool_id) }
}

/// The event of a vote.
#[derive(Clone, Debug)]
pub struct VotingResultEvent {
    pub account: AccountId32,
    pub pool_id: u32,
    pub result: Vec<u8>,
}

/// The answer of a vote: the result as text (empty when not UTF-8).
pub fn vote_output(event: &VotingResultEvent) -> (r: VoteOutput)
    ensures
        r.account@ == ss58_encode(event.account@),
        r.pool_id.0 == event.pool_id,
        r.result@ == utf8_or_empty_spec(event.result@),
{
    let bytes = event.result.clone();
    assert(bytes@ =~= event.result@);
    VoteOutput { account: Account::from_account_id(event.account), pool_id: PoolId(event.pool_id), result: utf8_or_empty(bytes) }
}

/// The pool extrinsics.
#[derive(Clone, Copy, Debug, PartialEq, Eq, Structural)]
pub enum PoolCall {
    Create,
    Leave,
    Join,
    CancelJoin,
    Vote,
}

/// The refusal of a pool extrinsic whose event was not found, naming the event it
/// looked for.
pub open spec fn pool_missing_event_text(call: PoolCall) -> Seq<char> {
    match call {
        PoolCall::Create => "Failed to find sugarfunge::pool::events::PoolCreated"@,
        PoolCall::Leave => "Failed to find sugarfunge::pool::events::ParticipantLeft"@,
        PoolCall::Join => "Failed to find sugarfunge::pool::events::ParticipantLeft"@,
        PoolCall::CancelJoin => "Failed to find sugarfunge::pool::events::RequestWithdrawn"@,
        PoolCall::Vote => "Failed to find sugarfunge::pool::events::Accepted"@,
    }
}

/// The refusal of a pool extrinsic whose event was not found.
pub fn pool_missing_event_error(call: PoolCall) -> (r: RequestError)
    ensures
        r.message@ == pool_missing_event_text(call),
        r.description@ == ""@,
{
    let message = match call {
        PoolCall::Create => "Failed to find sugarfunge::pool::events::PoolCreated",
        PoolCall::Leave => "Failed to find sugarfunge::pool::events::ParticipantLeft",
        PoolCall::Join => "Failed to find sugarfunge::pool::events::ParticipantLeft",
        PoolCall::CancelJoin => "Failed to find sugarfunge::pool::events::RequestWithdrawn",
        PoolCall::Vote => "Failed to find sugarfunge::pool::events::Accepted",
    };
    RequestError::new(message, "")
}

} // verus!
