//! The decisions of the pool endpoints: which stored pools, join requests and users a
//! query selects, and what is reported of each.

use vstd::prelude::*;

use crate::address::{
    accounts_encode, accounts_from_ids, same_account, ss58_decode, ss58_encode, AccountError,
};
use crate::keys::{key_account, key_account_at, key_u32, key_u32_at};
use crate::primitives::{
    transform_option_account_value, transform_option_pool_value, Account, Name, PeerId, PoolId,
};
use crate::runtime;
use crate::text::{utf8_or_empty, utf8_or_empty_spec};
use crate::types::pool::{PoolData, PoolRequestData, PoolUserData};

verus! {

/// Offset of the pool number in a key of the `Pools` and `PoolRequests` maps.
pub const POOL_ID_OFFSET: usize = 48;

/// Offset of the account in a key of the `PoolRequests` map (after the pool number and
/// the hash of the account).
pub const REQUEST_ACCOUNT_OFFSET: usize = 68;

/// Offset of the account in a key of the `Users` map.
pub const USER_ACCOUNT_OFFSET: usize = 48;

/// Whether an optional value holds exactly `v`.
pub fn option_u32_is(o: Option<u32>, v: u32) -> (r: bool)
    ensures
        r == (o == Some(v)),
{
    match o {
        Some(x) => x == v,
        None => false,
    }
}

/// Whether an optional on-chain account and an optional address agree: both absent, or
/// the address is the SS58 text of the account.
pub open spec fn option_account_reports(a: Option<Account>, id: Option<crate::address::AccountId32>) -> bool {
    &&& (a is Some <==> id is Some)
    &&& (a matches Some(x) ==> x@ == ss58_encode(id->0@))
}

/// Whether an optional pool identifier reports an optional raw pool number.
pub open spec fn option_pool_reports(p: Option<PoolId>, raw: Option<u32>) -> bool {
    &&& (p is Some <==> raw is Some)
    &&& (p matches Some(x) ==> x.0 == raw->0)
}

/// What is reported of a stored pool: its number, its name and region as text (empty
/// when not UTF-8), its owner, its parent and its participants.
pub open spec fn pool_data_reports(d: PoolData, pool_id: int, p: runtime::Pool) -> bool {
    &&& d.pool_id.0 == pool_id
    &&& d.pool_name@ == utf8_or_empty_spec(p.name@)
    &&& d.region@ == utf8_or_empty_spec(p.region@)
    &&& option_account_reports(d.creator, p.owner)
    &&& option_pool_reports(d.parent, p.parent)
    &&& accounts_encode(d.participants@, p.participants@)
}

/// Whether a pool passes the region filter: no filter, or a region equal to the filter.
pub open spec fn pool_region_selected(region: Option<String>, p: runtime::Pool) -> bool {
    match region {
        Some(r) => r@ == utf8_or_empty_spec(p.region@),
        None => true,
    }
}

/// Whether `out` is what a pool query reports for the stored `entries` (key and pool), in
/// order: one item for each pool that passes the region filter.
pub open spec fn pools_reported(
    out: Seq<PoolData>,
    region: Option<String>,
    entries: Seq<(Vec<u8>, runtime::Pool)>,
) -> bool
    decreases entries.len(),
{
    if entries.len() == 0 {
        out.len() == 0
    } else {
        let e = entries.last();
        if pool_region_selected(region, e.1) {
            &&& out.len() > 0
            &&& pool_data_reports(out.last(), key_u32(e.0@, 48), e.1)
            &&& pools_reported(out.drop_last(), region, entries.drop_last())
        } else {
            pools_reported(out, region, entries.drop_last())
        }
    }
}

/// What is reported of a stored pool.
pub fn pool_data_from_runtime(pool_id: u32, pool: &runtime::Pool) -> (r: PoolData)
    ensures
        pool_data_reports(r, pool_id as int, *pool),
{
    let name = pool.name.clone();
    let region = pool.region.clone();
    assert(name@ =~= pool.name@);
    assert(region@ =~= pool.region@);
    PoolData {
        pool_id: PoolId(pool_id),
        creator: transform_option_account_value(pool.owner),
        pool_name: Name(utf8_or_empty(name)),
        region: utf8_or_empty(region),
        parent: transform_option_pool_value(pool.parent),
        participants: accounts_from_ids(&pool.participants),
    }
}

/// Whether a pool lies in the region a query asks for.
pub fn pool_region_matches(region: &Option<String>, pool: &runtime::Pool) -> (r: bool)
    ensures
        r == pool_region_selected(*region, *pool),
{
    match region {
        Some(r) => {
            let bytes = pool.region.clone();
            assert(bytes@ =~= pool.region@);
            let pool_region = utf8_or_empty(bytes);
            *r == pool_region
        },
        None => true,
    }
}

/// The pools that a pool query reports, from the stored pools and their keys.
pub fn collect_pools(region: &Option<String>, entries: &Vec<(Vec<u8>, runtime::Pool)>) -> (r: Vec<PoolData>)
    requires
        forall|i: int| 0 <= i < entries@.len() ==> (#[trigger] entries@[i]).0@.len() >= 52,
    ensures
        pools_reported(r@, *region, entries@),
{
    let mut out: Vec<PoolData> = Vec::new();
    let mut i: usize = 0;
    while i < entries.len()
        invariant
            i <= entries@.len(),
            forall|k: int| 0 <= k < entries@.len() ==> (#[trigger] entries@[k]).0@.len() >= 52,
            pools_reported(out@, *region, entries@.take(i as int)),
        decreases entries@.len() - i,
    {
        let entry = &entries[i];
        assert(entries@.take(i + 1).drop_last() =~= entries@.take(i as int));
        if pool_region_matches(region, &entry.1) {
            let pool_id = key_u32_at(entry.0.as_slice(), POOL_ID_OFFSET);
            let data = pool_data_from_runtime(pool_id, &entry.1);
            let ghost before = out@;
            out.push(data);
            assert(out@.drop_last() =~= before);
        }
        i = i + 1;
    }
    assert(entries@.take(entries@.len() as int) =~= entries@);
    out
}

/// What is reported of a stored join request: the pool and account from its key, the
/// voters, the count of positive votes and the peer identifier as text.
pub open spec fn pool_request_reports(d: PoolRequestData, key: Seq<u8>, req: runtime::PoolRequest) -> bool {
    &&& d.pool_id.0 == key_u32(key, 48)
    &&& d.account@ == ss58_encode(key_account(key, 68))
    &&& accounts_encode(d.voted@, req.voted@)
    &&& d.positive_votes == req.positive_votes
    &&& d.peer_id@ == utf8_or_empty_spec(req.peer_id@)
}

/// Whether a join request passes the account filter: no filter, or a filter naming the
/// account of the request.
pub open spec fn pool_request_selected(account: Option<Account>, key: Seq<u8>) -> bool {
    match account {
        Some(a) => ss58_decode(a@) == Some(key_account(key, 68)),
        None => true,
    }
}

/// Whether an optional account filter is an address that is not valid SS58.
pub open spec fn account_filter_invalid(account: Option<Account>) -> bool {
    account matches Some(a) && ss58_decode(a@) is None
}

/// Whether `out` is what a join-request query reports for the stored `entries`.
pub open spec fn pool_requests_reported(
    out: Seq<PoolRequestData>,
    account: Option<Account>,
    entries: Seq<(Vec<u8>, runtime::PoolRequest)>,
) -> bool
    decreases entries.len(),
{
    if entries.len() == 0 {
        out.len() == 0
    } else {
        let e = entries.last();
        if pool_request_selected(account, e.0@) {
            &&& out.len() > 0
            &&& pool_request_reports(out.last(), e.0@, e.1)
            &&& pool_requests_reported(out.drop_last(), account, entries.drop_last())
        } else {
            pool_requests_reported(out, account, entries.drop_last())
        }
    }
}

/// What is reported of a stored join request.
pub fn pool_request_from_runtime(key: &[u8], request: &runtime::PoolRequest) -> (r: PoolRequestData)
    requires
        key@.len() >= 100,
    ensures
        pool_request_reports(r, key@, *request),
        ss58_decode(r.account@) == Some(key_account(key@, 68)),
{
    let pool_id = key_u32_at(key, POOL_ID_OFFSET);
    let account = Account::from_account_id(key_account_at(key, REQUEST_ACCOUNT_OFFSET));
    let peer = request.peer_id.clone();
    assert(peer@ =~= request.peer_id@);
    PoolRequestData {
        pool_id: PoolId(pool_id),
        account,
        voted: accounts_from_ids(&request.voted),
        positive_votes: request.positive_votes,
        peer_id: PeerId(utf8_or_empty(peer)),
    }
}

/// The join requests that a query reports, from the stored requests and their keys.
/// Fails when the account filter is not a valid address and there is a request to
/// compare it with.
pub fn collect_pool_requests(
    account: &Option<Account>,
    entries: &Vec<(Vec<u8>, runtime::PoolRequest)>,
) -> (r: Result<Vec<PoolRequestData>, AccountError>)
    requires
        forall|i: int| 0 <= i < entries@.len() ==> (#[trigger] entries@[i]).0@.len() >= 100,
    ensures
        r is Err <==> (account_filter_invalid(*account) && entries@.len() > 0),
        r matches Ok(out) ==> pool_requests_reported(out@, *account, entries@),
{
    let mut out: Vec<PoolRequestData> = Vec::new();
    let mut i: usize = 0;
    while i < entries.len()
        invariant
            i <= entries@.len(),
            forall|k: int| 0 <= k < entries@.len() ==> (#[trigger] entries@[k]).0@.len() >= 100,
            account_filter_invalid(*account) ==> i == 0,
            pool_requests_reported(out@, *account, entries@.take(i as int)),
        decreases entries@.len() - i,
    {
        let entry = &entries[i];
        assert(entries@.take(i + 1).drop_last() =~= entries@.take(i as int));
        let data = pool_request_from_runtime(entry.0.as_slice(), &entry.1);
        let selected = match account {
            Some(filter) => same_account(&data.account, filter)?,
            None => true,
        };
        if selected {
            let ghost before = out@;
            out.push(data);
            assert(out@.drop_last() =~= before);
        }
        i = i + 1;
    }
    assert(entries@.take(entries@.len() as int) =~= entries@);
    Ok(out)
}

/// Whether a user passes the pool filters: with both filters, a user of the pool or a
/// user asking to join the requested pool; with one, that one; with none, every user.
pub open spec fn pool_user_selected(
    pool_id: Option<PoolId>,
    request_pool_id: Option<PoolId>,
    user: runtime::User,
) -> bool {
    match (pool_id, request_pool_id) {
        (Some(p), Some(q)) => user.request_pool_id == Some(q.0) || user.pool_id == Some(p.0),
        (Some(p), None) => user.pool_id == Some(p.0),
        (None, Some(q)) => user.request_pool_id == Some(q.0),
        (None, None) => true,
    }
}

/// Whether a user passes all the filters of a user query.
pub open spec fn pool_user_passes(
    account: Option<Account>,
    pool_id: Option<PoolId>,
    request_pool_id: Option<PoolId>,
    key: Seq<u8>,
    user: runtime::User,
) -> bool {
    &&& pool_user_selected(pool_id, request_pool_id, user)
    &&& (account matches Some(a) ==> ss58_decode(a@) == Some(key_account(key, 48)))
}

/// What is reported of a stored user: the account of its key, its pools and its peer.
pub open spec fn pool_user_reports(d: PoolUserData, key: Seq<u8>, user: runtime::User) -> bool {
    &&& d.account@ == ss58_encode(key_account(key, 48))
    &&& option_pool_reports(d.pool_id, user.pool_id)
    &&& option_pool_reports(d.request_pool_id, user.request_pool_id)
    &&& d.peer_id@ == utf8_or_empty_spec(user.peer_id@)
}

/// Whether `out` is what a user query reports for the stored `entries`.
pub open spec fn pool_users_reported(
    out: Seq<PoolUserData>,
    account: Option<Account>,
    pool_id: Option<PoolId>,
    request_pool_id: Option<PoolId>,
    entries: Seq<(Vec<u8>, runtime::User)>,
) -> bool
    decreases entries.len(),
{
    if entries.len() == 0 {
        out.len() == 0
    } else {
        let e = entries.last();
        if pool_user_passes(account, pool_id, request_pool_id, e.0@, e.1) {
            &&& out.len() > 0
            &&& pool_user_reports(out.last(), e.0@, e.1)
            &&& pool_users_reported(out.drop_last(), account, pool_id, request_pool_id, entries.drop_last())
        } else {
            pool_users_reported(out, account, pool_id, request_pool_id, entries.drop_last())
        }
    }
}

/// Whether a user passes the pool filters of a user query.
pub fn pool_user_matches(
    pool_id: Option<PoolId>,
    request_pool_id: Option<PoolId>,
    user: &runtime::User,
) -> (r: bool)
    ensures
        r == pool_user_selected(pool_id, request_pool_id, *user),
{
    let mut meet_requirements = true;
    if let Some(p) = pool_id {
        meet_requirements = meet_requirements && option_u32_is(user.pool_id, p.0);
    }
    if let Some(q) = request_pool_id {
        meet_requirements = meet_requirements && option_u32_is(user.request_pool_id, q.0);
    }
    if let (Some(p), Some(q)) = (pool_id, request_pool_id) {
        meet_requirements = option_u32_is(user.request_pool_id, q.0) || option_u32_is(user.pool_id, p.0);
    }
    meet_requirements
}

/// The users that a user query reports, from the stored users and their keys. Fails
/// when the account filter is not a valid address and there is a user to compare it with.
pub fn collect_pool_users(
    account: &Option<Account>,
    pool_id: Option<PoolId>,
    request_pool_id: Option<PoolId>,
    entries: &Vec<(Vec<u8>, runtime::User)>,
) -> (r: Result<Vec<PoolUserData>, AccountError>)
    requires
        forall|i: int| 0 <= i < entries@.len() ==> (#[trigger] entries@[i]).0@.len() >= 80,
    ensures
        r is Err <==> (account_filter_invalid(*account) && entries@.len() > 0),
        r matches Ok(out) ==> pool_users_reported(out@, *account, pool_id, request_pool_id, entries@),
{
    let mut out: Vec<PoolUserData> = Vec::new();
    let mut i: usize = 0;
    while i < entries.len()
        invariant
            i <= entries@.len(),
            forall|k: int| 0 <= k < entries@.len() ==> (#[trigger] entries@[k]).0@.len() >= 80,
            account_filter_invalid(*account) ==> i == 0,
            pool_users_reported(out@, *account, pool_id, request_pool_id, entries@.take(i as int)),
        decreases entries@.len() - i,
    {
        let entry = &entries[i];
        assert(entries@.take(i + 1).drop_last() =~= entries@.take(i as int));
        let user_account = Account::from_account_id(key_account_at(entry.0.as_slice(), USER_ACCOUNT_OFFSET));
        let mut meet_requirements = pool_user_matches(pool_id, request_pool_id, &entry.1);
        if let Some(filter) = account {
            let same = same_account(filter, &user_account)?;
            meet_requirements = meet_requirements && same;
        }
        if meet_requirements {
            let peer = entry.1.peer_id.clone();
            assert(peer@ =~= entry.1.peer_id@);
            let data = PoolUserData {
                account: user_account,
                pool_id: transform_option_pool_value(entry.1.pool_id),
                request_pool_id: transform_option_pool_value(entry.1.request_pool_id),
                peer_id: PeerId(utf8_or_empty(peer)),
            };
            let ghost before = out@;
            out.push(data);
            assert(out@.drop_last() =~= before);
        }
        i = i + 1;
    }
    assert(entries@.take(entries@.len() as int) =~= entries@);
    Ok(out)
}


/// Whether a stored user is one that pool filters `p` and `q` ask for: a member of `p`
/// or a user asking to join `q`, for the filters that are given; any user when none is.
pub open spec fn user_in_filtered_pools(user: runtime::User, p: Option<PoolId>, q: Option<PoolId>) -> bool {
    ||| (p is None && q is None)
    ||| (p matches Some(pp) && user.pool_id == Some(pp.0))
    ||| (q matches Some(qq) && user.request_pool_id == Some(qq.0))
}

/// The number of stored users that pool filters `p` and `q` ask for.
pub open spec fn count_users_in_filtered_pools(
    entries: Seq<(Vec<u8>, runtime::User)>,
    p: Option<PoolId>,
    q: Option<PoolId>,
) -> nat
    decreases entries.len(),
{
    if entries.len() == 0 {
        0
    } else {
        count_users_in_filtered_pools(entries.drop_last(), p, q) + if user_in_filtered_pools(entries.last().1, p, q) {
            1nat
        } else {
            0nat
        }
    }
}

/// A user query with pool filter `p` and requested-pool filter `q` (and no account
/// filter) reports one user for each stored user that is a member of `p` or asks to join
/// `q` (with both filters given, either suffices, whatever the other pool field holds);
/// and each reported user is a member of `p` or asks to join `q`.
pub proof fn lemma_pool_filters_report_members_or_requesters(
    out: Seq<PoolUserData>,
    p: Option<PoolId>,
    q: Option<PoolId>,
    entries: Seq<(Vec<u8>, runtime::User)>,
)
    requires
        pool_users_reported(out, None, p, q, entries),
    ensures
        out.len() == count_users_in_filtered_pools(entries, p, q),
        forall|j: int|
            0 <= j < out.len() ==> {
                ||| (p is None && q is None)
                ||| (p matches Some(pp) && (#[trigger] out[j]).pool_id matches Some(x) && x.0 == pp.0)
                ||| (q matches Some(qq) && out[j].request_pool_id matches Some(y) && y.0 == qq.0)
            },
    decreases entries.len(),
{
    if entries.len() > 0 {
        let e = entries.last();
        if pool_user_passes(None, p, q, e.0@, e.1) {
            lemma_pool_filters_report_members_or_requesters(out.drop_last(), p, q, entries.drop_last());
            assert forall|j: int| 0 <= j < out.len() implies {
                ||| (p is None && q is None)
                ||| (p matches Some(pp) && (#[trigger] out[j]).pool_id matches Some(x) && x.0 == pp.0)
                ||| (q matches Some(qq) && out[j].request_pool_id matches Some(y) && y.0 == qq.0)
            } by {
                if j < out.len() - 1 {
                    assert(out[j] == out.drop_last()[j]);
                }
            }
        } else {
            lemma_pool_filters_report_members_or_requesters(out, p, q, entries.drop_last());
        }
    }
}

} // verus!
