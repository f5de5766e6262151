//! The decisions of the storage-challenge queries: which challenges and claims the chain
//! holds, whether an account has a pending challenge, and which stored files still lack a
//! size that an account could report.

use vstd::prelude::*;

use crate::address::{ss58_decode, ss58_encode, AccountError, AccountId32};
use crate::fula::{lemma_report_stores, manifests_within_replication, runtime_stores, contains_storer, uploaders_from_runtime};
use crate::keys::{key_account, key_account_at, key_text_at};
use crate::primitives::{Account, Balance, Cid};
use crate::runtime;
use crate::scale::scale_decode_string;
use crate::fula::get_vec_cids_from_node;
use crate::primitives::{AssetId, ClassId, PoolId};
use crate::text::{utf8_or_empty, utf8_or_empty_spec};
use crate::types::challenge::{
    challenge_state_value, ChallengeStateValue, GenerateChallengeOutput, MintLaborTokensOutput, ProvideFileSizeOutput,
    VerifyFileSizeOutput, VerifyPendingChallengeOutput,
};

verus! {

/// Offset of the challenged (or claiming) account in a key of the challenge and claim maps.
pub const CHALLENGE_ACCOUNT_OFFSET: usize = 48;

/// Offset of the content identifier in a key of the manifest map (after the pool number
/// and the second key hash).
pub const MANIFEST_CID_OFFSET: usize = 68;

/// A challenge as the challenge query reports it.
#[derive(Clone, Debug)]
pub struct ChallengeData {
    pub challenger: Account,
    pub challenged: Account,
    pub state: ChallengeStateValue,
}

/// The labor-token claims of an account, as the claim query reports them.
#[derive(Clone, Debug)]
pub struct ClaimData {
    pub account: Account,
    pub minted_labor_tokens: Balance,
    pub expected_labor_tokens: Balance,
    pub minted_challenge_tokens: Balance,
}

#[derive(Clone, Debug)]
pub struct GetChallengesOutput {
    pub challenges: Vec<ChallengeData>,
}

#[derive(Clone, Debug)]
pub struct GetClaimDataOutput {
    pub claims: Vec<ClaimData>,
}

/// What is reported of a stored challenge, read from its key and its value.
pub open spec fn challenge_reports(d: ChallengeData, key: Seq<u8>, c: runtime::Challenge) -> bool {
    &&& d.challenger@ == ss58_encode(c.challenger@)
    &&& d.challenged@ == ss58_encode(key_account(key, 48))
    &&& d.state == challenge_state_value(c.challenge_state)
}

/// Whether every key is long enough to hold the account at offset 48.
pub open spec fn account_keys_long_enough<V>(entries: Seq<(Vec<u8>, V)>) -> bool {
    forall|i: int| 0 <= i < entries.len() ==> (#[trigger] entries[i]).0@.len() >= 80
}

/// The challenges that the challenge query reports: one per stored challenge, in order.
pub fn collect_challenges(entries: &Vec<(Vec<u8>, runtime::Challenge)>) -> (r: GetChallengesOutput)
    requires
        account_keys_long_enough(entries@),
    ensures
        r.challenges@.len() == entries@.len(),
        forall|i: int| 0 <= i < entries@.len() ==> challenge_reports(#[trigger] r.challenges@[i], entries@[i].0@, entries@[i].1),
{
    let mut result_array: Vec<ChallengeData> = Vec::new();
    let mut i: usize = 0;
    while i < entries.len()
        invariant
            i <= entries@.len(),
            account_keys_long_enough(entries@),
            result_array@.len() == i,
            forall|k: int| 0 <= k < i ==> challenge_reports(#[trigger] result_array@[k], entries@[k].0@, entries@[k].1),
        decreases entries@.len() - i,
    {
        let entry = &entries[i];
        assert(entries@[i as int].0@.len() >= 80);
        let challenged = key_account_at(entry.0.as_slice(), CHALLENGE_ACCOUNT_OFFSET);
        result_array.push(ChallengeData {
            challenger: Account::from_account_id(entry.1.challenger),
            challenged: Account::from_account_id(challenged),
            state: entry.1.challenge_state.into(),
        });
        i = i + 1;
    }
    GetChallengesOutput { challenges: result_array }
}

/// What is reported of the stored claims of an account, read from its key and its value.
pub open spec fn claim_reports(d: ClaimData, key: Seq<u8>, c: runtime::ClaimData) -> bool {
    &&& d.account@ == ss58_encode(key_account(key, 48))
    &&& d.minted_labor_tokens.0 == c.minted_labor_tokens
    &&& d.expected_labor_tokens.0 == c.expected_labor_tokens
    &&& d.minted_challenge_tokens.0 == c.challenge_tokens
}

/// The claims that the claim query reports: one per stored claim record, in order.
pub fn collect_claims(entries: &Vec<(Vec<u8>, runtime::ClaimData)>) -> (r: GetClaimDataOutput)
    requires
        account_keys_long_enough(entries@),
    ensures
        r.claims@.len() == entries@.len(),
        forall|i: int| 0 <= i < entries@.len() ==> claim_reports(#[trigger] r.claims@[i], entries@[i].0@, entries@[i].1),
{
    let mut result_array: Vec<ClaimData> = Vec::new();
    let mut i: usize = 0;
    while i < entries.len()
        invariant
            i <= entries@.len(),
            account_keys_long_enough(entries@),
            result_array@.len() == i,
            forall|k: int| 0 <= k < i ==> claim_reports(#[trigger] result_array@[k], entries@[k].0@, entries@[k].1),
        decreases entries@.len() - i,
    {
        let entry = &entries[i];
        assert(entries@[i as int].0@.len() >= 80);
        let account = key_account_at(entry.0.as_slice(), CHALLENGE_ACCOUNT_OFFSET);
        result_array.push(ClaimData {
            account: Account::from_account_id(account),
            minted_labor_tokens: Balance(entry.1.minted_labor_tokens),
            expected_labor_tokens: Balance(entry.1.expected_labor_tokens),
            minted_challenge_tokens: Balance(entry.1.challenge_tokens),
        });
        i = i + 1;
    }
    GetClaimDataOutput { claims: result_array }
}

/// Whether one of the challenge keys names the account with bytes `id`.
pub open spec fn challenge_pending(keys: Seq<Vec<u8>>, id: Seq<u8>) -> bool {
    exists|k: int| 0 <= k < keys.len() && key_account((#[trigger] keys[k])@, 48) == id
}

/// Whether `account` has a pending challenge among the challenge keys read under its
/// prefix. Fails exactly when `account` is not a valid address.
pub fn verify_pending_challenge(account: &Account, keys: &Vec<Vec<u8>>) -> (r: Result<VerifyPendingChallengeOutput, AccountError>)
    requires
        forall|k: int| 0 <= k < keys@.len() ==> (#[trigger] keys@[k])@.len() >= 80,
    ensures
        r is Err <==> ss58_decode(account@) is None,
        r matches Ok(o) ==> o.account@ == account@ && o.pending == challenge_pending(keys@, ss58_decode(account@)->0),
{
    let requested = AccountId32::try_from_account(account)?;
    let mut result = false;
    let mut i: usize = 0;
    while i < keys.len()
        invariant
            i <= keys@.len(),
            forall|k: int| 0 <= k < keys@.len() ==> (#[trigger] keys@[k])@.len() >= 80,
            result == exists|k: int| 0 <= k < i && key_account((#[trigger] keys@[k])@, 48) == requested@,
        decreases keys@.len() - i,
    {
        let key = keys[i].as_slice();
        assert(keys@[i as int]@.len() >= 80);
        let account_id = key_account_at(key, CHALLENGE_ACCOUNT_OFFSET);
        if account_id.same_as(&requested) {
            result = true;
        }
        i = i + 1;
    }
    Ok(VerifyPendingChallengeOutput { account: Account(account.0.clone()), pending: result })
}

/// Whether every manifest key is long enough and carries a readable content identifier
/// from offset 68 on.
pub open spec fn manifest_cid_keys_readable(entries: Seq<(Vec<u8>, runtime::Manifest)>) -> bool {
    forall|i: int|
        0 <= i < entries.len() ==> {
            &&& (#[trigger] entries[i]).0@.len() >= 68
            &&& scale_decode_string(entries[i].0@.subrange(68, entries[i].0@.len() as int)) is Some
        }
}

/// Whether a stored manifest is one whose size the account with bytes `id` should report:
/// the account stores it and no size is recorded yet.
pub open spec fn size_pending(id: Seq<u8>, m: runtime::Manifest) -> bool {
    runtime_stores(m.users_data@, id) && m.size is None
}

/// Whether `out` lists, in order, the content identifiers of the stored manifests whose
/// size the account with bytes `id` should report.
pub open spec fn size_pending_cids(out: Seq<Cid>, id: Seq<u8>, entries: Seq<(Vec<u8>, runtime::Manifest)>) -> bool
    decreases entries.len(),
{
    if entries.len() == 0 {
        out.len() == 0
    } else {
        let e = entries.last();
        if size_pending(id, e.1) {
            &&& out.len() > 0
            &&& scale_decode_string(e.0@.subrange(68, e.0@.len() as int)) == Some(out.last()@)
            &&& size_pending_cids(out.drop_last(), id, entries.drop_last())
        } else {
            size_pending_cids(out, id, entries.drop_last())
        }
    }
}

/// The files that `account` stores and whose size is not recorded yet, from the stored
/// manifests and their keys. Fails exactly when `account` is not a valid address.
pub fn verify_file_size(account: &Account, entries: &Vec<(Vec<u8>, runtime::Manifest)>) -> (r: Result<VerifyFileSizeOutput, AccountError>)
    requires
        manifest_cid_keys_readable(entries@),
        manifests_within_replication(entries@),
    ensures
        r is Err <==> ss58_decode(account@) is None,
        r matches Ok(o) ==> o.account@ == account@ && size_pending_cids(o.cids@, ss58_decode(account@)->0, entries@),
{
    let requested = AccountId32::try_from_account(account)?;
    let mut result_array: Vec<Cid> = Vec::new();
    let mut i: usize = 0;
    while i < entries.len()
        invariant
            i <= entries@.len(),
            manifest_cid_keys_readable(entries@),
            manifests_within_replication(entries@),
            ss58_decode(account@) == Some(requested@),
            size_pending_cids(result_array@, requested@, entries@.take(i as int)),
        decreases entries@.len() - i,
    {
        let entry = &entries[i];
        assert(entries@.take(i + 1).drop_last() =~= entries@.take(i as int));
        assert(entries@[i as int].0@.len() >= 68);
        let cid_id = match key_text_at(entry.0.as_slice(), MANIFEST_CID_OFFSET) {
            Some(text) => text,
            None => {
                assert(false);
                String::new()
            },
        };
        assert(crate::fula::uploaders_within_replication(entries@[i as int].1.users_data@));
        let uploaders_data = uploaders_from_runtime(&entry.1.users_data);
        proof {
            lemma_report_stores(uploaders_data@, entry.1.users_data@, requested@);
        }
        if let Ok(contained_value) = contains_storer(&uploaders_data, account) {
            if contained_value {
                if entry.1.size.is_none() {
                    let ghost before = result_array@;
                    result_array.push(Cid(cid_id));
                    assert(result_array@.drop_last() =~= before);
                }
            }
        }
        i = i + 1;
    }
    assert(entries@.take(entries@.len() as int) =~= entries@);
    Ok(VerifyFileSizeOutput { account: Account(account.0.clone()), cids: result_array })
}

/// Why a file-size query could not be answered.
#[derive(Clone, Copy, Debug, PartialEq, Eq, Structural)]
pub enum FileSizeError {
    /// The account is not a valid address.
    InvalidAccount,
    /// A manifest key is too short or does not carry a content identifier.
    UnreadableKey,
    /// A stored uploader lists more storers than it asked for.
    ReplicationExceeded,
}

/// The file-size query with its inputs checked first: the account, then that every key
/// can be read and every manifest keeps its storers within its replication factors
/// (where the query itself would abort).
pub fn try_verify_file_size(account: &Account, entries: &Vec<(Vec<u8>, runtime::Manifest)>) -> (r: Result<VerifyFileSizeOutput, FileSizeError>)
    ensures
        r == Err::<VerifyFileSizeOutput, FileSizeError>(FileSizeError::InvalidAccount) <==> ss58_decode(account@) is None,
        r == Err::<VerifyFileSizeOutput, FileSizeError>(FileSizeError::UnreadableKey) <==> (ss58_decode(account@) is Some
            && !manifest_cid_keys_readable(entries@)),
        r == Err::<VerifyFileSizeOutput, FileSizeError>(FileSizeError::ReplicationExceeded) <==> (ss58_decode(account@) is Some
            && manifest_cid_keys_readable(entries@) && !manifests_within_replication(entries@)),
        r matches Ok(o) ==> o.account@ == account@ && size_pending_cids(o.cids@, ss58_decode(account@)->0, entries@),
{
    if AccountId32::try_from_account(account).is_err() {
        return Err(FileSizeError::InvalidAccount);
    }
    let mut i: usize = 0;
    while i < entries.len()
        invariant
            i <= entries@.len(),
            ss58_decode(account@) is Some,
            forall|k: int|
                0 <= k < i ==> {
                    &&& (#[trigger] entries@[k]).0@.len() >= 68
                    &&& scale_decode_string(entries@[k].0@.subrange(68, entries@[k].0@.len() as int)) is Some
                },
        decreases entries@.len() - i,
    {
        let key = entries[i].0.as_slice();
        if key.len() < MANIFEST_CID_OFFSET {
            assert(!manifest_cid_keys_readable(entries@)) by {
                assert(entries@[i as int].0@.len() < 68);
            }
            return Err(FileSizeError::UnreadableKey);
        }
        if key_text_at(key, MANIFEST_CID_OFFSET).is_none() {
            assert(!manifest_cid_keys_readable(entries@)) by {
                assert(scale_decode_string(entries@[i as int].0@.subrange(68, entries@[i as int].0@.len() as int)) is None);
            }
            return Err(FileSizeError::UnreadableKey);
        }
        i = i + 1;
    }
    let mut i: usize = 0;
    while i < entries.len()
        invariant
            i <= entries@.len(),
            ss58_decode(account@) is Some,
            manifest_cid_keys_readable(entries@),
            forall|k: int| 0 <= k < i ==> crate::fula::uploaders_within_replication((#[trigger] entries@[k]).1.users_data@),
        decreases entries@.len() - i,
    {
        let users = &entries[i].1.users_data;
        let mut j: usize = 0;
        while j < users.len()
            invariant
                i < entries@.len(),
                ss58_decode(account@) is Some,
                manifest_cid_keys_readable(entries@),
                j <= users@.len(),
                *users == entries@[i as int].1.users_data,
                forall|k: int| 0 <= k < j ==> (#[trigger] users@[k]).storers@.len() <= users@[k].replication_factor,
            decreases users@.len() - j,
        {
            if users[j].storers.len() > users[j].replication_factor as usize {
                assert(!crate::fula::uploaders_within_replication(entries@[i as int].1.users_data@));
                return Err(FileSizeError::ReplicationExceeded);
            }
            j = j + 1;
        }
        i = i + 1;
    }
    match verify_file_size(account, entries) {
        Ok(o) => Ok(o),
        Err(_) => Err(FileSizeError::InvalidAccount),
    }
}

/// The event of a generated challenge.
#[derive(Clone, Debug)]
pub struct ChallengeEvent {
    pub challenger: AccountId32,
    pub challenged: AccountId32,
    pub cid: Vec<u8>,
    pub state: runtime::ChallengeState,
}

/// The answer of a generated challenge: both accounts, the file as text (empty when not
/// UTF-8), the state.
pub fn generate_challenge_output(event: &ChallengeEvent) -> (r: GenerateChallengeOutput)
    ensures
        r.challenger@ == ss58_encode(event.challenger@),
        r.challenged@ == ss58_encode(event.challenged@),
        r.cid@ == utf8_or_empty_spec(event.cid@),
        r.state == challenge_state_value(event.state),
{
    let cid = event.cid.clone();
    assert(cid@ =~= event.cid@);
    GenerateChallengeOutput {
        challenger: Account::from_account_id(event.challenger),
        challenged: Account::from_account_id(event.challenged),
        cid: Cid(utf8_or_empty(cid)),
        state: event.state.into(),
    }
}

/// The event of a verified challenge.
#[derive(Clone, Debug)]
pub struct VerifiedChallengesEvent {
    pub challenged: AccountId32,
    pub successful: Vec<Vec<u8>>,
    pub failed: Vec<Vec<u8>>,
}

/// The answer of a verified challenge: the account, and the files that passed and failed.
#[derive(Clone, Debug)]
pub struct VerifyChallengeOutput {
    pub account: Account,
    pub successful_cids: Vec<Cid>,
    pub failed_cids: Vec<Cid>,
}

/// The answer of a verified challenge.
pub fn verify_challenge_output(event: &VerifiedChallengesEvent) -> (r: VerifyChallengeOutput)
    ensures
        r.account@ == ss58_encode(event.challenged@),
        r.successful_cids@.len() == event.successful@.len(),
        forall|i: int| 0 <= i < r.successful_cids@.len() ==> (#[trigger] r.successful_cids@[i])@ == utf8_or_empty_spec(event.successful@[i]@),
        r.failed_cids@.len() == event.failed@.len(),
        forall|i: int| 0 <= i < r.failed_cids@.len() ==> (#[trigger] r.failed_cids@[i])@ == utf8_or_empty_spec(event.failed@[i]@),
{
    VerifyChallengeOutput {
        account: Account::from_account_id(event.challenged),
        successful_cids: get_vec_cids_from_node(event.successful.clone()),
        failed_cids: get_vec_cids_from_node(event.failed.clone()),
    }
}

/// The event of minted labor tokens.
#[derive(Clone, Copy, Debug)]
pub struct MintedLaborTokensEvent {
    pub account: AccountId32,
    pub class_id: u64,
    pub asset_id: u64,
    pub amount: u128,
}

/// The answer of minted labor tokens.
pub fn mint_labor_tokens_output(event: &MintedLaborTokensEvent) -> (r: MintLaborTokensOutput)
    ensures
        r.account@ == ss58_encode(event.account@),
        r.class_id.0 == event.class_id,
        r.asset_id.0 == event.asset_id,
        r.amount.0 == event.amount,
{
    MintLaborTokensOutput {
        account: Account::from_account_id(event.account),
        class_id: ClassId(event.class_id),
        asset_id: AssetId(event.asset_id),
        amount: Balance(event.amount),
    }
}

/// The event of reported file sizes.
#[derive(Clone, Debug)]
pub struct FileSizesEvent {
    pub account: AccountId32,
    pub pool_id: u32,
    pub cids: Vec<Vec<u8>>,
    pub sizes: Vec<u64>,
}

/// The answer of reported file sizes.
pub fn provide_file_size_output(event: &FileSizesEvent) -> (r: ProvideFileSizeOutput)
    ensures
        r.account@ == ss58_encode(event.account@),
        r.pool_id.0 == event.pool_id,
        r.cids@.len() == event.cids@.len(),
        forall|i: int| 0 <= i < r.cids@.len() ==> (#[trigger] r.cids@[i])@ == utf8_or_empty_spec(event.cids@[i]@),
        r.sizes@ == event.sizes@,
{
    let sizes = event.sizes.clone();
    assert(sizes@ =~= event.sizes@);
    ProvideFileSizeOutput {
        account: Account::from_account_id(event.account),
        pool_id: PoolId(event.pool_id),
        cids: get_vec_cids_from_node(event.cids.clone()),
        sizes,
    }
}

} // verus!
