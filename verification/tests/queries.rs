use sugarfunge_api::address::AccountId32;
use sugarfunge_api::challenge::{
    collect_challenges, collect_claims, try_verify_file_size, verify_file_size, verify_pending_challenge, FileSizeError,
};
use sugarfunge_api::fula::{
    collect_manifests, get_added_replication, verify_availability, verify_contains_storer, GetAllManifestsInput,
    UploaderData,
};
use sugarfunge_api::pool::collect_pools;
use sugarfunge_api::primitives::{Account, ReplicationFactor};
use sugarfunge_api::runtime::{Challenge, ChallengeState, ClaimData, Manifest, Pool, UploaderData as ChainUploader};
use sugarfunge_api::types::challenge::ChallengeStateValue;

const ALICE: &str = "5GrwvaEF5zXb26Fz9rcQpDWS57CtERHpNehXCPcNoHGKutQY";
const BOB: &str = "5FHneW46xGXgs5mUiveU4sbTyGBzmstUspZC92UhjJM694ty";

fn id_of(address: &str) -> AccountId32 {
    AccountId32::try_from_account(&Account(address.to_string())).unwrap()
}

/// A key with the account at offset 48.
fn account_key(id: &AccountId32) -> Vec<u8> {
    let mut key = vec![7u8; 48];
    key.extend_from_slice(&id.0);
    key
}

/// A SCALE-encoded string (compact length, then the bytes), for lengths below 64.
fn scale_text(s: &str) -> Vec<u8> {
    let mut out = vec![(s.len() as u8) << 2];
    out.extend_from_slice(s.as_bytes());
    out
}

/// A manifest key: pool number at 48, filler up to 68, then the content identifier.
fn manifest_key(pool: u32, cid: &str) -> Vec<u8> {
    let mut key = vec![0u8; 48];
    key.extend_from_slice(&pool.to_le_bytes());
    key.extend_from_slice(&[9u8; 16]);
    key.extend_from_slice(&scale_text(cid));
    key
}

fn manifest(storers: Vec<AccountId32>, size: Option<u64>) -> Manifest {
    Manifest {
        users_data: vec![ChainUploader { uploader: id_of(BOB), storers, replication_factor: 3 }],
        manifest_metadata: b"{\"job\":1}".to_vec(),
        size,
    }
}

#[test]
fn pending_challenge_is_found_by_account() {
    let keys = vec![account_key(&id_of(BOB)), account_key(&id_of(ALICE))];
    let out = verify_pending_challenge(&Account(ALICE.to_string()), &keys).unwrap();
    assert!(out.pending);
    assert_eq!(out.account.0, ALICE);
    let none = verify_pending_challenge(&Account(ALICE.to_string()), &vec![account_key(&id_of(BOB))]).unwrap();
    assert!(!none.pending);
    assert!(verify_pending_challenge(&Account("bad".to_string()), &keys).is_err());
}

#[test]
fn challenges_and_claims_are_reported_per_entry() {
    let entries = vec![(account_key(&id_of(ALICE)), Challenge { challenger: id_of(BOB), challenge_state: ChallengeState::Open })];
    let out = collect_challenges(&entries);
    assert_eq!(out.challenges.len(), 1);
    assert_eq!(out.challenges[0].challenged.0, ALICE);
    assert_eq!(out.challenges[0].challenger.0, BOB);
    assert_eq!(out.challenges[0].state, ChallengeStateValue::Open);
    let claims = vec![(
        account_key(&id_of(BOB)),
        ClaimData { minted_labor_tokens: 5, expected_labor_tokens: 9, challenge_tokens: 2 },
    )];
    let out = collect_claims(&claims);
    assert_eq!(out.claims[0].account.0, BOB);
    assert_eq!(out.claims[0].minted_labor_tokens.0, 5);
    assert_eq!(out.claims[0].expected_labor_tokens.0, 9);
    assert_eq!(out.claims[0].minted_challenge_tokens.0, 2);
}

#[test]
fn file_size_lists_stored_files_without_size() {
    let entries = vec![
        (manifest_key(1, "cid-a"), manifest(vec![id_of(ALICE)], None)),
        (manifest_key(1, "cid-b"), manifest(vec![id_of(ALICE)], Some(10))),
        (manifest_key(2, "cid-c"), manifest(vec![id_of(BOB)], None)),
        (manifest_key(2, "cid-d"), manifest(vec![id_of(BOB), id_of(ALICE)], None)),
    ];
    let out = verify_file_size(&Account(ALICE.to_string()), &entries).unwrap();
    let cids: Vec<String> = out.cids.iter().map(|c| c.0.clone()).collect();
    assert_eq!(cids, vec!["cid-a".to_string(), "cid-d".to_string()]);
    assert_eq!(out.account.0, ALICE);
}

#[test]
fn file_size_checks_its_inputs() {
    let good = vec![(manifest_key(1, "cid-a"), manifest(vec![id_of(ALICE)], None))];
    assert!(matches!(try_verify_file_size(&Account("bad".to_string()), &good), Err(FileSizeError::InvalidAccount)));
    let short = vec![(vec![0u8; 10], manifest(vec![], None))];
    assert!(matches!(try_verify_file_size(&Account(ALICE.to_string()), &short), Err(FileSizeError::UnreadableKey)));
    let mut crowded = manifest(vec![id_of(ALICE), id_of(BOB)], None);
    crowded.users_data[0].replication_factor = 1;
    let over = vec![(manifest_key(1, "cid-a"), crowded)];
    assert!(matches!(try_verify_file_size(&Account(ALICE.to_string()), &over), Err(FileSizeError::ReplicationExceeded)));
    assert_eq!(try_verify_file_size(&Account(ALICE.to_string()), &good).unwrap().cids.len(), 1);
}

#[test]
fn manifests_are_filtered_by_storer() {
    let entries = vec![
        (manifest_key(4, "a"), manifest(vec![id_of(ALICE)], None)),
        (manifest_key(5, "b"), manifest(vec![id_of(BOB)], Some(3))),
    ];
    let input = GetAllManifestsInput { pool_id: None, uploader: None, storer: Some(Account(BOB.to_string())) };
    let out = collect_manifests(&input, &entries);
    assert_eq!(out.len(), 1);
    assert_eq!(out[0].pool_id.0, 5);
    assert_eq!(out[0].size, Some(3));
    assert_eq!(out[0].uploaders[0].replication_available.0, 2);
    let all = GetAllManifestsInput { pool_id: None, uploader: None, storer: None };
    assert_eq!(collect_manifests(&all, &entries).len(), 2);
}

fn uploader(available: u16, storers: Vec<&str>) -> UploaderData {
    UploaderData {
        uploader: Account(BOB.to_string()),
        storers: storers.into_iter().map(|s| Account(s.to_string())).collect(),
        replication_available: ReplicationFactor(available),
    }
}

#[test]
fn replication_helpers() {
    assert!(!verify_availability(vec![uploader(0, vec![]), uploader(0, vec![])]));
    assert!(verify_availability(vec![uploader(0, vec![]), uploader(2, vec![])]));
    assert_eq!(get_added_replication(vec![uploader(1, vec![]), uploader(2, vec![])]).0, 3);
    assert_eq!(verify_contains_storer(vec![uploader(1, vec![ALICE])], Account(ALICE.to_string())), Ok(true));
    assert_eq!(verify_contains_storer(vec![uploader(1, vec![BOB])], Account(ALICE.to_string())), Ok(false));
    assert!(verify_contains_storer(vec![uploader(1, vec!["zz"])], Account(ALICE.to_string())).is_err());
}

#[test]
fn pools_are_filtered_by_region() {
    let pool = |region: &str| Pool {
        name: b"p".to_vec(),
        owner: Some(id_of(ALICE)),
        parent: None,
        participants: vec![id_of(BOB)],
        request_number: 0,
        region: region.as_bytes().to_vec(),
    };
    let mut key = vec![0u8; 48];
    key.extend_from_slice(&3u32.to_le_bytes());
    let entries = vec![(key.clone(), pool("EuropeZurich")), (key, pool("CanadaCalgary"))];
    let out = collect_pools(&Some("CanadaCalgary".to_string()), &entries);
    assert_eq!(out.len(), 1);
    assert_eq!(out[0].pool_id.0, 3);
    assert_eq!(out[0].region, "CanadaCalgary");
    assert_eq!(out[0].creator.as_ref().unwrap().0, ALICE);
    assert_eq!(out[0].participants[0].0, BOB);
    assert_eq!(collect_pools(&None, &entries).len(), 2);
}
