use parity_scale_codec::Encode;
use sugarfunge_api::address::AccountId32;
use sugarfunge_api::fula::GetAllManifestsInput;
use sugarfunge_api::primitives::Account;
use sugarfunge_api::stored::{
    collect_available_manifests_raw, collect_manifests_raw, collect_manifests_storer_data_raw, collect_pool_requests_raw,
    collect_pool_users_raw, collect_pools_raw, StoredValueError,
};
use sugarfunge_api::types::challenge::ChallengeStateValue;

const ALICE: &str = "5GrwvaEF5zXb26Fz9rcQpDWS57CtERHpNehXCPcNoHGKutQY";
const BOB: &str = "5FHneW46xGXgs5mUiveU4sbTyGBzmstUspZC92UhjJM694ty";

fn id_of(address: &str) -> [u8; 32] {
    AccountId32::try_from_account(&Account(address.to_string())).unwrap().0
}

/// A key with a pool number at 48 and filler up to `len`.
fn pool_key(pool: u32, len: usize) -> Vec<u8> {
    let mut key = vec![0u8; 48];
    key.extend_from_slice(&pool.to_le_bytes());
    key.resize(len, 9);
    key
}

fn manifest_value(storers: Vec<[u8; 32]>, factor: u16) -> Vec<u8> {
    let users: Vec<([u8; 32], Vec<[u8; 32]>, u16)> = vec![(id_of(BOB), storers, factor)];
    (users, b"{\"job\":1}".to_vec(), Some(10u64)).encode()
}

fn no_filters() -> GetAllManifestsInput {
    GetAllManifestsInput { pool_id: None, uploader: None, storer: None }
}

#[test]
fn raw_manifests_are_decoded_and_reported() {
    let entries = vec![(pool_key(5, 60), manifest_value(vec![id_of(ALICE)], 3))];
    let out = collect_manifests_raw(&no_filters(), &entries).unwrap();
    assert_eq!(out.len(), 1);
    assert_eq!(out[0].pool_id.0, 5);
    assert_eq!(out[0].uploaders[0].uploader.0, BOB);
    assert_eq!(out[0].uploaders[0].storers[0].0, ALICE);
    assert_eq!(out[0].uploaders[0].replication_available.0, 2);
    assert_eq!(out[0].manifest_metadata, b"{\"job\":1}".to_vec());
    assert_eq!(out[0].size, Some(10));
    let by_storer = GetAllManifestsInput { pool_id: None, uploader: None, storer: Some(Account(BOB.to_string())) };
    assert_eq!(collect_manifests_raw(&by_storer, &entries).unwrap().len(), 0);
}

#[test]
fn raw_manifest_errors_name_the_first_bad_entry() {
    let good = (pool_key(5, 60), manifest_value(vec![], 3));
    let short = (pool_key(5, 51), manifest_value(vec![], 3));
    let undecodable = (pool_key(5, 60), vec![4u8]);
    let exceeded = (pool_key(5, 60), manifest_value(vec![id_of(ALICE), id_of(BOB)], 1));
    assert_eq!(collect_manifests_raw(&no_filters(), &vec![good.clone(), short.clone()]).unwrap_err(), StoredValueError::ShortKey);
    assert_eq!(
        collect_manifests_raw(&no_filters(), &vec![undecodable.clone(), short]).unwrap_err(),
        StoredValueError::UndecodableValue
    );
    assert_eq!(collect_manifests_raw(&no_filters(), &vec![good, exceeded]).unwrap_err(), StoredValueError::ReplicationExceeded);
}

#[test]
fn raw_available_manifests_report_missing_storers() {
    let entries = vec![
        (pool_key(3, 60), manifest_value(vec![id_of(ALICE)], 3)),
        (pool_key(4, 60), manifest_value(vec![id_of(ALICE)], 1)),
    ];
    let out = collect_available_manifests_raw(&entries).unwrap();
    assert_eq!(out.len(), 1);
    assert_eq!(out[0].pool_id.0, 3);
    assert_eq!(out[0].replication_available.0, 2);
    let users: Vec<([u8; 32], Vec<[u8; 32]>, u16)> = vec![(id_of(BOB), vec![], 65535), (id_of(ALICE), vec![], 1)];
    let big = (pool_key(1, 60), (users, Vec::<u8>::new(), None::<u64>).encode());
    assert_eq!(collect_available_manifests_raw(&vec![big]).unwrap_err(), StoredValueError::ReplicationOverflow);
}

/// A storer key: pool at 48, the storer account at 68, the content identifier at 116.
fn storer_key(pool: u32, account: [u8; 32], cid: &str) -> Vec<u8> {
    let mut key = pool_key(pool, 68);
    key.extend_from_slice(&account);
    key.resize(116, 1);
    key.extend_from_slice(&cid.to_string().encode());
    key
}

#[test]
fn raw_storer_data_maps_the_state_index() {
    let value = (4u16, 1u16, -2i32, 1u8).encode();
    let entries = vec![(storer_key(2, id_of(ALICE), "bafy"), value)];
    let out = collect_manifests_storer_data_raw(&None, &entries).unwrap();
    assert_eq!(out.len(), 1);
    assert_eq!(out[0].active_cycles, 4);
    assert_eq!(out[0].missed_cycles, 1);
    assert_eq!(out[0].active_days, -2);
    assert_eq!(out[0].pool_id.0, 2);
    assert_eq!(out[0].account.0, ALICE);
    assert_eq!(out[0].cid.0, "bafy");
    assert_eq!(out[0].state, ChallengeStateValue::Successful);
    let unknown = vec![(storer_key(2, id_of(ALICE), "bafy"), (4u16, 1u16, 0i32, 3u8).encode())];
    assert_eq!(collect_manifests_storer_data_raw(&None, &unknown).unwrap_err(), StoredValueError::UnknownChallengeState);
    let short_value = vec![(storer_key(2, id_of(ALICE), "bafy"), vec![0u8; 8])];
    assert_eq!(collect_manifests_storer_data_raw(&None, &short_value).unwrap_err(), StoredValueError::UndecodableValue);
    let bad_key = vec![(pool_key(2, 100), (4u16, 1u16, 0i32, 0u8).encode())];
    assert_eq!(collect_manifests_storer_data_raw(&None, &bad_key).unwrap_err(), StoredValueError::UnreadableKey);
    let bad_filter = Some(Account("nope".to_string()));
    assert_eq!(collect_manifests_storer_data_raw(&bad_filter, &entries).unwrap_err(), StoredValueError::InvalidAccount);
}

#[test]
fn raw_pools_are_decoded_and_filtered_by_region() {
    let value = (
        b"pool one".to_vec(),
        Some(id_of(ALICE)),
        None::<u32>,
        vec![id_of(BOB)],
        0u8,
        b"BrazilNorth".to_vec(),
    )
        .encode();
    let entries = vec![(pool_key(8, 52), value)];
    let out = collect_pools_raw(&None, &entries).unwrap();
    assert_eq!(out.len(), 1);
    assert_eq!(out[0].pool_id.0, 8);
    assert_eq!(out[0].creator.as_ref().unwrap().0, ALICE);
    assert_eq!(out[0].pool_name.0, "pool one");
    assert_eq!(out[0].region, "BrazilNorth");
    assert_eq!(out[0].participants[0].0, BOB);
    assert_eq!(collect_pools_raw(&Some("EuropeParis".to_string()), &entries).unwrap().len(), 0);
    assert_eq!(collect_pools_raw(&None, &vec![(pool_key(8, 52), vec![])]).unwrap_err(), StoredValueError::UndecodableValue);
}

#[test]
fn raw_pool_requests_and_users_are_decoded() {
    let mut request_key = pool_key(6, 68);
    request_key.extend_from_slice(&id_of(ALICE));
    let request = (vec![id_of(BOB)], 1u16, b"peer".to_vec()).encode();
    let out = collect_pool_requests_raw(&None, &vec![(request_key.clone(), request.clone())]).unwrap();
    assert_eq!(out[0].pool_id.0, 6);
    assert_eq!(out[0].account.0, ALICE);
    assert_eq!(out[0].voted[0].0, BOB);
    assert_eq!(out[0].positive_votes, 1);
    assert_eq!(out[0].peer_id.0, "peer");
    assert_eq!(
        collect_pool_requests_raw(&None, &vec![(pool_key(6, 99), request)]).unwrap_err(),
        StoredValueError::ShortKey
    );

    let mut user_key = vec![0u8; 48];
    user_key.extend_from_slice(&id_of(BOB));
    let user = (Some(6u32), None::<u32>, b"peer".to_vec()).encode();
    let out = collect_pool_users_raw(&None, None, None, &vec![(user_key.clone(), user.clone())]).unwrap();
    assert_eq!(out[0].account.0, BOB);
    assert_eq!(out[0].pool_id.map(|p| p.0), Some(6));
    assert!(out[0].request_pool_id.is_none());
    assert_eq!(
        collect_pool_users_raw(&Some(Account("nope".to_string())), None, None, &vec![(user_key, user)]).unwrap_err(),
        StoredValueError::InvalidAccount
    );
}
