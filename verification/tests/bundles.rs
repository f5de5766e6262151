use sugarfunge_api::address::AccountId32;
use sugarfunge_api::bundle::{bundle_exists, bundle_id_from_hash, collect_bundle_data, collect_bundle_items};
use sugarfunge_api::currency::issuance_output;
use sugarfunge_api::dex::{remove_liquidity_output, DexTradeEvent};
use sugarfunge_api::fula::transform_get_manifests;
use sugarfunge_api::primitives::{transform_vec_account_to_string, transform_vec_string_to_account, Account, BundleId};
use sugarfunge_api::runtime::{Bundle, BundleSchema, ManifestWithPoolId, UploaderData};

const ALICE: &str = "5GrwvaEF5zXb26Fz9rcQpDWS57CtERHpNehXCPcNoHGKutQY";

fn alice() -> AccountId32 {
    AccountId32::try_from_account(&Account(ALICE.to_string())).unwrap()
}

#[test]
fn bundle_items_read_class_asset_and_hash() {
    let mut key = vec![0u8; 48];
    key.extend_from_slice(&5u64.to_le_bytes());
    key.extend_from_slice(&[1u8; 16]);
    key.extend_from_slice(&6u64.to_le_bytes());
    let hash = [0x11u8; 32];
    let items = collect_bundle_items(&vec![(key, hash)]);
    assert_eq!(items[0].class_id.0, 5);
    assert_eq!(items[0].asset_id.0, 6);
    assert_eq!(items[0].bundle_id.0, "11".repeat(32));
    assert!(bundle_exists(&vec![[0u8; 32], hash], &BundleId("11".repeat(32))));
    assert!(!bundle_exists(&vec![[0u8; 32]], &BundleId("11".repeat(32))));
    assert_eq!(bundle_id_from_hash(&hash).0, "11".repeat(32));
}

#[test]
fn bundle_data_reads_the_key_hash_and_the_record() {
    let mut key = vec![0u8; 48];
    key.extend_from_slice(&[0x22u8; 32]);
    let bundle = Bundle {
        creator: alice(),
        class_id: 1,
        asset_id: 2,
        metadata: b"{}".to_vec(),
        schema: BundleSchema { class_ids: vec![1], asset_ids: vec![vec![2]], amounts: vec![vec![3]] },
    };
    let out = collect_bundle_data(&vec![(key, bundle)]);
    assert_eq!(out[0].bundle_id.0, "22".repeat(32));
    assert_eq!(out[0].creator.0, ALICE);
    assert_eq!(out[0].schema.amounts[0][0].0, 3);
}

#[test]
fn event_listed_manifests_are_reported() {
    let out = transform_get_manifests(vec![ManifestWithPoolId {
        pool_id: 7,
        users_data: vec![UploaderData { uploader: alice(), storers: vec![], replication_factor: 2 }],
        manifest_metadata: b"{}".to_vec(),
        size: Some(1),
    }]);
    assert_eq!(out[0].pool_id.0, 7);
    assert_eq!(out[0].uploaders[0].replication_available.0, 2);
    assert_eq!(out[0].uploaders[0].uploader.0, ALICE);
}

#[test]
fn small_conversions() {
    assert_eq!(issuance_output(12).amount.0, 12);
    let texts = transform_vec_account_to_string(vec![Account("a".to_string())]);
    assert_eq!(texts, vec!["a".to_string()]);
    assert_eq!(transform_vec_string_to_account(texts)[0].0, "a");
    let out = remove_liquidity_output(DexTradeEvent {
        exchange_id: 1,
        who: alice(),
        to: alice(),
        asset_ids: vec![4],
        asset_amounts: vec![5],
        currency_amounts: vec![6],
    });
    assert_eq!((out.asset_amounts.clone(), out.currency_amounts.clone()), (vec![5], vec![6]));
}
