use sugarfunge_api::account::health_response;
use sugarfunge_api::address::AccountId32;
use sugarfunge_api::bundle::hash_bundle_schema;
use sugarfunge_api::challenge::{
    generate_challenge_output, mint_labor_tokens_output, provide_file_size_output, verify_challenge_output, ChallengeEvent,
    FileSizesEvent, MintedLaborTokensEvent, VerifiedChallengesEvent,
};
use sugarfunge_api::config::Config;
use sugarfunge_api::contract::claimed_bundle_schema;
use sugarfunge_api::currency::{burn_output, mint_output, CurrencyAmountEvent};
use sugarfunge_api::errors::{account_error_body, slice_error_body};
use sugarfunge_api::fula_tx::{batch_pool_output, remove_stored_manifest_output, BatchPoolEvent, RemoveStorerEvent};
use sugarfunge_api::keycloak::seed_attributes;
use sugarfunge_api::market::{create_market_output, MarketCreatedEvent};
use sugarfunge_api::primitives::{Account, Seed};
use sugarfunge_api::runtime::ChallengeState;
use sugarfunge_api::storage::{asset_balances_query_key, pool_query_key, pool_requests_query_key, StorageItem};
use sugarfunge_api::subscription::{handle_message, WsMessage, WsReply, WsSession};
use sugarfunge_api::types::challenge::ChallengeStateValue;

const ALICE: &str = "5GrwvaEF5zXb26Fz9rcQpDWS57CtERHpNehXCPcNoHGKutQY";

fn alice() -> AccountId32 {
    AccountId32::try_from_account(&Account(ALICE.to_string())).unwrap()
}

fn hex(bytes: &[u8]) -> String {
    bytes.iter().map(|b| format!("{:02x}", b)).collect()
}

#[test]
fn bundle_hash_is_blake2_256_of_the_scale_schema() {
    let config = Config {
        fula_contract_api_host_and_port: String::new(),
        labor_token_class_id: 100,
        labor_token_asset_id: 100,
        labor_token_value: 1,
        challenge_token_class_id: 110,
        challenge_token_asset_id: 100,
        challenge_token_value: 1,
        claimed_token_class_id: 120,
        claimed_token_asset_id: 100,
    };
    let h = hash_bundle_schema(&claimed_bundle_schema(&config));
    assert_eq!(hex(&h), "3c464676b91ec8bb61126e8c164c3884c0951b8a7b28aacb5314ccd72297a814");
}

#[test]
fn owner_key_hash_is_blake2_128() {
    let key = asset_balances_query_key(&alice(), None);
    assert_eq!(hex(&key[32..48]), "de1e86a9a8c739864cf3cc5ec2bea59f");
}

#[test]
fn pool_keys() {
    let all = pool_query_key(StorageItem::FulaManifests, None);
    assert_eq!(all.len(), 32);
    let one = pool_query_key(StorageItem::FulaManifests, Some(5));
    assert_eq!(one.len(), 32 + 16 + 4);
    assert_eq!(&one[48..], &5u32.to_le_bytes()[..]);
    assert_eq!(&one[..32], &all[..]);
    let requests = pool_requests_query_key(Some(5));
    assert_eq!(requests.len(), 48);
    assert_eq!(&requests[32..], &one[32..48]);
}

#[test]
fn challenge_answers() {
    let g = generate_challenge_output(&ChallengeEvent {
        challenger: alice(),
        challenged: alice(),
        cid: b"bafy".to_vec(),
        state: ChallengeState::Failed,
    });
    assert_eq!(g.cid.0, "bafy");
    assert_eq!(g.state, ChallengeStateValue::Failed);
    let v = verify_challenge_output(&VerifiedChallengesEvent { challenged: alice(), successful: vec![b"a".to_vec()], failed: vec![vec![0xff]] });
    assert_eq!(v.successful_cids[0].0, "a");
    assert_eq!(v.failed_cids[0].0, "");
    let m = mint_labor_tokens_output(&MintedLaborTokensEvent { account: alice(), class_id: 1, asset_id: 2, amount: 3 });
    assert_eq!((m.account.0.as_str(), m.amount.0), (ALICE, 3));
    let p = provide_file_size_output(&FileSizesEvent { account: alice(), pool_id: 4, cids: vec![b"c".to_vec()], sizes: vec![10] });
    assert_eq!((p.pool_id.0, p.sizes.clone()), (4, vec![10]));
}

#[test]
fn currency_and_market_answers() {
    let e = CurrencyAmountEvent { class_id: 1, asset_id: 2, amount: 3, who: alice() };
    assert_eq!(mint_output(Some(e)).unwrap().who.0, ALICE);
    assert_eq!(burn_output(None).unwrap_err().message, "Failed to find sugarfunge::currency::events::Burn");
    let c = create_market_output(Some(MarketCreatedEvent { market_id: 8, who: alice() })).unwrap();
    assert_eq!(c.market_id.0, 8);
    assert_eq!(create_market_output(None).unwrap_err().message, "Failed to find sugarfunge::market::events::Created");
}

#[test]
fn manifest_answers() {
    let r = remove_stored_manifest_output(&RemoveStorerEvent { storer: None, cid: b"x".to_vec(), pool_id: 2 });
    assert!(r.storer.is_none());
    assert_eq!(r.cid.0, "x");
    let b = batch_pool_output(&BatchPoolEvent { account: alice(), pool_id: 1, cids: vec![b"a".to_vec(), b"b".to_vec()] });
    assert_eq!(b.cid.iter().map(|c| c.0.clone()).collect::<Vec<_>>(), vec!["a".to_string(), "b".to_string()]);
}

#[test]
fn small_bodies() {
    assert_eq!(seed_attributes(&Seed("//x".to_string())).user_seed, vec!["//x".to_string()]);
    assert_eq!(account_error_body("BadBase58".to_string()).message, "Invalid account");
    assert_eq!(slice_error_body("e".to_string()).message, "Invalid slice conversion");
    let h = health_response(true, 3, false);
    assert_eq!((h.is_syncing, h.peers, h.should_have_peers), (true, 3, false));
}

#[test]
fn socket_binary_and_pong() {
    let mut s = WsSession::new(0);
    let (reply, stop) = handle_message(&mut s, WsMessage::Binary(vec![7]), 10);
    assert!(matches!(reply, WsReply::Binary(b) if b == vec![7]));
    assert!(!stop);
    let (reply, _) = handle_message(&mut s, WsMessage::Pong(vec![]), 20);
    assert!(matches!(reply, WsReply::Nothing));
    assert_eq!(s.last_client_heartbeat, 20);
}
