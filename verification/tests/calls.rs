use sugarfunge_api::address::AccountId32;
use sugarfunge_api::bag::{create_output, transform_owners_input, transform_owners_output, try_transform_owners_input, BagCreatedEvent};
use sugarfunge_api::bundle::{bundle_hash_of_id, mint_bundle_call, mint_bundle_output, BundleAmountEvent};
use sugarfunge_api::config::{config_from_values, ConfigError, ConfigField, ConfigValues};
use sugarfunge_api::contract::{contract_outcome, ContractReply};
use sugarfunge_api::dex::{buy_assets_output, recipient, DexTradeEvent};
use sugarfunge_api::errors::{dispatch_error_answer, subxt_error_body, DispatchAnswer, DispatchFailure, ErrorSource};
use sugarfunge_api::fula_tx::{
    missing_event_error, upload_manifest_call, upload_manifest_output, ManifestCall, ManifestOutputEvent,
    UploadManifestInput,
};
use sugarfunge_api::keycloak::{gate_refusal, seed_gate, SeedGate};
use sugarfunge_api::market::{try_extrinsinc_rates, transform_balances};
use sugarfunge_api::pool_tx::{create_pool_call, vote_call};
use sugarfunge_api::primitives::{Account, AssetId, Balance, BundleId, Cid, ClassId, Name, PeerId, PoolId, ReplicationFactor, Seed, ValidatorId};
use sugarfunge_api::response::RequestError;
use sugarfunge_api::runtime;
use sugarfunge_api::storage::{asset_balances_query_key, challenge_requests_query_key, storage_prefix};
use sugarfunge_api::tx::{start_tx, tx_step, TxAction, TxAnswer, TxEvent, TxStage};
use sugarfunge_api::types::bundle::MintBundleInput;
use sugarfunge_api::types::market::{AssetRate, RateAccount, RateAction};
use sugarfunge_api::types::pool::{CreatePoolInput, VoteInput};
use sugarfunge_api::types::user::UserSeedOutput;
use sugarfunge_api::validator::{add_validator_output, validator_account};

fn hex(bytes: &[u8]) -> String {
    bytes.iter().map(|b| format!("{:02x}", b)).collect()
}


const ALICE: &str = "5GrwvaEF5zXb26Fz9rcQpDWS57CtERHpNehXCPcNoHGKutQY";
const BOB: &str = "5FHneW46xGXgs5mUiveU4sbTyGBzmstUspZC92UhjJM694ty";

fn id(address: &str) -> AccountId32 {
    AccountId32::try_from_account(&Account(address.to_string())).unwrap()
}

#[test]
fn storage_prefix_is_twox_of_names() {
    let p = storage_prefix("System", "Account");
    assert_eq!(hex(&p), "26aa394eea5630e07c48ae0c9558cef7b99d880ec681799c0cf30e8886371da9");
}

#[test]
fn map_keys_are_blake2_128_concat() {
    let key = challenge_requests_query_key(&id(ALICE));
    assert_eq!(key.len(), 32 + 16 + 32);
    assert_eq!(&key[48..], &id(ALICE).0[..]);
    assert_eq!(&key[..32], &storage_prefix("Fula", "ChallengeRequests")[..]);
    let with_class = asset_balances_query_key(&id(ALICE), Some(7));
    assert_eq!(with_class.len(), 32 + 16 + 32 + 16 + 8);
    assert_eq!(&with_class[96..], &7u64.to_le_bytes()[..]);
    assert_eq!(asset_balances_query_key(&id(ALICE), None), with_class[..80].to_vec());
}

#[test]
fn settings_are_read_in_order() {
    let good = ConfigValues {
        fula_contract_api_host_and_port: Some("http://h:1".to_string()),
        labor_token_class_id: Some("1".to_string()),
        labor_token_asset_id: Some("2".to_string()),
        challenge_token_class_id: Some("3".to_string()),
        challenge_token_asset_id: Some("4".to_string()),
        labor_token_value: Some("5".to_string()),
        challenge_token_value: Some("6".to_string()),
        claimed_token_class_id: Some("7".to_string()),
        claimed_token_asset_id: Some("8".to_string()),
    };
    let c = config_from_values(&good).unwrap();
    assert_eq!((c.labor_token_class_id, c.challenge_token_value, c.claimed_token_asset_id), (1, 6, 8));
    let mut bad = good.clone();
    bad.challenge_token_class_id = Some("x".to_string());
    bad.claimed_token_asset_id = None;
    assert_eq!(config_from_values(&bad).unwrap_err(), ConfigError::NotANumber(ConfigField::ChallengeTokenClassId));
    let mut missing = good.clone();
    missing.fula_contract_api_host_and_port = None;
    assert_eq!(config_from_values(&missing).unwrap_err(), ConfigError::NotSet(ConfigField::FulaContractApiHostAndPort));
}

#[test]
fn submission_refunds_then_answers() {
    let (stage, action) = start_tx();
    assert!(matches!(action, TxAction::Submit));
    let (stage, action) = tx_step(stage, TxEvent::Submitted(Ok(false)));
    assert_eq!(stage, TxStage::Refunding { found: false });
    assert!(matches!(action, TxAction::Refund));
    let (stage, action) = tx_step(stage, TxEvent::Refunded(Ok(())));
    assert_eq!(stage, TxStage::Done);
    assert!(matches!(action, TxAction::Respond(TxAnswer::NotFound)));
    let (_, action) = tx_step(TxStage::Refunding { found: true }, TxEvent::Refunded(Err("r".to_string())));
    assert!(matches!(action, TxAction::Respond(TxAnswer::Failed(b)) if b == "r"));
}

#[test]
fn upload_arguments_and_answer() {
    let req = UploadManifestInput {
        seed: Seed("//Alice".to_string()),
        manifest_metadata: b"{\"a\":1}".to_vec(),
        cid: Cid("bafy".to_string()),
        pool_id: PoolId(3),
        replication_factor: ReplicationFactor(2),
    };
    let call = upload_manifest_call(&req);
    assert_eq!(call.cid, b"bafy".to_vec());
    assert_eq!((call.pool_id, call.replication_factor), (3, 2));
    let out = upload_manifest_output(&ManifestOutputEvent {
        uploader: id(ALICE),
        storer: vec![id(BOB)],
        manifest: b"{}".to_vec(),
        pool_id: 3,
    });
    assert_eq!(out.uploader.0, ALICE);
    assert_eq!(out.storers[0].0, BOB);
    assert_eq!(missing_event_error(ManifestCall::UpdateManifest).message, "Failed to find sugarfunge::fula::events::UpdateManifests");
}

#[test]
fn pool_arguments() {
    let call = create_pool_call(&CreatePoolInput {
        seed: Seed("//Alice".to_string()),
        pool_name: Name("p".to_string()),
        peer_id: PeerId("12D3".to_string()),
        region: "EuropeSpain".to_string(),
    });
    assert_eq!(call.region, b"EuropeSpain".to_vec());
    assert_eq!(call.pool_name, b"p".to_vec());
    let vote = VoteInput {
        seed: Seed("//Alice".to_string()),
        pool_id: PoolId(1),
        account: Account("nope".to_string()),
        vote_value: true,
        peer_id: PeerId("x".to_string()),
    };
    assert!(vote_call(&vote).is_err());
}

#[test]
fn owners_round_trip_through_their_addresses() {
    let texts = transform_owners_output(vec![id(ALICE), id(BOB)]);
    assert_eq!(texts, vec![ALICE.to_string(), BOB.to_string()]);
    let back = transform_owners_input(texts);
    assert_eq!(back[0].0, id(ALICE).0);
    assert_eq!(back[1].0, id(BOB).0);
    assert!(try_transform_owners_input(&vec!["bad".to_string()]).is_err());
    let out = create_output(&BagCreatedEvent { bag: id(BOB), class_id: 1, asset_id: 2, owners: vec![id(ALICE)] });
    assert_eq!(out.owners[0].0, ALICE);
}

#[test]
fn bundle_id_text_reads_back_as_the_hash() {
    let hash = [0xabu8; 32];
    let text = hex(&hash);
    assert_eq!(bundle_hash_of_id(&BundleId(text.clone())), hash);
    assert_eq!(bundle_hash_of_id(&BundleId("zz".to_string())), [0u8; 32]);
    let req = MintBundleInput {
        seed: Seed("//Alice".to_string()),
        from: Account(ALICE.to_string()),
        to: Account(BOB.to_string()),
        bundle_id: BundleId(text.clone()),
        amount: Balance(4),
    };
    let call = mint_bundle_call(&req).unwrap();
    assert_eq!(call.bundle_hash, hash);
    let out = mint_bundle_output(&BundleAmountEvent { who: id(ALICE), from: id(ALICE), to: id(BOB), bundle_id: hash, amount: 4 });
    assert_eq!(out.bundle_id.0, text);
}

#[test]
fn market_rates_need_valid_accounts() {
    let rate = |acct: RateAccount| AssetRate {
        class_id: ClassId(1),
        asset_id: AssetId(2),
        action: RateAction::Mint(sugarfunge_api::primitives::Amount(5)),
        from: RateAccount::Market,
        to: acct,
    };
    let ok = try_extrinsinc_rates(&vec![rate(RateAccount::Buyer), rate(RateAccount::Account(Account(ALICE.to_string())))]).unwrap();
    assert_eq!(ok.len(), 2);
    assert!(matches!(ok[1].to, runtime::RateAccount::Account(a) if a.0 == id(ALICE).0));
    assert!(try_extrinsinc_rates(&vec![rate(RateAccount::Account(Account("x".to_string())))]).is_err());
    let balances = transform_balances(vec![runtime::RateBalance { rate: ok[1], balance: -3 }]);
    assert_eq!(balances[0].balance.0, -3);
    assert!(matches!(&balances[0].rate.to, RateAccount::Account(a) if a.0 == ALICE));
}

#[test]
fn dex_and_validator_answers() {
    assert!(recipient(&"bad".to_string()).is_err());
    let out = buy_assets_output(DexTradeEvent {
        exchange_id: 9,
        who: id(ALICE),
        to: id(BOB),
        asset_ids: vec![1],
        asset_amounts: vec![2],
        currency_amounts: vec![3],
    });
    assert_eq!((out.who.as_str(), out.to.as_str()), (ALICE, BOB));
    assert_eq!(out.currency_amounts_in, vec![3]);
    assert_eq!(validator_account(&ValidatorId(BOB.to_string())).unwrap().0, id(BOB).0);
    assert_eq!(add_validator_output(id(BOB)).validator_id.0, BOB);
}

#[test]
fn errors_are_reported_with_their_source() {
    let a = dispatch_error_answer(
        ErrorSource::FulaPool,
        DispatchFailure::Module { details: Some(("Pool".to_string(), "NotMember".to_string())), root: "x".to_string() },
    );
    match a {
        DispatchAnswer::Body(e) => {
            assert_eq!(e.message, "Pallet: Pool, Variant: NotMember");
            assert_eq!(e.description, "Fula Pool error");
        }
        DispatchAnswer::NotModule => panic!("a module error has a body"),
    }
    assert!(matches!(dispatch_error_answer(ErrorSource::Sugarfunge, DispatchFailure::Other), DispatchAnswer::NotModule));
    assert_eq!(subxt_error_body("t".to_string()).description, "Subxt error");
}

#[test]
fn contract_replies() {
    assert_eq!(contract_outcome(ContractReply::Answered(Ok(b"{}".to_vec()))).unwrap(), b"{}".to_vec());
    assert_eq!(contract_outcome(ContractReply::Unsent("down".to_string())).unwrap_err().description, "Reqwest error.");
    let own = RequestError { message: "m".to_string(), description: "d".to_string() };
    assert_eq!(contract_outcome(ContractReply::ErrorStatus { body: Some(own), status: "s".to_string() }).unwrap_err().message, "m");
}

#[test]
fn gate_needs_a_stored_seed() {
    assert!(matches!(seed_gate(None), SeedGate::NoUser));
    assert!(matches!(seed_gate(Some(UserSeedOutput { seed: Some(String::new()) })), SeedGate::NoSeed));
    assert!(matches!(seed_gate(Some(UserSeedOutput { seed: Some("//a".to_string()) })), SeedGate::Proceed(s) if s.0 == "//a"));
    assert_eq!(gate_refusal(true, "Not found user Attributes", "Error in market::create_market").message, "Failed to find user::getAttributes");
}
