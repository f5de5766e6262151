use sugarfunge_api::address::AccountId32;
use sugarfunge_api::escrow::{create_escrow_output, sweep_assets_output};
use sugarfunge_api::primitives::Account;
use sugarfunge_api::token::{balance_output, create_class_output, transfer_from_output};
use sugarfunge_api::nft::{create_nft_output, mint_nft_output};
use sugarfunge_api::types::config::{keycloak_config_from_values, KeycloakSetting, KeycloakValues};

const ALICE: &str = "5GrwvaEF5zXb26Fz9rcQpDWS57CtERHpNehXCPcNoHGKutQY";
const BOB: &str = "5FHneW46xGXgs5mUiveU4sbTyGBzmstUspZC92UhjJM694ty";

fn id(address: &str) -> AccountId32 {
    AccountId32::try_from_account(&Account(address.to_string())).unwrap()
}

#[test]
fn escrow_answers_use_addresses() {
    let out = create_escrow_output(id(ALICE), 1, 2, vec![id(BOB), id(ALICE)]);
    assert_eq!(out.escrow, ALICE);
    assert_eq!(out.owners, vec![BOB.to_string(), ALICE.to_string()]);
    let sweep = sweep_assets_output(id(ALICE), id(BOB), id(ALICE));
    assert_eq!((sweep.escrow.as_str(), sweep.who.0.as_str(), sweep.to.0.as_str()), (ALICE, BOB, ALICE));
}

#[test]
fn token_and_nft_answers_are_built() {
    let c = create_class_output(3, id(ALICE));
    assert!(format!("{:?}", c).contains(ALICE));
    let t = transfer_from_output(id(ALICE), id(BOB), 1, 2, 3);
    let text = format!("{:?}", t);
    assert!(text.contains(ALICE) && text.contains(BOB));
    assert!(format!("{:?}", balance_output(9)).contains('9'));
    assert!(format!("{:?}", create_nft_output(4, id(BOB))).contains(BOB));
    assert!(format!("{:?}", mint_nft_output(4, vec![7, 8], id(BOB))).contains("[7, 8]"));
}

#[test]
fn keycloak_settings_report_the_first_unset() {
    let all = KeycloakValues {
        keycloak_public_key: Some("k".to_string()),
        keycloak_client_id: Some("c".to_string()),
        keycloak_username: Some("u".to_string()),
        keycloak_user_password: Some("p".to_string()),
        keycloak_client_secret: Some("s".to_string()),
        keycloak_host: Some("h".to_string()),
        keycloak_realm: Some("r".to_string()),
    };
    let c = keycloak_config_from_values(&all).unwrap();
    assert_eq!((c.keycloak_host.as_str(), c.keycloak_realm.as_str()), ("h", "r"));
    let mut missing = all.clone();
    missing.keycloak_username = None;
    missing.keycloak_realm = None;
    assert_eq!(keycloak_config_from_values(&missing).unwrap_err(), KeycloakSetting::Username);
}
