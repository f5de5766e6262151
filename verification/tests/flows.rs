use sugarfunge_api::config::Config;
use sugarfunge_api::contract::{
    claimed_bundle_schema, contract_request, conversion_step, plan_conversion, refusal_body, start_conversion,
    ConversionAction, ConversionEvent, ConversionRefusal, ConversionResponse, ConversionStage,
};
use sugarfunge_api::keycloak::{
    bearer, seed_answer_body, seed_flow_step, seed_of_user, start_seed_flow, sugar_token, token_credentials,
    token_endpoint, user_endpoint, SeedAction, SeedAnswer, SeedEvent, SeedStage, TokenReply,
};
use sugarfunge_api::primitives::{Balance, Seed};
use sugarfunge_api::types::config::Config as KeycloakConfig;
use sugarfunge_api::types::contract::ConvertFulaInput;
use sugarfunge_api::types::user::{SugarTokenOutput, UserAtributes, UserInfo};

fn hex(bytes: &[u8]) -> String {
    bytes.iter().map(|b| format!("{:02x}", b)).collect()
}


fn config() -> Config {
    Config {
        fula_contract_api_host_and_port: "http://127.0.0.1:4001".to_string(),
        labor_token_class_id: 100,
        labor_token_asset_id: 100,
        labor_token_value: 1,
        challenge_token_class_id: 110,
        challenge_token_asset_id: 100,
        challenge_token_value: 1,
        claimed_token_class_id: 120,
        claimed_token_asset_id: 100,
    }
}

fn keycloak() -> KeycloakConfig {
    KeycloakConfig {
        keycloak_public_key: "pk".to_string(),
        keycloak_client_id: "client".to_string(),
        keycloak_username: "svc".to_string(),
        keycloak_user_password: "pw".to_string(),
        keycloak_client_secret: "secret".to_string(),
        keycloak_host: "https://kc.example".to_string(),
        keycloak_realm: "fula".to_string(),
    }
}

fn user(seeds: Option<Vec<&str>>) -> UserInfo {
    UserInfo {
        id: "u1".to_string(),
        attributes: seeds.map(|s| UserAtributes { user_seed: s.into_iter().map(|x| x.to_string()).collect() }),
        email: "a@b.c".to_string(),
        email_verified: true,
        username: "a".to_string(),
        first_name: "A".to_string(),
        last_name: "B".to_string(),
    }
}

#[test]
fn claimed_schema_holds_one_labor_and_one_challenge_token() {
    let s = claimed_bundle_schema(&config());
    assert_eq!(s.class_ids, vec![100, 110]);
    assert_eq!(s.asset_ids, vec![vec![100], vec![100]]);
    assert_eq!(s.amounts, vec![vec![1], vec![1]]);
}

#[test]
fn conversion_plan_names_the_bundle_by_its_hash() {
    let req = ConvertFulaInput { seed: Seed("//Alice".to_string()), wallet_account: "0xabc".to_string(), amount: Balance(7) };
    let plan = plan_conversion(&config(), &req, "goerli/mint").unwrap();
    assert_eq!(plan.bundle_id.0, hex(&plan.bundle_hash));
    assert_eq!(plan.bundle_id.0.len(), 64);
    assert_eq!(plan.claimed_class_id.0, 120);
    assert_eq!(plan.route, "goerli/mint");
    let request = contract_request(&plan);
    assert_eq!(request.account_address, "0xabc");
    assert_eq!(request.amount, 7);
}

#[test]
fn conversion_of_unknown_bundle_registers_then_mints() {
    let (stage, action) = start_conversion();
    assert!(matches!(action, ConversionAction::CheckBundle));
    let (stage, action) = conversion_step(stage, ConversionEvent::BundleChecked(Some(false)));
    assert!(matches!(action, ConversionAction::RegisterBundle));
    let (stage, action) = conversion_step(stage, ConversionEvent::BundleRegistered(Ok(())));
    assert!(matches!(action, ConversionAction::MintBundle));
    let (stage, action) = conversion_step(stage, ConversionEvent::BundleMinted(Ok(true)));
    assert!(matches!(action, ConversionAction::RefundFees));
    let (stage, action) = conversion_step(stage, ConversionEvent::FeesRefunded(Ok(())));
    assert!(matches!(action, ConversionAction::CallContract));
    let (stage, action) = conversion_step(stage, ConversionEvent::ContractReplied(Some(b"{}".to_vec())));
    assert_eq!(stage, ConversionStage::Finished);
    assert!(matches!(action, ConversionAction::Respond(ConversionResponse::Receipt(r)) if r == b"{}".to_vec()));
}

#[test]
fn conversion_without_mint_event_is_refused_after_refund() {
    let (stage, _) = conversion_step(ConversionStage::CheckingBundle, ConversionEvent::BundleChecked(Some(true)));
    assert_eq!(stage, ConversionStage::MintingBundle);
    let (stage, _) = conversion_step(stage, ConversionEvent::BundleMinted(Ok(false)));
    let (stage, action) = conversion_step(stage, ConversionEvent::FeesRefunded(Ok(())));
    assert_eq!(stage, ConversionStage::Finished);
    assert!(matches!(
        action,
        ConversionAction::Respond(ConversionResponse::BadRequest(ConversionRefusal::BundleMintNotFound))
    ));
    assert_eq!(refusal_body(ConversionRefusal::BundleMintNotFound).message, "Failed to execute the Bundle Mint");
}

#[test]
fn conversion_reports_failed_calls() {
    let (_, action) = conversion_step(ConversionStage::CheckingBundle, ConversionEvent::BundleChecked(None));
    assert!(matches!(
        action,
        ConversionAction::Respond(ConversionResponse::BadRequest(ConversionRefusal::BundleCheckFailed))
    ));
    assert_eq!(refusal_body(ConversionRefusal::BundleCheckFailed).message, "Failed to verify if the Bundle ID exist");
    let (_, action) = conversion_step(ConversionStage::MintingBundle, ConversionEvent::BundleMinted(Err("boom".to_string())));
    assert!(matches!(action, ConversionAction::Respond(ConversionResponse::Failed(b)) if b == "boom"));
    let (_, action) = conversion_step(ConversionStage::CallingContract, ConversionEvent::ContractReplied(None));
    assert!(matches!(
        action,
        ConversionAction::Respond(ConversionResponse::BadRequest(ConversionRefusal::ContractMintFailed))
    ));
    assert_eq!(
        refusal_body(ConversionRefusal::ContractMintFailed).message,
        "Failed to execute the contract_event::MintTo"
    );
}

#[test]
fn keycloak_endpoints_and_credentials() {
    let kc = keycloak();
    assert_eq!(token_endpoint(&kc), "https://kc.example/auth/realms/fula/protocol/openid-connect/token");
    assert_eq!(user_endpoint(&kc, "u1"), "https://kc.example/auth/admin/realms/fula/users/u1");
    let c = token_credentials(&kc);
    assert_eq!(c.grant_type, "password");
    assert_eq!(c.scope, "openid");
    assert_eq!(c.password, "pw");
    assert_eq!(bearer("tok"), "Bearer tok");
}

#[test]
fn token_failures_have_their_messages() {
    assert_eq!(sugar_token(TokenReply::Refused).unwrap_err().message, "Failed to get the sugarfunge token");
    assert_eq!(sugar_token(TokenReply::Unreachable).unwrap_err().message, "Failed to connect to keycloak");
    let t = sugar_token(TokenReply::Granted(SugarTokenOutput { access_token: "t".to_string() })).unwrap();
    assert_eq!(t.access_token, "t");
}

#[test]
fn stored_seed_is_the_first_attribute_or_empty() {
    assert_eq!(seed_of_user(&user(Some(vec!["//s1", "//s2"]))).seed, Some("//s1".to_string()));
    assert_eq!(seed_of_user(&user(Some(vec![]))).seed, Some(String::new()));
    assert_eq!(seed_of_user(&user(None)).seed, Some(String::new()));
}

#[test]
fn user_with_seed_is_answered_at_once() {
    let (stage, action) = start_seed_flow();
    assert!(matches!(action, SeedAction::FetchToken));
    let (stage, action) = seed_flow_step(
        stage,
        SeedEvent::TokenReplied(TokenReply::Granted(SugarTokenOutput { access_token: "t".to_string() })),
    );
    assert!(matches!(action, SeedAction::FetchUser { ref token } if token == "t"));
    let (stage, action) = seed_flow_step(stage, SeedEvent::UserReplied(Some(user(Some(vec!["//s"])))));
    assert!(matches!(stage, SeedStage::Done));
    assert!(matches!(action, SeedAction::Respond(SeedAnswer::AlreadySeeded)));
    assert_eq!(seed_answer_body(SeedAnswer::AlreadySeeded).unwrap().message, "User already has a seed");
}

#[test]
fn user_without_seed_gets_a_new_one() {
    let granted = |t: &str| SeedEvent::TokenReplied(TokenReply::Granted(SugarTokenOutput { access_token: t.to_string() }));
    let (stage, _) = seed_flow_step(SeedStage::ReadToken, granted("t1"));
    let (stage, action) = seed_flow_step(stage, SeedEvent::UserReplied(Some(user(None))));
    assert!(matches!(action, SeedAction::FetchToken));
    let (stage, action) = seed_flow_step(stage, granted("t2"));
    assert!(matches!(action, SeedAction::CreateAccount));
    let (stage, action) = seed_flow_step(stage, SeedEvent::AccountCreated(Some(Seed("//new".to_string()))));
    match action {
        SeedAction::StoreSeed { token, attributes } => {
            assert_eq!(token, "t2");
            assert_eq!(attributes.user_seed, vec!["//new".to_string()]);
        }
        _ => panic!("expected the seed to be stored"),
    }
    let (_, action) = seed_flow_step(stage, SeedEvent::SeedStored(Some(204)));
    assert!(matches!(action, SeedAction::Respond(SeedAnswer::SeedInserted)));
    assert_eq!(
        seed_answer_body(SeedAnswer::SeedInserted).unwrap().message,
        "User had no Seed, Seed inserted to user attributes"
    );
}

#[test]
fn seed_flow_failures() {
    let (_, action) = seed_flow_step(SeedStage::ReadToken, SeedEvent::TokenReplied(TokenReply::Unreachable));
    assert!(matches!(action, SeedAction::Respond(SeedAnswer::KeycloakUnreachable)));
    let (_, action) = seed_flow_step(SeedStage::StoreSeed, SeedEvent::SeedStored(Some(200)));
    assert!(matches!(action, SeedAction::Respond(SeedAnswer::InsertFailed)));
    let e = seed_answer_body(SeedAnswer::InsertFailed).unwrap_err();
    assert_eq!(e.message, "Failed to insert seed");
    assert_eq!(e.description, "Error in user::insertSeedUser");
    let e = seed_answer_body(SeedAnswer::KeycloakUnreachable).unwrap_err();
    assert_eq!(e.description, "Error in user::verifySeed");
}
