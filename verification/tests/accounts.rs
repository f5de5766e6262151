use sugarfunge_api::account::{account_from_seed, balance_output, create_account, exists_output, seeded, AccountInfo};
use sugarfunge_api::address::{same_account, AccountError, AccountId32};
use sugarfunge_api::primitives::{Account, Seed};
use sugarfunge_api::types::account::SeededAccountInput;

const ALICE: &str = "5GrwvaEF5zXb26Fz9rcQpDWS57CtERHpNehXCPcNoHGKutQY";
const BOB: &str = "5FHneW46xGXgs5mUiveU4sbTyGBzmstUspZC92UhjJM694ty";

fn alice_bytes() -> [u8; 32] {
    let hex = "d43593c715fdd31c61141abd04a99fd6822c8558854ccde39a5684e7a56da27d";
    let mut out = [0u8; 32];
    for i in 0..32 {
        out[i] = u8::from_str_radix(&hex[2 * i..2 * i + 2], 16).unwrap();
    }
    out
}

#[test]
fn ss58_address_decodes_to_its_account() {
    let id = AccountId32::try_from_account(&Account(ALICE.to_string())).unwrap();
    assert_eq!(id.0, alice_bytes());
}

#[test]
fn ss58_encoding_round_trips() {
    let id = AccountId32(alice_bytes());
    assert_eq!(id.to_ss58_string(), ALICE);
    let back = AccountId32::try_from_account(&Account(id.to_ss58_string())).unwrap();
    assert_eq!(back.0, id.0);
}

#[test]
fn invalid_address_is_refused() {
    let r = AccountId32::try_from_account(&Account("not an address".to_string()));
    assert!(matches!(r, Err(AccountError::InvalidAccount)));
}

#[test]
fn same_account_compares_decoded_bytes() {
    assert_eq!(same_account(&Account(ALICE.to_string()), &Account(ALICE.to_string())), Ok(true));
    assert_eq!(same_account(&Account(ALICE.to_string()), &Account(BOB.to_string())), Ok(false));
    assert_eq!(
        same_account(&Account(ALICE.to_string()), &Account("x".to_string())),
        Err(AccountError::InvalidAccount)
    );
}

#[test]
fn dev_seed_derives_alice() {
    let id = account_from_seed(&Seed("//Alice".to_string())).unwrap();
    assert_eq!(id.0, alice_bytes());
}

#[test]
fn unreadable_seed_is_refused_as_api_error() {
    let e = account_from_seed(&Seed("0x1234".to_string())).unwrap_err();
    assert_eq!(e.description, "API error");
    assert!(!e.message.is_empty());
}

#[test]
fn seeded_reports_the_address_of_the_seed() {
    let out = seeded(&SeededAccountInput { seed: Seed("//Alice".to_string()) }).unwrap();
    assert_eq!(out.seed.0, "//Alice");
    assert_eq!(out.account.0, ALICE);
}

#[test]
fn created_seed_is_a_hard_derivation_of_the_entropy() {
    let mut entropy = [0u8; 32];
    entropy[0] = 0xab;
    entropy[31] = 0x01;
    let out = create_account(&entropy).unwrap();
    let expected = format!("//ab{}01", "00".repeat(30));
    assert_eq!(out.seed.0, expected);
    let again = seeded(&SeededAccountInput { seed: Seed(expected) }).unwrap();
    assert_eq!(again.account.0, out.account.0);
}

#[test]
fn exists_depends_on_providers() {
    let id = AccountId32(alice_bytes());
    let yes = exists_output(id, Some(AccountInfo { providers: 1, free: 5 })).unwrap();
    assert!(yes.exists);
    assert_eq!(yes.account.0, ALICE);
    let no = exists_output(id, Some(AccountInfo { providers: 0, free: 5 })).unwrap();
    assert!(!no.exists);
    let missing = exists_output(id, None).unwrap_err();
    assert_eq!(missing.message, "Failed to find sugarfunge::balances::events::balance");
    assert_eq!(missing.description, "Error in account::exist");
}

#[test]
fn balance_reports_free_balance() {
    assert_eq!(balance_output(Some(AccountInfo { providers: 1, free: 42 })).unwrap().balance.0, 42);
    assert_eq!(balance_output(None).unwrap_err().description, "Error in account::balance");
}
