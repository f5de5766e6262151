use sugarfunge_api::currency::{issue_output, issue_update, supply_output};
use sugarfunge_api::endpoint::{contract_endpoint, port_text, url_to_string};
use sugarfunge_api::address::AccountId32;
use sugarfunge_api::primitives::{AssetId, BundleId, ClassId, Seed};
use sugarfunge_api::subscription::{
    forwards_event, handle_message, heartbeat_check, EventPallet, WsMessage, WsReply, WsSession,
};
use sugarfunge_api::types::currency::{Currency, IssueCurrencyInput};
use sugarfunge_api::types::pool::Region;

fn hex(bytes: &[u8]) -> String {
    bytes.iter().map(|b| format!("{:02x}", b)).collect()
}


#[test]
fn issue_sends_the_requested_amount() {
    let req = IssueCurrencyInput {
        seed: Seed("//Alice".to_string()),
        currency: Currency { class_id: ClassId(1), asset_id: AssetId(2) },
        amount: 5,
    };
    let update = issue_update(AccountId32([1u8; 32]), &req);
    assert_eq!(update.amount, 5);
    assert_eq!(update.class_id, 1);
    assert_eq!(update.asset_id, 2);
    assert_eq!(update.who.0, [1u8; 32]);
}

#[test]
fn missing_issue_event_is_refused() {
    let e = issue_output(None).unwrap_err();
    assert_eq!(e.message, "Failed to find sugarfunge::orml_currencies::events::BalanceUpdated");
    assert_eq!(supply_output(None).total_supply, 0);
    assert_eq!(supply_output(Some(8)).total_supply, 8);
}

#[test]
fn node_url_gets_its_default_port() {
    assert_eq!(url_to_string("ws://127.0.0.1/", None, Some(80)), "ws://127.0.0.1:80/");
    assert_eq!(url_to_string("wss://node.example/", None, Some(443)), "wss://node.example:443/");
    assert_eq!(url_to_string("ws://127.0.0.1:9944/", Some(9944), Some(9944)), "ws://127.0.0.1:9944/");
    assert_eq!(port_text(0), "0");
    assert_eq!(port_text(65535), "65535");
    assert_eq!(contract_endpoint("http://h:4001", "goerli/mint"), "http://h:4001/goerli/mint");
}

#[test]
fn socket_answers_messages() {
    let mut s = WsSession::new(0);
    let (reply, stop) = handle_message(&mut s, WsMessage::Ping(vec![1, 2]), 4000);
    assert!(matches!(reply, WsReply::Pong(p) if p == vec![1, 2]));
    assert!(!stop);
    assert_eq!(s.last_client_heartbeat, 4000);
    let (reply, stop) = handle_message(&mut s, WsMessage::Text("hi".to_string()), 5000);
    assert!(matches!(reply, WsReply::Text(t) if t == "echo: hi"));
    assert!(!stop);
    assert_eq!(s.last_client_heartbeat, 4000);
    let (_, stop) = handle_message(&mut s, WsMessage::Close(None), 6000);
    assert!(stop);
    let (_, stop) = handle_message(&mut s, WsMessage::ProtocolError, 6000);
    assert!(stop);
}

#[test]
fn silent_client_is_dropped_after_timeout() {
    let s = WsSession::new(1000);
    assert!(!heartbeat_check(&s, 11000));
    assert!(heartbeat_check(&s, 11001));
    assert!(!heartbeat_check(&s, 500));
    assert!(forwards_event(EventPallet::Bag));
    assert!(!forwards_event(EventPallet::Other));
}

#[test]
fn bundle_id_parses_as_u64() {
    assert_eq!(BundleId("42".to_string()).to_u64().unwrap(), 42);
    assert!(BundleId("4x".to_string()).to_u64().is_err());
    assert!(BundleId("18446744073709551616".to_string()).to_u64().is_err());
}

#[test]
fn region_names_round_trip() {
    let r = Region::from(&"EuropeZurich".to_string());
    assert_eq!(r, Region::EuropeZurich);
    assert_eq!(r.to_bytes(), b"EuropeZurich".to_vec());
    for name in ["BrazilNorth", "BrazilSouth", "AndeanRegion", "SouthernCone"] {
        let r = Region::from(&name.to_string());
        assert_ne!(r, Region::Other);
        assert_eq!(r.to_bytes(), name.as_bytes().to_vec());
    }
    assert_eq!(Region::from(&"BrazilNorth".to_string()), Region::BrazilNorth);
    assert_eq!(Region::from(&"SouthernCone".to_string()), Region::SouthernCone);
    assert_eq!(Region::from(&"Atlantis".to_string()).to_bytes(), b"Other".to_vec());
    let mut hash = [0u8; 32];
    hash[0] = 0x0f;
    hash[1] = 0xa0;
    let id = sugarfunge_api::bundle::bundle_id_from_hash(&hash);
    assert_eq!(&id.0[..4], "0fa0");
    assert_eq!(id.0.len(), 64);
}

#[test]
fn bundle_id_reads_back_the_decimal_text_of_a_number() {
    for n in [0u64, 7, 42, 1_000_000, u64::MAX] {
        assert_eq!(BundleId::from(n.to_string()).to_u64().unwrap(), n);
    }
}
