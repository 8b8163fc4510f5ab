use privacy_mesh::intent::PrivacyIntent;
use privacy_mesh::mesh::MeshNetwork;

#[test]
fn plain_payload_becomes_a_trade_intent() {
    assert_eq!(
        PrivacyIntent::compose("buy 10 units".to_string()),
        PrivacyIntent {
            intent_type: "trade".to_string(),
            payload: "buy 10 units".to_string(),
            encrypted: true,
            relay_path: vec!["origin_node".to_string()],
            relay_fee: Some("0.005 SOL".to_string()),
        }
    );
}

#[test]
fn notice_becomes_a_settlement() {
    let payload = "{\"type\":\"DealAccepted\",\"amount\":5}";
    assert_eq!(
        PrivacyIntent::compose(payload.to_string()),
        PrivacyIntent {
            intent_type: "settlement".to_string(),
            payload: payload.to_string(),
            encrypted: false,
            relay_path: vec!["origin_node".to_string()],
            relay_fee: None,
        }
    );
}

#[test]
fn json_without_a_type_is_a_trade() {
    assert_eq!(PrivacyIntent::compose("{\"amount\":5}".to_string()).intent_type, "trade");
    assert_eq!(PrivacyIntent::compose("[\"type\"]".to_string()).intent_type, "trade");
    assert_eq!(PrivacyIntent::compose("{\"type\":".to_string()).intent_type, "trade");
    assert_eq!(PrivacyIntent::compose("{\"type\":null}".to_string()).intent_type, "settlement");
}

#[test]
fn carrying_follows_the_flag() {
    assert_eq!(PrivacyIntent::carrying("x".to_string(), true).intent_type, "settlement");
    assert_eq!(PrivacyIntent::carrying("x".to_string(), false).relay_fee, Some("0.005 SOL".to_string()));
}

#[test]
fn composed_intents_are_accepted_without_warning() {
    for payload in ["buy 10 units", "{\"type\":\"SettlementComplete\"}", ""] {
        let intent = PrivacyIntent::compose(payload.to_string());
        assert!(MeshNetwork::verify_relay_integrity(&intent));
        assert!(!MeshNetwork::fee_warning(&intent));
    }
}

#[test]
fn receipt_names_what_was_queued() {
    assert_eq!(
        PrivacyIntent::compose("buy 10 units".to_string()).receipt(),
        "Intent broadcasted: buy 10 units"
    );
    assert_eq!(
        PrivacyIntent::compose("{\"type\":\"DealAccepted\"}".to_string()).receipt(),
        "Settlement message broadcasted: {\"type\":\"DealAccepted\"}"
    );
}
