use privacy_mesh::intent::PrivacyIntent;
use privacy_mesh::json::{JsonNumber, JsonValue};

fn sample(fee: Option<&str>) -> PrivacyIntent {
    PrivacyIntent {
        intent_type: "trade".to_string(),
        payload: "buy 10 units".to_string(),
        encrypted: true,
        relay_path: vec!["origin".to_string(), "hop-2".to_string()],
        relay_fee: fee.map(|text| text.to_string()),
    }
}

fn read(bytes: &[u8]) -> Option<PrivacyIntent> {
    JsonValue::parse(bytes).and_then(|doc| PrivacyIntent::from_json(&doc))
}

#[test]
fn wire_form_is_compact_json_in_field_order() {
    assert_eq!(
        String::from_utf8(sample(Some("0.005 SOL")).to_wire()).unwrap(),
        r#"{"intent_type":"trade","payload":"buy 10 units","encrypted":true,"relay_path":["origin","hop-2"],"relay_fee":"0.005 SOL"}"#
    );
}

#[test]
fn missing_fee_is_written_as_null() {
    assert_eq!(
        String::from_utf8(sample(None).to_wire()).unwrap(),
        r#"{"intent_type":"trade","payload":"buy 10 units","encrypted":true,"relay_path":["origin","hop-2"],"relay_fee":null}"#
    );
}

#[test]
fn wire_round_trip_keeps_every_field() {
    for intent in [
        sample(None),
        sample(Some("0.005 SOL")),
        PrivacyIntent {
            intent_type: "settlement".to_string(),
            payload: "{\"type\":\"DealAccepted\",\"note\":\"line\\nbreak \\u00e9 \\\"q\\\"\"}".to_string(),
            encrypted: false,
            relay_path: vec![],
            relay_fee: Some(String::new()),
        },
        PrivacyIntent {
            intent_type: String::new(),
            payload: "tab\t quote\" backslash\\ snow\u{2603} control\u{1}".to_string(),
            encrypted: false,
            relay_path: vec![String::new(), "\u{1F980}".to_string()],
            relay_fee: None,
        },
    ] {
        assert_eq!(read(&intent.to_wire()), Some(intent));
    }
}

#[test]
fn document_round_trip_keeps_every_field() {
    let intent = sample(Some("2 NEAR"));
    assert!(intent.to_json().is_well_formed());
    assert_eq!(PrivacyIntent::from_json(&intent.to_json()), Some(intent));
}

#[test]
fn document_of_an_intent_has_five_members() {
    assert_eq!(
        sample(None).to_json(),
        JsonValue::Object(vec![
            ("intent_type".to_string(), JsonValue::Text("trade".to_string())),
            ("payload".to_string(), JsonValue::Text("buy 10 units".to_string())),
            ("encrypted".to_string(), JsonValue::Bool(true)),
            (
                "relay_path".to_string(),
                JsonValue::Array(vec![
                    JsonValue::Text("origin".to_string()),
                    JsonValue::Text("hop-2".to_string()),
                ])
            ),
            ("relay_fee".to_string(), JsonValue::Null),
        ])
    );
}

#[test]
fn fee_may_be_missing_in_the_document() {
    let bytes = br#"{"relay_path":["origin"],"encrypted":false,"payload":"p","intent_type":"trade","extra":[1,2]}"#;
    assert_eq!(
        read(bytes),
        Some(PrivacyIntent {
            intent_type: "trade".to_string(),
            payload: "p".to_string(),
            encrypted: false,
            relay_path: vec!["origin".to_string()],
            relay_fee: None,
        })
    );
}

#[test]
fn document_read_from_repeating_text_names_each_member_once() {
    let bytes = br#"{"intent_type":"trade","payload":"a","payload":"b","encrypted":true,"relay_path":["o"]}"#;
    let doc = JsonValue::parse(bytes).unwrap();
    assert!(doc.is_well_formed());
    assert_eq!(
        doc.render(),
        r#"{"intent_type":"trade","payload":"b","encrypted":true,"relay_path":["o"]}"#
    );
}

#[test]
fn misshapen_members_are_no_intent() {
    let cases: [&[u8]; 9] = [
        br#"{"payload":"p","encrypted":false,"relay_path":[]}"#,
        br#"{"intent_type":"trade","encrypted":false,"relay_path":[]}"#,
        br#"{"intent_type":"trade","payload":"p","relay_path":[]}"#,
        br#"{"intent_type":"trade","payload":"p","encrypted":false}"#,
        br#"{"intent_type":1,"payload":"p","encrypted":false,"relay_path":[]}"#,
        br#"{"intent_type":"trade","payload":"p","encrypted":"no","relay_path":[]}"#,
        br#"{"intent_type":"trade","payload":"p","encrypted":false,"relay_path":["a",2]}"#,
        br#"{"intent_type":"trade","payload":"p","encrypted":false,"relay_path":[],"relay_fee":5}"#,
        br#"{"intent_type":"trade","payload":"p","encrypted":false,"relay_path":"origin"}"#,
    ];
    for bytes in cases {
        assert_eq!(read(bytes), None);
    }
    assert_eq!(read(b"not json"), None);
    assert_eq!(PrivacyIntent::from_json(&JsonValue::Number(JsonNumber::Unsigned(1))), None);
}

#[test]
fn hop_count_is_the_length_of_the_path() {
    assert_eq!(sample(None).hop_count(), 2);
}
