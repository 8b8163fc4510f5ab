use privacy_mesh::event::MeshEvent;
use privacy_mesh::intent::PrivacyIntent;
use privacy_mesh::mesh::{MeshAction, MeshError, MeshInput, MeshNetwork, PublishOutcome};

fn intent(path: &[&str]) -> PrivacyIntent {
    PrivacyIntent {
        intent_type: "trade".to_string(),
        payload: "buy 10 units".to_string(),
        encrypted: true,
        relay_path: path.iter().map(|hop| hop.to_string()).collect(),
        relay_fee: Some("0.005 SOL".to_string()),
    }
}

fn peer(id: &str, address: &str) -> (String, String) {
    (id.to_string(), address.to_string())
}

#[test]
fn node_starts_with_the_standard_settings() {
    let mesh = MeshNetwork::new();
    assert_eq!(mesh.topic, "just-nobody-privacy-intents");
    assert_eq!(mesh.listen_address, "/ip4/0.0.0.0/tcp/0");
    assert_eq!(mesh.heartbeat_secs, 1);
    assert_eq!(mesh.idle_timeout_secs, 60);
    assert!(mesh.strict_validation);
    assert!(mesh.signed_messages);
}

#[test]
fn loop_begins_by_binding_the_listener() {
    assert_eq!(MeshNetwork::new().start(), MeshAction::Listen("/ip4/0.0.0.0/tcp/0".to_string()));
}

#[test]
fn bound_listener_is_announced() {
    let mesh = MeshNetwork::new();
    assert_eq!(
        mesh.react(MeshInput::Listening("/ip4/192.168.1.7/tcp/40123".to_string())),
        vec![MeshAction::Emit(MeshEvent::ListeningStarted {
            address: "/ip4/192.168.1.7/tcp/40123".to_string()
        })]
    );
}

#[test]
fn intact_intent_is_published_in_wire_form() {
    let mesh = MeshNetwork::new();
    let expected = br#"{"intent_type":"trade","payload":"buy 10 units","encrypted":true,"relay_path":["origin"],"relay_fee":"0.005 SOL"}"#;
    assert_eq!(
        mesh.react(MeshInput::Outbound(intent(&["origin"]))),
        vec![MeshAction::Publish(expected.to_vec())]
    );
    assert_eq!(mesh.broadcast_intent(&intent(&["origin"])), Ok(expected.to_vec()));
}

#[test]
fn unknown_fee_format_warns_and_still_publishes() {
    let mesh = MeshNetwork::new();
    let mut odd = intent(&["origin"]);
    odd.relay_fee = Some("three shells".to_string());
    let actions = mesh.react(MeshInput::Outbound(odd.clone()));
    assert_eq!(
        actions,
        vec![MeshAction::WarnFee("three shells".to_string()), MeshAction::Publish(odd.to_wire())]
    );
    let mut free = intent(&["origin"]);
    free.relay_fee = None;
    assert_eq!(mesh.react(MeshInput::Outbound(free.clone())), vec![MeshAction::Publish(free.to_wire())]);
}

#[test]
fn intent_without_hops_is_discarded() {
    let mesh = MeshNetwork::new();
    assert_eq!(
        mesh.react(MeshInput::Outbound(intent(&[]))),
        vec![MeshAction::Report(MeshError::MalformedRelayPath)]
    );
    let mut odd = intent(&[]);
    odd.relay_fee = Some("three shells".to_string());
    assert_eq!(
        mesh.react(MeshInput::Outbound(odd)),
        vec![MeshAction::Report(MeshError::MalformedRelayPath)]
    );
}

#[test]
fn discovered_peers_are_added_then_announced() {
    let mesh = MeshNetwork::new();
    let peers = vec![peer("12D3KooWA", "/ip4/10.0.0.2/tcp/4001"), peer("12D3KooWB", "/ip4/10.0.0.3/tcp/4001")];
    assert_eq!(
        mesh.react(MeshInput::Discovered(peers)),
        vec![
            MeshAction::AddPeer("12D3KooWA".to_string()),
            MeshAction::Emit(MeshEvent::PeerDiscovered {
                peer_id: "12D3KooWA".to_string(),
                address: "/ip4/10.0.0.2/tcp/4001".to_string()
            }),
            MeshAction::AddPeer("12D3KooWB".to_string()),
            MeshAction::Emit(MeshEvent::PeerDiscovered {
                peer_id: "12D3KooWB".to_string(),
                address: "/ip4/10.0.0.3/tcp/4001".to_string()
            }),
        ]
    );
    assert_eq!(mesh.react(MeshInput::Discovered(vec![])), vec![]);
}

#[test]
fn peer_seen_at_two_addresses_is_announced_for_each() {
    let mesh = MeshNetwork::new();
    let actions = mesh.react(MeshInput::Discovered(vec![
        peer("12D3KooWA", "/ip4/10.0.0.2/tcp/4001"),
        peer("12D3KooWA", "/ip4/127.0.0.1/tcp/4001"),
    ]));
    assert_eq!(actions.len(), 4);
    assert_eq!(actions[2], MeshAction::AddPeer("12D3KooWA".to_string()));
}

#[test]
fn expired_peers_are_removed_in_silence() {
    let mesh = MeshNetwork::new();
    let peers = vec![peer("12D3KooWA", "/ip4/10.0.0.2/tcp/4001"), peer("12D3KooWB", "/ip4/10.0.0.3/tcp/4001")];
    assert_eq!(
        mesh.react(MeshInput::Expired(peers)),
        vec![MeshAction::RemovePeer("12D3KooWA".to_string()), MeshAction::RemovePeer("12D3KooWB".to_string())]
    );
}

fn message(data: &[u8], envelope: Option<PrivacyIntent>) -> MeshInput {
    MeshInput::Message { data: data.to_vec(), envelope }
}

#[test]
fn incoming_message_is_classified_and_emitted() {
    let mesh = MeshNetwork::new();
    assert_eq!(
        mesh.react(message(br#"{"type":"DealAccepted","amount":5}"#, None)),
        vec![MeshAction::Emit(MeshEvent::DealAccepted {
            details: "{\"type\":\"DealAccepted\",\"amount\":5}".to_string()
        })]
    );
    assert_eq!(
        mesh.react(message(&intent(&["origin"]).to_wire(), Some(intent(&["origin"])))),
        vec![MeshAction::Emit(MeshEvent::IntentReceived { intent: intent(&["origin"]) })]
    );
}

#[test]
fn loop_goes_on_after_a_message_it_cannot_classify() {
    let mesh = MeshNetwork::new();
    assert_eq!(mesh.react(message(b"\x00\x01garbage", None)), vec![]);
    assert_eq!(mesh.react(message(br#"{"foo":"bar"}"#, None)), vec![]);
    assert_eq!(mesh.react(message(br#"[1,2,3]"#, None)), vec![]);
    assert_eq!(
        mesh.react(message(br#"{"type":"SettlementComplete"}"#, None)),
        vec![MeshAction::Emit(MeshEvent::SettlementComplete {
            details: "{\"type\":\"SettlementComplete\"}".to_string()
        })]
    );
}

#[test]
fn message_that_repeats_a_member_is_no_intent() {
    // The typed reader of the embedding program finds no intent in text
    // that names a member twice, so the message arrives without one.
    let mesh = MeshNetwork::new();
    let bytes = br#"{"intent_type":"trade","payload":"a","payload":"b","encrypted":true,"relay_path":["o"]}"#;
    assert_eq!(mesh.react(message(bytes, None)), vec![]);
}

#[test]
fn other_network_events_need_no_action() {
    assert_eq!(MeshNetwork::new().react(MeshInput::Other), vec![]);
}

#[test]
fn publish_without_peers_is_a_success() {
    assert_eq!(MeshNetwork::publish_result(PublishOutcome::InsufficientPeers), Ok(()));
    assert_eq!(MeshNetwork::publish_result(PublishOutcome::Published), Ok(()));
}

#[test]
fn other_publish_failures_are_errors() {
    assert_eq!(
        MeshNetwork::publish_result(PublishOutcome::Failed("message too large".to_string())),
        Err(MeshError::PublishFailed("message too large".to_string()))
    );
}

#[test]
fn refused_publish_is_reported_and_the_loop_goes_on() {
    let mesh = MeshNetwork::new();
    assert_eq!(
        mesh.react(MeshInput::PublishFinished(PublishOutcome::Failed("message too large".to_string()))),
        vec![MeshAction::Report(MeshError::PublishFailed("message too large".to_string()))]
    );
    assert_eq!(mesh.react(MeshInput::PublishFinished(PublishOutcome::InsufficientPeers)), vec![]);
    assert_eq!(mesh.react(MeshInput::PublishFinished(PublishOutcome::Published)), vec![]);
}

#[test]
fn listener_that_cannot_be_bound_ends_the_loop() {
    let mesh = MeshNetwork::new();
    assert_eq!(
        mesh.react(MeshInput::ListenFailed("address in use".to_string())),
        vec![MeshAction::Stop(MeshError::ListenFailed("address in use".to_string()))]
    );
    assert_eq!(MeshError::ListenFailed("address in use".to_string()).message(), "address in use");
}

#[test]
fn raw_message_is_sent_as_its_bytes() {
    let mesh = MeshNetwork::new();
    assert_eq!(mesh.broadcast_raw("ping \u{e9}".to_string()), vec![b'p', b'i', b'n', b'g', b' ', 0xc3, 0xa9]);
    assert_eq!(mesh.broadcast_raw(String::new()), Vec::<u8>::new());
}
