//! The mesh node: its fixed settings and the decisions of its event loop.
//!
//! The node itself owns no socket. The embedding program binds the listener,
//! drives the gossip channel and the discovery service, and hands every
//! occurrence to [`MeshNetwork::react`], which answers with the actions to
//! perform, in order. With an incoming message it hands over what its typed
//! reader found in the bytes: the intent, or nothing.

use vstd::prelude::*;
use vstd::string::StringSliceAdditionalSpecFns;
use crate::classify::classification;
use crate::classify::classify_message;
use crate::classify::notice_event;
use crate::event::EventView;
use crate::event::MeshEvent;
use crate::intent::IntentView;
use crate::intent::PrivacyIntent;
use crate::intent::wire_form;
use crate::json::json_document;
use crate::relay::fee_unrecognized;
use crate::relay::relay_intact;

verus! {

/// The settings of one mesh node. They are fixed when the node is made.
#[derive(Debug, Clone, PartialEq, Eq)]
pub struct MeshNetwork {
    /// The one gossip topic that carries all traffic.
    pub topic: String,
    /// Where the node listens: every local interface, a port of the system's
    /// choice.
    pub listen_address: String,
    /// Seconds between two gossip heartbeats.
    pub heartbeat_secs: u64,
    /// Seconds after which an idle connection is closed.
    pub idle_timeout_secs: u64,
    /// Messages that fail validation never reach the application.
    pub strict_validation: bool,
    /// Every published message is signed with the key of the node.
    pub signed_messages: bool,
}

/// What a [`MeshNetwork`] is, as plain mathematical values.
pub struct MeshSettings {
    pub topic: Seq<char>,
    pub listen_address: Seq<char>,
    pub heartbeat_secs: u64,
    pub idle_timeout_secs: u64,
    pub strict_validation: bool,
    pub signed_messages: bool,
}

impl View for MeshNetwork {
    type V = MeshSettings;

    open spec fn view(&self) -> MeshSettings {
        MeshSettings {
            topic: self.topic@,
            listen_address: self.listen_address@,
            heartbeat_secs: self.heartbeat_secs,
            idle_timeout_secs: self.idle_timeout_secs,
            strict_validation: self.strict_validation,
            signed_messages: self.signed_messages,
        }
    }
}

/// The settings every node starts with.
pub open spec fn standard_settings() -> MeshSettings {
    MeshSettings {
        topic: "just-nobody-privacy-intents"@,
        listen_address: "/ip4/0.0.0.0/tcp/0"@,
        heartbeat_secs: 1,
        idle_timeout_secs: 60,
        strict_validation: true,
        signed_messages: true,
    }
}

/// Why the mesh did not do what it was asked.
#[derive(Debug, Clone, PartialEq, Eq)]
pub enum MeshError {
    /// The intent failed the relay-integrity validation.
    MalformedRelayPath,
    /// The gossip channel refused the message, for the reason given.
    PublishFailed(String),
    /// The listener could not be bound, for the reason given.
    ListenFailed(String),
}

/// What a [`MeshError`] is, as plain mathematical values.
pub enum ErrorView {
    MalformedRelayPath,
    PublishFailed(Seq<char>),
    ListenFailed(Seq<char>),
}

impl View for MeshError {
    type V = ErrorView;

    open spec fn view(&self) -> ErrorView {
        match self {
            MeshError::MalformedRelayPath => ErrorView::MalformedRelayPath,
            MeshError::PublishFailed(reason) => ErrorView::PublishFailed(reason@),
            MeshError::ListenFailed(reason) => ErrorView::ListenFailed(reason@),
        }
    }
}

/// The words of an error.
pub open spec fn error_text(error: ErrorView) -> Seq<char> {
    match error {
        ErrorView::MalformedRelayPath => "Integrity check failed: Malformed relay path"@,
        ErrorView::PublishFailed(reason) => reason,
        ErrorView::ListenFailed(reason) => reason,
    }
}

impl MeshError {
    /// The error in words.
    pub fn message(&self) -> (text: String)
        ensures
            text@ == error_text(self@),
    {
        match self {
            MeshError::MalformedRelayPath => "Integrity check failed: Malformed relay path".to_owned(),
            MeshError::PublishFailed(reason) => reason.clone(),
            MeshError::ListenFailed(reason) => reason.clone(),
        }
    }
}

/// How the gossip channel answered a publish.
#[derive(Debug, Clone, PartialEq, Eq)]
pub enum PublishOutcome {
    /// The message went out to the subscribed peers.
    Published,
    /// No peer is connected: the node works on its own.
    InsufficientPeers,
    /// Any other refusal, with its reason.
    Failed(String),
}

/// What a [`PublishOutcome`] is, as plain mathematical values.
pub enum OutcomeView {
    Published,
    InsufficientPeers,
    Failed(Seq<char>),
}

impl View for PublishOutcome {
    type V = OutcomeView;

    open spec fn view(&self) -> OutcomeView {
        match self {
            PublishOutcome::Published => OutcomeView::Published,
            PublishOutcome::InsufficientPeers => OutcomeView::InsufficientPeers,
            PublishOutcome::Failed(reason) => OutcomeView::Failed(reason@),
        }
    }
}

/// One occurrence that the event loop is handed.
#[derive(Debug, Clone, PartialEq, Eq)]
pub enum MeshInput {
    /// The application asks for an intent to be broadcast.
    Outbound(PrivacyIntent),
    /// The gossip channel answered a publish.
    PublishFinished(PublishOutcome),
    /// The listener is bound to this address.
    Listening(String),
    /// The listener could not be bound, for the reason given.
    ListenFailed(String),
    /// Discovery reports peers that appeared, each with its address.
    Discovered(Vec<(String, String)>),
    /// Discovery reports peers that are gone, each with its last address.
    Expired(Vec<(String, String)>),
    /// An authenticated message arrived on the topic. `envelope` is the
    /// intent that the typed reading of `data` gave, if it gave one.
    Message { data: Vec<u8>, envelope: Option<PrivacyIntent> },
    /// Anything else the network reports.
    Other,
}

/// What a [`MeshInput`] is, as plain mathematical values.
pub enum InputView {
    Outbound(IntentView),
    PublishFinished(OutcomeView),
    Listening(Seq<char>),
    ListenFailed(Seq<char>),
    Discovered(Seq<(Seq<char>, Seq<char>)>),
    Expired(Seq<(Seq<char>, Seq<char>)>),
    Message { data: Seq<u8>, envelope: Option<IntentView> },
    Other,
}

impl View for MeshInput {
    type V = InputView;

    open spec fn view(&self) -> InputView {
        match self {
            MeshInput::Outbound(intent) => InputView::Outbound(intent@),
            MeshInput::PublishFinished(outcome) => InputView::PublishFinished(outcome@),
            MeshInput::Listening(address) => InputView::Listening(address@),
            MeshInput::ListenFailed(reason) => InputView::ListenFailed(reason@),
            MeshInput::Discovered(peers) => InputView::Discovered(peers.deep_view()),
            MeshInput::Expired(peers) => InputView::Expired(peers.deep_view()),
            MeshInput::Message { data, envelope } => InputView::Message {
                data: data@,
                envelope: envelope.deep_view(),
            },
            MeshInput::Other => InputView::Other,
        }
    }
}

/// One thing the event loop asks the embedding program to do.
#[derive(Debug, Clone, PartialEq, Eq)]
pub enum MeshAction {
    /// Bind the listener to this address.
    Listen(String),
    /// Publish these bytes on the topic.
    Publish(Vec<u8>),
    /// Add the peer to the explicit peer set of the gossip channel.
    AddPeer(String),
    /// Remove the peer from the explicit peer set of the gossip channel.
    RemovePeer(String),
    /// Hand the event to the application.
    Emit(MeshEvent),
    /// Go on; the fee note of the intent about to be published names no
    /// known currency, which is worth a line in the log and nothing else.
    WarnFee(String),
    /// Go on; the error is worth a line in the log and nothing else.
    Report(MeshError),
    /// End the loop and hand the error to whoever started it.
    Stop(MeshError),
}

/// What a [`MeshAction`] is, as plain mathematical values.
pub enum ActionView {
    Listen(Seq<char>),
    Publish(Seq<u8>),
    AddPeer(Seq<char>),
    RemovePeer(Seq<char>),
    Emit(EventView),
    WarnFee(Seq<char>),
    Report(ErrorView),
    Stop(ErrorView),
}

impl View for MeshAction {
    type V = ActionView;

    open spec fn view(&self) -> ActionView {
        match self {
            MeshAction::Listen(address) => ActionView::Listen(address@),
            MeshAction::Publish(bytes) => ActionView::Publish(bytes@),
            MeshAction::AddPeer(peer_id) => ActionView::AddPeer(peer_id@),
            MeshAction::RemovePeer(peer_id) => ActionView::RemovePeer(peer_id@),
            MeshAction::Emit(event) => ActionView::Emit(event@),
            MeshAction::WarnFee(fee) => ActionView::WarnFee(fee@),
            MeshAction::Report(error) => ActionView::Report(error@),
            MeshAction::Stop(error) => ActionView::Stop(error@),
        }
    }
}

impl DeepView for MeshAction {
    type V = ActionView;

    open spec fn deep_view(&self) -> ActionView {
        self@
    }
}

/// What follows the discovery of `peers`: each peer is added to the explicit
/// peer set and then announced, peer after peer.
pub open spec fn discovery_actions(peers: Seq<(Seq<char>, Seq<char>)>) -> Seq<ActionView> {
    Seq::new(
        2 * peers.len(),
        |k: int|
            if k % 2 == 0 {
                ActionView::AddPeer(peers[k / 2].0)
            } else {
                ActionView::Emit(
                    EventView::PeerDiscovered { peer_id: peers[k / 2].0, address: peers[k / 2].1 },
                )
            },
    )
}

/// What follows the expiry of `peers`: each is removed from the explicit peer
/// set, and nothing is announced.
pub open spec fn expiry_actions(peers: Seq<(Seq<char>, Seq<char>)>) -> Seq<ActionView> {
    Seq::new(peers.len(), |k: int| ActionView::RemovePeer(peers[k].0))
}

/// What follows a request to broadcast `intent`. With an intact relay path
/// its wire form is published, after a warning where the fee note names no
/// known currency. Without one the intent is dropped and the refusal
/// reported; its fee note is not looked at.
pub open spec fn outbound_actions(intent: IntentView) -> Seq<ActionView> {
    if !relay_intact(intent) {
        seq![ActionView::Report(ErrorView::MalformedRelayPath)]
    } else if fee_unrecognized(intent) {
        seq![ActionView::WarnFee(intent.relay_fee->Some_0), ActionView::Publish(wire_form(intent))]
    } else {
        seq![ActionView::Publish(wire_form(intent))]
    }
}

/// What follows the answer to a publish: a refusal is reported, and nothing
/// else happens. A channel without peers has not refused.
pub open spec fn publish_actions(outcome: OutcomeView) -> Seq<ActionView> {
    match publish_verdict(outcome) {
        Ok(_) => Seq::empty(),
        Err(error) => seq![ActionView::Report(error)],
    }
}

/// What follows the arrival of a message: the event it is classified as, or
/// nothing where it cannot be classified.
pub open spec fn message_actions(data: Seq<u8>, envelope: Option<IntentView>) -> Seq<ActionView> {
    match classification(data, envelope) {
        Some(event) => seq![ActionView::Emit(event)],
        None => Seq::empty(),
    }
}

/// The actions with which the event loop answers one occurrence.
pub open spec fn reaction(input: InputView) -> Seq<ActionView> {
    match input {
        InputView::Outbound(intent) => outbound_actions(intent),
        InputView::PublishFinished(outcome) => publish_actions(outcome),
        InputView::Listening(address) => seq![
            ActionView::Emit(EventView::ListeningStarted { address }),
        ],
        InputView::ListenFailed(reason) => seq![ActionView::Stop(ErrorView::ListenFailed(reason))],
        InputView::Discovered(peers) => discovery_actions(peers),
        InputView::Expired(peers) => expiry_actions(peers),
        InputView::Message { data, envelope } => message_actions(data, envelope),
        InputView::Other => Seq::empty(),
    }
}

/// How a publish ends for the one who asked: a channel without peers is a
/// success, any other refusal is an error.
pub open spec fn publish_verdict(outcome: OutcomeView) -> Result<(), ErrorView> {
    match outcome {
        OutcomeView::Published => Ok(()),
        OutcomeView::InsufficientPeers => Ok(()),
        OutcomeView::Failed(reason) => Err(ErrorView::PublishFailed(reason)),
    }
}

/// An intent without a hop on its relay path is never published: the loop
/// answers the request with a single report.
pub proof fn lemma_empty_path_is_not_published(intent: IntentView)
    requires
        intent.relay_path.len() == 0,
    ensures
        reaction(InputView::Outbound(intent)) == seq![
            ActionView::Report(ErrorView::MalformedRelayPath),
        ],
        forall|k: int|
            0 <= k < reaction(InputView::Outbound(intent)).len() ==> !(#[trigger] reaction(
                InputView::Outbound(intent),
            )[k] is Publish),
{
}

/// An intent with a hop on its relay path is published in its wire form,
/// whatever its fee note says: the note decides on a warning before the
/// publish and on nothing else.
pub proof fn lemma_intact_path_is_published(intent: IntentView)
    requires
        intent.relay_path.len() > 0,
    ensures
        reaction(InputView::Outbound(intent)).last() == ActionView::Publish(wire_form(intent)),
        forall|k: int|
            0 <= k < reaction(InputView::Outbound(intent)).len() ==> !(#[trigger] reaction(
                InputView::Outbound(intent),
            )[k] is Report),
        reaction(InputView::Outbound(intent)).len() == if fee_unrecognized(intent) {
            2int
        } else {
            1int
        },
{
}

/// Whatever the loop publishes is the wire form of an intent that the
/// application asked to broadcast and whose relay path is not empty.
pub proof fn lemma_published_bytes_carry_a_path(input: InputView, k: int)
    requires
        0 <= k < reaction(input).len(),
        reaction(input)[k] is Publish,
    ensures
        input matches InputView::Outbound(intent) && intent.relay_path.len() > 0 && reaction(
            input,
        )[k] == ActionView::Publish(wire_form(intent)),
{
}

/// The explicit peer set changes on discovery events only: peers are added
/// when they are discovered and removed when they expire.
pub proof fn lemma_peer_set_follows_discovery(input: InputView, k: int)
    requires
        0 <= k < reaction(input).len(),
    ensures
        reaction(input)[k] is AddPeer ==> input is Discovered,
        reaction(input)[k] is RemovePeer ==> input is Expired,
{
}

/// A message that was read as no intent and is no notice leaves no trace:
/// nothing is emitted, nothing is published, no peer is touched, and the
/// loop goes on.
pub proof fn lemma_unreadable_message_is_dropped(data: Seq<u8>)
    requires
        match json_document(data) {
            Some(notice) => notice_event(notice) is None,
            None => true,
        },
    ensures
        reaction(InputView::Message { data, envelope: None }).len() == 0,
{
}

/// A message never does more than announce one event: whatever it holds, the
/// loop neither publishes nor touches a peer nor stops on it.
pub proof fn lemma_message_only_announces(data: Seq<u8>, envelope: Option<IntentView>, k: int)
    requires
        0 <= k < reaction(InputView::Message { data, envelope }).len(),
    ensures
        reaction(InputView::Message { data, envelope }).len() == 1,
        reaction(InputView::Message { data, envelope })[k] is Emit,
{
}

/// Only a listener that cannot be bound ends the loop. No message, no
/// request and no answer to a publish does.
pub proof fn lemma_only_bind_failure_stops(input: InputView, k: int)
    requires
        0 <= k < reaction(input).len(),
        reaction(input)[k] is Stop,
    ensures
        input matches InputView::ListenFailed(reason) && reaction(input) == seq![
            ActionView::Stop(ErrorView::ListenFailed(reason)),
        ],
{
}

/// A publish on a channel without peers is a success: the loop reports
/// nothing and goes on.
pub proof fn lemma_no_peers_is_success()
    ensures
        publish_verdict(OutcomeView::InsufficientPeers) is Ok,
        reaction(InputView::PublishFinished(OutcomeView::InsufficientPeers)).len() == 0,
{
}

/// Every discovered peer is announced once, right after it was added.
pub proof fn lemma_each_discovered_peer_is_announced(peers: Seq<(Seq<char>, Seq<char>)>, i: int)
    requires
        0 <= i < peers.len(),
    ensures
        discovery_actions(peers).len() == 2 * peers.len(),
        discovery_actions(peers)[2 * i] == ActionView::AddPeer(peers[i].0),
        discovery_actions(peers)[2 * i + 1] == ActionView::Emit(
            EventView::PeerDiscovered { peer_id: peers[i].0, address: peers[i].1 },
        ),
{
}

fn discovered(peers: &Vec<(String, String)>) -> (actions: Vec<MeshAction>)
    ensures
        actions.deep_view() == discovery_actions(peers.deep_view()),
{
    let mut actions: Vec<MeshAction> = Vec::new();
    let mut i: usize = 0;
    while i < peers.len()
        invariant
            i <= peers.len(),
            actions.len() == 2 * i,
            forall|k: int|
                0 <= k < 2 * i ==> (#[trigger] actions[k])@ == discovery_actions(
                    peers.deep_view(),
                )[k],
        decreases peers.len() - i,
    {
        let peer_id = peers[i].0.clone();
        let address = peers[i].1.clone();
        assert(peers.deep_view()[i as int] == (peer_id@, address@));
        actions.push(MeshAction::AddPeer(peer_id.clone()));
        actions.push(MeshAction::Emit(MeshEvent::PeerDiscovered { peer_id, address }));
        i += 1;
    }
    assert(actions.deep_view() =~= discovery_actions(peers.deep_view()));
    actions
}

fn expired(peers: &Vec<(String, String)>) -> (actions: Vec<MeshAction>)
    ensures
        actions.deep_view() == expiry_actions(peers.deep_view()),
{
    let mut actions: Vec<MeshAction> = Vec::new();
    let mut i: usize = 0;
    while i < peers.len()
        invariant
            i <= peers.len(),
            actions.len() == i,
            forall|k: int|
                0 <= k < i ==> (#[trigger] actions[k])@ == expiry_actions(peers.deep_view())[k],
        decreases peers.len() - i,
    {
        let peer_id = peers[i].0.clone();
        assert(peers.deep_view()[i as int].0 == peer_id@);
        actions.push(MeshAction::RemovePeer(peer_id));
        i += 1;
    }
    assert(actions.deep_view() =~= expiry_actions(peers.deep_view()));
    actions
}

impl MeshNetwork {
    /// A node with the standard settings.
    pub fn new() -> (mesh: MeshNetwork)
        ensures
            mesh@ == standard_settings(),
    {
        MeshNetwork {
            topic: "just-nobody-privacy-intents".to_owned(),
            listen_address: "/ip4/0.0.0.0/tcp/0".to_owned(),
            heartbeat_secs: 1,
            idle_timeout_secs: 60,
            strict_validation: true,
            signed_messages: true,
        }
    }

    /// The first action of the event loop: bind the listener.
    pub fn start(&self) -> (first: MeshAction)
        ensures
            first@ == ActionView::Listen(self@.listen_address),
    {
        MeshAction::Listen(self.listen_address.clone())
    }

    /// One turn of the event loop: the actions that answer `input`, in the
    /// order in which they are to be performed.
    pub fn react(&self, input: MeshInput) -> (actions: Vec<MeshAction>)
        ensures
            actions.deep_view() == reaction(input@),
    {
        let mut actions: Vec<MeshAction> = Vec::new();
        match input {
            MeshInput::Outbound(intent) => {
                match self.broadcast_intent(&intent) {
                    Ok(bytes) => {
                        if MeshNetwork::fee_warning(&intent) {
                            match &intent.relay_fee {
                                Some(fee) => actions.push(MeshAction::WarnFee(fee.clone())),
                                None => {},
                            }
                        }
                        actions.push(MeshAction::Publish(bytes));
                    },
                    Err(error) => actions.push(MeshAction::Report(error)),
                }
                assert(actions.deep_view() =~= outbound_actions(intent@));
            },
            MeshInput::PublishFinished(outcome) => {
                match MeshNetwork::publish_result(outcome) {
                    Ok(_) => {},
                    Err(error) => actions.push(MeshAction::Report(error)),
                }
                assert(actions.deep_view() =~= publish_actions(outcome@));
            },
            MeshInput::ListenFailed(reason) => {
                actions.push(MeshAction::Stop(MeshError::ListenFailed(reason)));
                assert(actions.deep_view() =~= reaction(input@));
            },
            MeshInput::Listening(address) => {
                actions.push(MeshAction::Emit(MeshEvent::ListeningStarted { address }));
                assert(actions.deep_view() =~= reaction(input@));
            },
            MeshInput::Discovered(peers) => {
                actions = discovered(&peers);
            },
            MeshInput::Expired(peers) => {
                actions = expired(&peers);
            },
            MeshInput::Message { data, envelope } => {
                let ghost stated = envelope.deep_view();
                match classify_message(data.as_slice(), envelope) {
                    Some(event) => actions.push(MeshAction::Emit(event)),
                    None => {},
                }
                assert(actions.deep_view() =~= message_actions(data@, stated));
            },
            MeshInput::Other => {
                assert(actions.deep_view() =~= reaction(input@));
            },
        }
        actions
    }

    /// Prepares an intent for the topic. An intent that fails the
    /// relay-integrity validation is refused; for any other the bytes to publish
    /// are returned.
    pub fn broadcast_intent(&self, intent: &PrivacyIntent) -> (payload: Result<Vec<u8>, MeshError>)
        ensures
            match payload {
                Ok(bytes) => relay_intact(intent@) && bytes@ == wire_form(intent@),
                Err(error) => !relay_intact(intent@) && error@ == ErrorView::MalformedRelayPath,
            },
    {
        if !MeshNetwork::verify_relay_integrity(intent) {
            return Err(MeshError::MalformedRelayPath);
        }
        Ok(intent.to_wire())
    }

    /// Prepares a message that is sent as it is: its bytes in UTF-8.
    pub fn broadcast_raw(&self, message: String) -> (payload: Vec<u8>)
        ensures
            payload@ == vstd::utf8::encode_utf8(message@),
    {
        message.as_str().as_bytes_vec()
    }

    /// Turns the answer of the gossip channel into the result of a
    /// broadcast. A node without peers has broadcast successfully.
    pub fn publish_result(outcome: PublishOutcome) -> (verdict: Result<(), MeshError>)
        ensures
            match verdict {
                Ok(_) => publish_verdict(outcome@) is Ok,
                Err(error) => publish_verdict(outcome@) == Err::<(), ErrorView>(error@),
            },
            outcome is InsufficientPeers ==> verdict is Ok,
    {
        match outcome {
            PublishOutcome::Published => Ok(()),
            PublishOutcome::InsufficientPeers => Ok(()),
            PublishOutcome::Failed(reason) => Err(MeshError::PublishFailed(reason)),
        }
    }
}

} // verus!
