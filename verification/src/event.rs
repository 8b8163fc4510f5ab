//! What the mesh tells the application.

use vstd::prelude::*;
use crate::intent::PrivacyIntent;
use crate::intent::IntentView;

verus! {

/// One message from the mesh to the application. An event is complete when
/// it is made and is never changed afterwards.
#[derive(Debug, Clone, PartialEq, Eq)]
pub enum MeshEvent {
    /// The node listens on `address`.
    ListeningStarted { address: String },
    /// Discovery found a peer.
    PeerDiscovered { peer_id: String, address: String },
    /// A trade intent arrived.
    IntentReceived { intent: PrivacyIntent },
    /// A counterparty accepted a deal; `details` is the JSON text of the notice.
    DealAccepted { details: String },
    /// A settlement was confirmed; `details` is the JSON text of the notice.
    SettlementComplete { details: String },
}

/// What a [`MeshEvent`] is, as plain mathematical values.
pub enum EventView {
    ListeningStarted { address: Seq<char> },
    PeerDiscovered { peer_id: Seq<char>, address: Seq<char> },
    IntentReceived { intent: IntentView },
    DealAccepted { details: Seq<char> },
    SettlementComplete { details: Seq<char> },
}

impl View for MeshEvent {
    type V = EventView;

    open spec fn view(&self) -> EventView {
        match self {
            MeshEvent::ListeningStarted { address } => EventView::ListeningStarted {
                address: address@,
            },
            MeshEvent::PeerDiscovered { peer_id, address } => EventView::PeerDiscovered {
                peer_id: peer_id@,
                address: address@,
            },
            MeshEvent::IntentReceived { intent } => EventView::IntentReceived { intent: intent@ },
            MeshEvent::DealAccepted { details } => EventView::DealAccepted { details: details@ },
            MeshEvent::SettlementComplete { details } => EventView::SettlementComplete {
                details: details@,
            },
        }
    }
}

impl DeepView for MeshEvent {
    type V = EventView;

    open spec fn deep_view(&self) -> EventView {
        self@
    }
}

} // verus!
