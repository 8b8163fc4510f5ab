//! Telling apart the three kinds of message that share the gossip topic:
//! trade intents, deal acceptances and settlement confirmations.
//!
//! A message is read in two ways, in this order. First as an intent, by the
//! typed reader of the embedding program; an intent tagged `settlement`
//! carries its notice as JSON text in its payload. Failing that, as a bare
//! notice: a JSON object with a `type` member. A message that is neither is
//! dropped.

use vstd::prelude::*;
use vstd::string::StringSliceAdditionalSpecFns;
use crate::event::EventView;
use crate::event::MeshEvent;
use crate::intent::IntentView;
use crate::intent::PrivacyIntent;
use crate::json::JsonModel;
use crate::json::JsonValue;
use crate::json::json_document;
use crate::json::json_text;
use crate::json::lemma_name_finds_its_member;

verus! {

/// The event that a notice announces. Its `type` member decides:
/// `SettlementComplete` and `DealAccepted` give an event that carries the
/// notice as compact JSON text, anything else gives none. In a well-formed
/// notice the member that decides is the only one of that name, so the text
/// shows the very type that was decided on.
pub open spec fn notice_event(doc: JsonModel) -> Option<EventView> {
    match doc.member("type"@) {
        Some(JsonModel::Text(kind)) => {
            if kind == "SettlementComplete"@ {
                Some(EventView::SettlementComplete { details: json_text(doc) })
            } else if kind == "DealAccepted"@ {
                Some(EventView::DealAccepted { details: json_text(doc) })
            } else {
                None
            }
        },
        _ => None,
    }
}

/// The event that an intent gives rise to. A settlement announces the notice
/// in its payload, where that is a JSON document; any other intent is handed
/// on as it is.
pub open spec fn intent_event(intent: IntentView) -> Option<EventView> {
    if intent.intent_type == "settlement"@ {
        match json_document(vstd::utf8::encode_utf8(intent.payload)) {
            Some(notice) => notice_event(notice),
            None => None,
        }
    } else {
        Some(EventView::IntentReceived { intent })
    }
}

/// The event that a message gives rise to. `envelope` is the intent that
/// the typed reading of the bytes gave, if it gave one: then the intent
/// decides. Otherwise the bytes are read as a bare notice, and bytes that are
/// no JSON document give no event.
pub open spec fn classification(data: Seq<u8>, envelope: Option<IntentView>) -> Option<EventView> {
    match envelope {
        Some(intent) => intent_event(intent),
        None => match json_document(data) {
            Some(notice) => notice_event(notice),
            None => None,
        },
    }
}

/// A message that was read as no intent and is no notice gives no event:
/// neither bytes that are no JSON document, nor a document without a `type`
/// member that names a known notice.
pub proof fn lemma_unreadable_message_gives_no_event(data: Seq<u8>)
    requires
        match json_document(data) {
            Some(notice) => notice_event(notice) is None,
            None => true,
        },
    ensures
        classification(data, None) is None,
{
}

/// In a well-formed notice, any member named `type` is the one that decides.
pub proof fn lemma_notice_type_is_unique(doc: JsonModel, i: int)
    requires
        doc.well_formed(),
        doc is Object,
        0 <= i < doc->Object_0.len(),
        doc->Object_0[i].0 == "type"@,
    ensures
        doc.member("type"@) == Some(doc->Object_0[i].1),
{
    lemma_name_finds_its_member(doc->Object_0, "type"@, i);
}

/// Reads a notice: a deal acceptance or a settlement confirmation.
pub fn classify_notice(doc: &JsonValue) -> (event: Option<MeshEvent>)
    requires
        doc@.well_formed(),
    ensures
        event.deep_view() == notice_event(doc@),
{
    let kind = match doc.get("type") {
        Some(value) => match value.as_text() {
            Some(kind) => kind.to_owned(),
            None => {
                return None;
            },
        },
        None => {
            return None;
        },
    };
    if kind == "SettlementComplete".to_owned() {
        Some(MeshEvent::SettlementComplete { details: doc.render() })
    } else if kind == "DealAccepted".to_owned() {
        Some(MeshEvent::DealAccepted { details: doc.render() })
    } else {
        None
    }
}

/// Decides what a decoded intent means to the application.
pub fn classify_intent(intent: PrivacyIntent) -> (event: Option<MeshEvent>)
    ensures
        event.deep_view() == intent_event(intent@),
{
    if intent.intent_type == "settlement".to_owned() {
        match JsonValue::parse(intent.payload.as_str().as_bytes()) {
            Some(notice) => classify_notice(&notice),
            None => None,
        }
    } else {
        Some(MeshEvent::IntentReceived { intent })
    }
}

/// Classifies an authenticated message. `envelope` is what the typed reading
/// of `data` as an intent gave. `None` as the result means that the message
/// is dropped.
pub fn classify_message(data: &[u8], envelope: Option<PrivacyIntent>) -> (event: Option<MeshEvent>)
    ensures
        event.deep_view() == classification(data@, envelope.deep_view()),
{
    match envelope {
        Some(intent) => classify_intent(intent),
        None => match JsonValue::parse(data) {
            Some(notice) => classify_notice(&notice),
            None => None,
        },
    }
}

} // verus!
