//! From what the application wants to say to the intent that says it.
//!
//! The application hands over a payload. A payload that is a JSON document
//! with a `type` member is a notice (a deal acceptance, a settlement
//! confirmation) and travels as a settlement; any other payload travels as a
//! trade intent with the default relay fee.

use vstd::prelude::*;
use vstd::string::StringSliceAdditionalSpecFns;
use crate::intent::IntentView;
use crate::intent::PrivacyIntent;
use crate::json::JsonModel;
use crate::json::JsonValue;
use crate::json::json_document;
use crate::relay::fee_unrecognized;
use crate::relay::relay_intact;
use crate::text::occurs_at;

verus! {

/// The name of the first hop of every intent that starts here.
pub open spec fn origin_hop() -> Seq<char> {
    "origin_node"@
}

/// The fee note of a trade intent that was given none.
pub open spec fn default_fee() -> Seq<char> {
    "0.005 SOL"@
}

/// A document is a notice: it has a member named `type`, whatever its value.
pub open spec fn is_notice(doc: JsonModel) -> bool {
    doc.member("type"@) is Some
}

/// A payload carries a notice: it is a JSON document that is one.
pub open spec fn carries_notice(payload: Seq<char>) -> bool {
    match json_document(vstd::utf8::encode_utf8(payload)) {
        Some(doc) => is_notice(doc),
        None => false,
    }
}

/// The intent that carries `payload`. A notice travels in the clear as a
/// settlement without a fee, anything else as an encrypted trade intent with
/// the default fee; both start at the origin hop.
pub open spec fn intent_for(payload: Seq<char>, notice: bool) -> IntentView {
    if notice {
        IntentView {
            intent_type: "settlement"@,
            payload,
            encrypted: false,
            relay_path: seq![origin_hop()],
            relay_fee: None,
        }
    } else {
        IntentView {
            intent_type: "trade"@,
            payload,
            encrypted: true,
            relay_path: seq![origin_hop()],
            relay_fee: Some(default_fee()),
        }
    }
}

/// What the application is told once an intent is queued.
pub open spec fn receipt_text(intent: IntentView) -> Seq<char> {
    if intent.intent_type == "settlement"@ {
        "Settlement message broadcasted: "@ + intent.payload
    } else {
        "Intent broadcasted: "@ + intent.payload
    }
}

/// Every intent made here passes relay-integrity validation, and its fee note,
/// where it has one, names a known currency.
pub proof fn lemma_composed_intent_is_accepted(payload: Seq<char>, notice: bool)
    ensures
        relay_intact(intent_for(payload, notice)),
        !fee_unrecognized(intent_for(payload, notice)),
{
    reveal_strlit("0.005 SOL");
    reveal_strlit("SOL");
    assert(default_fee().subrange(6, 9) =~= "SOL"@);
    assert(occurs_at(default_fee(), "SOL"@, 6));
}

impl JsonValue {
    /// Whether the document is a notice.
    pub fn is_notice(&self) -> (notice: bool)
        requires
            self@.well_formed(),
        ensures
            notice == is_notice(self@),
    {
        self.get("type").is_some()
    }
}

impl PrivacyIntent {
    /// The intent that carries `payload`, as a notice or as a trade.
    pub fn carrying(payload: String, notice: bool) -> (intent: PrivacyIntent)
        ensures
            intent@ == intent_for(payload@, notice),
    {
        let mut relay_path: Vec<String> = Vec::new();
        relay_path.push("origin_node".to_owned());
        let intent = if notice {
            PrivacyIntent {
                intent_type: "settlement".to_owned(),
                payload,
                encrypted: false,
                relay_path,
                relay_fee: None,
            }
        } else {
            PrivacyIntent {
                intent_type: "trade".to_owned(),
                payload,
                encrypted: true,
                relay_path,
                relay_fee: Some("0.005 SOL".to_owned()),
            }
        };
        assert(intent@.relay_path =~= seq![origin_hop()]);
        intent
    }

    /// The intent that carries `payload`: a settlement where the payload is a
    /// notice, a trade intent otherwise.
    pub fn compose(payload: String) -> (intent: PrivacyIntent)
        ensures
            intent@ == intent_for(payload@, carries_notice(payload@)),
    {
        let notice = match JsonValue::parse(payload.as_str().as_bytes()) {
            Some(doc) => doc.is_notice(),
            None => false,
        };
        PrivacyIntent::carrying(payload, notice)
    }

    /// What the application is told once this intent is queued.
    pub fn receipt(&self) -> (text: String)
        ensures
            text@ == receipt_text(self@),
    {
        let mut text = if self.intent_type == "settlement".to_owned() {
            "Settlement message broadcasted: ".to_owned()
        } else {
            "Intent broadcasted: ".to_owned()
        };
        text.append(self.payload.as_str());
        text
    }
}

} // verus!
