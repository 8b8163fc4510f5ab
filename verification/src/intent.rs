//! The broadcastable unit of the mesh, its mathematical model and its form
//! on the wire: a JSON object with the members `intent_type`, `payload`,
//! `encrypted`, `relay_path` and `relay_fee`.
//!
//! Writing an intent is done here, from the intent to a document to bytes.
//! Reading one from the bytes of a message is the part of the embedding
//! program, whose typed reader takes each of the five members at most once
//! and skips what it does not know; the mesh is handed what that reader
//! found. Reading here starts from a document.

use vstd::prelude::*;
use vstd::string::StringSliceAdditionalSpecFns;
use crate::json::JsonModel;
use crate::json::JsonValue;
use crate::json::json_text;
use crate::json::lemma_array_model;
use crate::json::lemma_object_model;
use crate::json::member_models;
use crate::json::models_of;
use crate::json::names_distinct;

verus! {

/// A broadcastable request: a trade intent or a settlement-related fact.
#[derive(Debug, Clone, PartialEq, Eq)]
pub struct PrivacyIntent {
    /// Tag of the message family, `"trade"` or `"settlement"`; other tags are
    /// carried unchanged.
    pub intent_type: String,
    /// Application-defined content. For a settlement it is a JSON object with
    /// its own `type` member.
    pub payload: String,
    /// Claims that `payload` is ciphertext. The mesh does not interpret it.
    pub encrypted: bool,
    /// Hop identifiers in the order the intent travelled.
    pub relay_path: Vec<String>,
    /// Free-form fee note, for instance an amount and a currency code.
    pub relay_fee: Option<String>,
}

/// What a [`PrivacyIntent`] is, as plain mathematical values.
pub struct IntentView {
    pub intent_type: Seq<char>,
    pub payload: Seq<char>,
    pub encrypted: bool,
    pub relay_path: Seq<Seq<char>>,
    pub relay_fee: Option<Seq<char>>,
}

impl DeepView for PrivacyIntent {
    type V = IntentView;

    open spec fn deep_view(&self) -> IntentView {
        self@
    }
}

impl View for PrivacyIntent {
    type V = IntentView;

    open spec fn view(&self) -> IntentView {
        IntentView {
            intent_type: self.intent_type@,
            payload: self.payload@,
            encrypted: self.encrypted,
            relay_path: self.relay_path.deep_view(),
            relay_fee: self.relay_fee.deep_view(),
        }
    }
}

/// The texts of `items`, where every item is a string.
pub open spec fn text_items(items: Seq<JsonModel>) -> Option<Seq<Seq<char>>> {
    if forall|i: int| 0 <= i < items.len() ==> (#[trigger] items[i]) is Text {
        Some(Seq::new(items.len(), |i: int| items[i]->Text_0))
    } else {
        None
    }
}

/// The fee that a document states: none where `relay_fee` is missing or
/// `null`, the text where it is a string. Any other value is no fee at all.
pub open spec fn decoded_fee(doc: JsonModel) -> Option<Option<Seq<char>>> {
    match doc.member("relay_fee"@) {
        None => Some(None),
        Some(JsonModel::Null) => Some(None),
        Some(JsonModel::Text(fee)) => Some(Some(fee)),
        Some(_) => None,
    }
}

/// The intent that a document states. It must be an object whose
/// `intent_type` and `payload` are strings, whose `encrypted` is a truth
/// value and whose `relay_path` is an array of strings; `relay_fee` may be
/// missing. Other members are ignored. In a well-formed document each of
/// these names stands for one member only. This is a reading of documents,
/// not of text: text that names a member twice has no document of its own.
pub open spec fn decoded_intent(doc: JsonModel) -> Option<IntentView> {
    match (
        doc.member("intent_type"@),
        doc.member("payload"@),
        doc.member("encrypted"@),
        doc.member("relay_path"@),
        decoded_fee(doc),
    ) {
        (
            Some(JsonModel::Text(intent_type)),
            Some(JsonModel::Text(payload)),
            Some(JsonModel::Bool(encrypted)),
            Some(JsonModel::Array(hops)),
            Some(relay_fee),
        ) => match text_items(hops) {
            Some(relay_path) => Some(
                IntentView { intent_type, payload, encrypted, relay_path, relay_fee },
            ),
            None => None,
        },
        _ => None,
    }
}

/// The document that states an intent: its five members in the order of the
/// fields, a missing fee written as `null`.
pub open spec fn intent_document(intent: IntentView) -> JsonModel {
    JsonModel::Object(
        seq![
            ("intent_type"@, JsonModel::Text(intent.intent_type)),
            ("payload"@, JsonModel::Text(intent.payload)),
            ("encrypted"@, JsonModel::Bool(intent.encrypted)),
            (
                "relay_path"@,
                JsonModel::Array(
                    Seq::new(intent.relay_path.len(), |i: int| JsonModel::Text(intent.relay_path[i])),
                ),
            ),
            (
                "relay_fee"@,
                match intent.relay_fee {
                    Some(fee) => JsonModel::Text(fee),
                    None => JsonModel::Null,
                },
            ),
        ],
    )
}

/// The bytes that carry an intent over the mesh: its document as compact
/// JSON text in UTF-8.
pub open spec fn wire_form(intent: IntentView) -> Seq<u8> {
    vstd::utf8::encode_utf8(json_text(intent_document(intent)))
}

/// Writing an intent as a document and reading the document back gives the
/// same intent, field for field.
pub proof fn lemma_document_round_trip(intent: IntentView)
    ensures
        decoded_intent(intent_document(intent)) == Some(intent),
{
    reveal_strlit("intent_type");
    reveal_strlit("payload");
    reveal_strlit("encrypted");
    reveal_strlit("relay_path");
    reveal_strlit("relay_fee");
    reveal_with_fuel(crate::json::first_named, 6);
    assert("intent_type"@.len() == 11);
    assert("payload"@.len() == 7);
    assert("encrypted"@.len() == 9 && "encrypted"@[0] == 'e');
    assert("relay_path"@.len() == 10);
    assert("relay_fee"@.len() == 9 && "relay_fee"@[0] == 'r');
    let doc = intent_document(intent);
    let members = doc->Object_0;
    assert(members.drop_first() =~= members.skip(1));
    assert(members.skip(1).drop_first() =~= members.skip(2));
    assert(members.skip(2).drop_first() =~= members.skip(3));
    assert(members.skip(3).drop_first() =~= members.skip(4));
    assert(doc.member("intent_type"@) == Some(JsonModel::Text(intent.intent_type)));
    assert(doc.member("payload"@) == Some(JsonModel::Text(intent.payload)));
    assert(doc.member("encrypted"@) == Some(JsonModel::Bool(intent.encrypted)));
    let hops = Seq::new(intent.relay_path.len(), |i: int| JsonModel::Text(intent.relay_path[i]));
    assert(doc.member("relay_path"@) == Some(JsonModel::Array(hops)));
    assert(decoded_fee(doc) == Some(intent.relay_fee));
    assert(text_items(hops) == Some(intent.relay_path)) by {
        assert(text_items(hops)->Some_0 =~= intent.relay_path);
    }
}

/// The document that states an intent names each of its members once.
pub proof fn lemma_intent_document_well_formed(intent: IntentView)
    ensures
        intent_document(intent).well_formed(),
{
    reveal_strlit("intent_type");
    reveal_strlit("payload");
    reveal_strlit("encrypted");
    reveal_strlit("relay_path");
    reveal_strlit("relay_fee");
    assert("intent_type"@.len() == 11);
    assert("payload"@.len() == 7);
    assert("encrypted"@.len() == 9 && "encrypted"@[0] == 'e');
    assert("relay_path"@.len() == 10);
    assert("relay_fee"@.len() == 9 && "relay_fee"@[0] == 'r');
    let members = intent_document(intent)->Object_0;
    assert(names_distinct(members));
    let hops = Seq::new(intent.relay_path.len(), |i: int| JsonModel::Text(intent.relay_path[i]));
    assert forall|i: int| 0 <= i < hops.len() implies (#[trigger] hops[i]).well_formed() by {
        assert(hops[i] == JsonModel::Text(intent.relay_path[i]));
    }
    assert(JsonModel::Array(hops).well_formed());
    assert forall|i: int| 0 <= i < members.len() implies (#[trigger] members[i]).1.well_formed() by {
        if i == 3 {
            assert(members[i].1 == JsonModel::Array(hops));
        }
    }
}

fn text_member(doc: &JsonValue, key: &str) -> (text: Option<String>)
    ensures
        match text {
            Some(chars) => doc@.member(key@) == Some(JsonModel::Text(chars@)),
            None => !(doc@.member(key@) matches Some(JsonModel::Text(_))),
        },
{
    match doc.get(key) {
        Some(value) => match value.as_text() {
            Some(chars) => Some(chars.to_owned()),
            None => None,
        },
        None => None,
    }
}

fn texts_of(items: &Vec<JsonValue>) -> (texts: Option<Vec<String>>)
    ensures
        match texts {
            Some(list) => text_items(models_of(items@)) == Some(list.deep_view()),
            None => text_items(models_of(items@)) is None,
        },
{
    let mut list: Vec<String> = Vec::new();
    let mut i: usize = 0;
    while i < items.len()
        invariant
            i <= items.len(),
            list.len() == i,
            forall|j: int| 0 <= j < i ==> (#[trigger] models_of(items@)[j]) is Text,
            forall|j: int| 0 <= j < i ==> list[j]@ == models_of(items@)[j]->Text_0,
        decreases items.len() - i,
    {
        match items[i].as_text() {
            Some(chars) => {
                list.push(chars.to_owned());
            },
            None => {
                assert(!(models_of(items@)[i as int] is Text));
                return None;
            },
        }
        i += 1;
    }
    assert(list.deep_view() =~= text_items(models_of(items@))->Some_0);
    Some(list)
}

fn fee_member(doc: &JsonValue) -> (fee: Option<Option<String>>)
    ensures
        fee.deep_view() == decoded_fee(doc@),
{
    match doc.get("relay_fee") {
        None => Some(None),
        Some(value) => {
            if value.is_null() {
                Some(None)
            } else {
                match value.as_text() {
                    Some(chars) => Some(Some(chars.to_owned())),
                    None => None,
                }
            }
        },
    }
}

impl PrivacyIntent {
    /// Number of hops recorded so far.
    pub fn hop_count(&self) -> (hops: usize)
        ensures
            hops == self@.relay_path.len(),
    {
        self.relay_path.len()
    }

    /// Reads the intent that `doc` states, if it states one.
    pub fn from_json(doc: &JsonValue) -> (intent: Option<PrivacyIntent>)
        requires
            doc@.well_formed(),
        ensures
            match intent {
                Some(decoded) => decoded_intent(doc@) == Some(decoded@),
                None => decoded_intent(doc@) is None,
            },
    {
        let intent_type = match text_member(doc, "intent_type") {
            Some(text) => text,
            None => {
                return None;
            },
        };
        let payload = match text_member(doc, "payload") {
            Some(text) => text,
            None => {
                return None;
            },
        };
        let encrypted = match doc.get("encrypted") {
            Some(value) => match value.as_flag() {
                Some(flag) => flag,
                None => {
                    return None;
                },
            },
            None => {
                return None;
            },
        };
        let relay_path = match doc.get("relay_path") {
            Some(value) => match value.as_items() {
                Some(items) => match texts_of(items) {
                    Some(list) => list,
                    None => {
                        return None;
                    },
                },
                None => {
                    return None;
                },
            },
            None => {
                return None;
            },
        };
        let relay_fee = match fee_member(doc) {
            Some(fee) => fee,
            None => {
                return None;
            },
        };
        Some(PrivacyIntent { intent_type, payload, encrypted, relay_path, relay_fee })
    }

    /// Builds the document that states this intent. It is well formed.
    pub fn to_json(&self) -> (doc: JsonValue)
        ensures
            doc@ == intent_document(self@),
            doc@.well_formed(),
    {
        let mut hops: Vec<JsonValue> = Vec::new();
        let mut i: usize = 0;
        while i < self.relay_path.len()
            invariant
                i <= self.relay_path.len(),
                hops.len() == i,
                forall|j: int| 0 <= j < i ==> (#[trigger] hops[j])@ == JsonModel::Text(
                    self.relay_path[j]@,
                ),
            decreases self.relay_path.len() - i,
        {
            hops.push(JsonValue::Text(self.relay_path[i].clone()));
            i += 1;
        }
        let fee = match &self.relay_fee {
            Some(text) => JsonValue::Text(text.clone()),
            None => JsonValue::Null,
        };
        proof {
            lemma_array_model(hops);
            assert(models_of(hops@) =~= Seq::new(
                self@.relay_path.len(),
                |i: int| JsonModel::Text(self@.relay_path[i]),
            ));
        }
        let mut members: Vec<(String, JsonValue)> = Vec::new();
        members.push(("intent_type".to_owned(), JsonValue::Text(self.intent_type.clone())));
        members.push(("payload".to_owned(), JsonValue::Text(self.payload.clone())));
        members.push(("encrypted".to_owned(), JsonValue::Bool(self.encrypted)));
        members.push(("relay_path".to_owned(), JsonValue::Array(hops)));
        members.push(("relay_fee".to_owned(), fee));
        proof {
            lemma_object_model(members);
            assert(member_models(members@) =~= intent_document(self@)->Object_0);
            lemma_intent_document_well_formed(self@);
        }
        JsonValue::Object(members)
    }

    /// Writes the intent as the bytes of a message.
    pub fn to_wire(&self) -> (bytes: Vec<u8>)
        ensures
            bytes@ == wire_form(self@),
    {
        self.to_json().render().as_str().as_bytes_vec()
    }
}

} // verus!
