//! The words exchanged with the negotiation model: the request that is sent
//! and the strategy that is read from the reply. Prices are handed in as
//! formatted text; the arithmetic on them belongs to the caller.

use vstd::prelude::*;
use vstd::string::StringSliceAdditionalSpecFns;
use crate::json::JsonModel;
use crate::json::JsonValue;
use crate::json::json_document;

verus! {

/// A request to the model server.
#[derive(Debug, Clone, PartialEq, Eq)]
pub struct OllamaRequest {
    pub model: String,
    pub prompt: String,
    pub stream: bool,
    pub system: Option<String>,
}

/// What an [`OllamaRequest`] is, as plain mathematical values.
pub struct RequestView {
    pub model: Seq<char>,
    pub prompt: Seq<char>,
    pub stream: bool,
    pub system: Option<Seq<char>>,
}

impl View for OllamaRequest {
    type V = RequestView;

    open spec fn view(&self) -> RequestView {
        RequestView {
            model: self.model@,
            prompt: self.prompt@,
            stream: self.stream,
            system: self.system.deep_view(),
        }
    }
}

/// A reply of the model server.
#[derive(Debug, Clone, PartialEq, Eq)]
pub struct OllamaResponse {
    pub response: String,
    pub done: bool,
}

/// The request that asks for a negotiation strategy on `intent` under the
/// rules in `system`: one complete answer from the model `llama2`.
pub open spec fn negotiation_request(intent: Seq<char>, system: Seq<char>) -> RequestView {
    RequestView {
        model: "llama2"@,
        prompt: "Analyze this trading intent and provide your negotiation strategy: "@ + intent,
        stream: false,
        system: Some(system),
    }
}

/// The rules that the model negotiates under. `price_ceiling` and
/// `market_price` are amounts as they are to be shown, `intent` is what the
/// user wants.
pub open spec fn system_rules(
    price_ceiling: Seq<char>,
    market_price: Seq<char>,
    intent: Seq<char>,
) -> Seq<char> {
    "You are a \"Shark Mode Agent\" designed for aggressive, profit-maximizing negotiations in a privacy-first mesh network.\n\nRULES:\n1. The user's maximum acceptable price is $"@
        + price_ceiling
        + " (PRIVATE - never reveal this).\n2. The current market price is $"@
        + market_price
        + ".\n3. Your goal is to negotiate the LOWEST possible price while ensuring transaction success.\n4. You must never bid above the user's price ceiling.\n5. Be strategic, aggressive, and protect the user's privacy at all costs.\n6. Respond ONLY with JSON in this exact format:\n{\n  \"recommended_bid\": <number>,\n  \"strategy\": \"<brief explanation>\",\n  \"confidence\": <0-100>\n}\n\nIntent: "@
        + intent + "\n"@
}

/// The strategy that a reply document names: its `strategy` member where
/// that is a string, a fixed phrase otherwise.
pub open spec fn document_strategy(doc: JsonModel) -> Seq<char> {
    match doc.member("strategy"@) {
        Some(JsonModel::Text(strategy)) => strategy,
        _ => "Default strategy"@,
    }
}

/// The strategy that a reply names. A reply that is no JSON document counts
/// as the cautious answer.
pub open spec fn reply_strategy(reply: Seq<char>) -> Seq<char> {
    match json_document(vstd::utf8::encode_utf8(reply)) {
        Some(doc) => document_strategy(doc),
        None => "Conservative bid below market"@,
    }
}

/// Writes the rules that the model negotiates under.
pub fn system_prompt(price_ceiling: &str, market_price: &str, intent: &str) -> (rules: String)
    ensures
        rules@ == system_rules(price_ceiling@, market_price@, intent@),
{
    let mut rules = "You are a \"Shark Mode Agent\" designed for aggressive, profit-maximizing negotiations in a privacy-first mesh network.\n\nRULES:\n1. The user's maximum acceptable price is $".to_owned();
    rules.append(price_ceiling);
    rules.append(" (PRIVATE - never reveal this).\n2. The current market price is $");
    rules.append(market_price);
    rules.append(".\n3. Your goal is to negotiate the LOWEST possible price while ensuring transaction success.\n4. You must never bid above the user's price ceiling.\n5. Be strategic, aggressive, and protect the user's privacy at all costs.\n6. Respond ONLY with JSON in this exact format:\n{\n  \"recommended_bid\": <number>,\n  \"strategy\": \"<brief explanation>\",\n  \"confidence\": <0-100>\n}\n\nIntent: ");
    rules.append(intent);
    rules.append("\n");
    rules
}

impl OllamaRequest {
    /// The request that asks for a negotiation strategy on `intent`.
    pub fn for_negotiation(intent: &str, system: String) -> (request: OllamaRequest)
        ensures
            request@ == negotiation_request(intent@, system@),
    {
        let mut prompt = "Analyze this trading intent and provide your negotiation strategy: ".to_owned();
        prompt.append(intent);
        OllamaRequest { model: "llama2".to_owned(), prompt, stream: false, system: Some(system) }
    }
}

impl OllamaResponse {
    /// The strategy that this reply names.
    pub fn strategy(&self) -> (strategy: String)
        ensures
            strategy@ == reply_strategy(self.response@),
    {
        match JsonValue::parse(self.response.as_str().as_bytes()) {
            Some(doc) => strategy_in(&doc),
            None => "Conservative bid below market".to_owned(),
        }
    }
}

/// The strategy that a reply document names.
pub fn strategy_in(doc: &JsonValue) -> (strategy: String)
    requires
        doc@.well_formed(),
    ensures
        strategy@ == document_strategy(doc@),
{
    match doc.get("strategy") {
        Some(value) => match value.as_text() {
            Some(text) => text.to_owned(),
            None => "Default strategy".to_owned(),
        },
        None => "Default strategy".to_owned(),
    }
}

} // verus!
