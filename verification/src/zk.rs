//! Bid proofs: the request, the proof record and the checks around the
//! prover.

use vstd::prelude::*;
use vstd::string::StringSliceAdditionalSpecFns;
use crate::json::JsonModel;
use crate::json::JsonNumber;
use crate::json::JsonValue;
use crate::json::json_text;
use crate::json::lemma_object_model;
use crate::json::member_models;
use crate::json::names_distinct;
use crate::text::decimal;
use crate::text::decimal_digits;
use crate::text::hex;
use crate::text::hex_digits;

verus! {

/// A proof that a bid is covered, with what an observer may see of it.
#[derive(Debug)]
pub struct ZKProof {
    pub proof: String,
    pub public_inputs: Vec<String>,
    pub encrypted_intent: String,
}

/// What a [`ZKProof`] is, as plain mathematical values.
pub struct ProofView {
    pub proof: Seq<char>,
    pub public_inputs: Seq<Seq<char>>,
    pub encrypted_intent: Seq<char>,
}

impl View for ZKProof {
    type V = ProofView;

    open spec fn view(&self) -> ProofView {
        ProofView {
            proof: self.proof@,
            public_inputs: self.public_inputs.deep_view(),
            encrypted_intent: self.encrypted_intent@,
        }
    }
}

/// The numbers a proof is asked about. `balance` and `price_ceiling` stay
/// private to the bidder, `bid_amount` is public.
#[derive(Debug)]
pub struct ProofRequest {
    pub balance: u64,
    pub bid_amount: u64,
    pub price_ceiling: u64,
}

/// Produces and checks bid proofs for one circuit directory.
pub struct ZKHandler {
    circuit_path: String,
}

impl View for ZKHandler {
    type V = Seq<char>;

    /// The circuit directory.
    closed spec fn view(&self) -> Seq<char> {
        self.circuit_path@
    }
}

/// The circuit directory of a handler that was given none.
pub open spec fn default_circuit_path() -> Seq<char> {
    "./noir-circuit"@
}

/// Whether a proof record has the shape of a proof: some proof text and at
/// least one public input.
pub open spec fn well_shaped(proof: ProofView) -> bool {
    proof.proof.len() > 0 && proof.public_inputs.len() > 0
}

/// What became of a run of the prover.
#[derive(Debug, Clone, PartialEq, Eq)]
pub enum ProverOutcome {
    /// The prover ran to the end. It leaves its proof in a file: the text of
    /// that file, or `None` where the file could not be read.
    Proved(Option<String>),
    /// The prover is not installed, or it failed. `now` is the time of the
    /// attempt on the caller's clock, in seconds since the Unix epoch; it
    /// stamps the stand-in proof.
    Unavailable { now: i64 },
}

/// Whether a request can be proved at all: the balance must cover the bid,
/// and the bid must not exceed the ceiling. The balance is looked at first.
pub open spec fn request_verdict(request: ProofRequest) -> Result<(), ProofError> {
    if request.balance < request.bid_amount {
        Err(ProofError::InsufficientBalance)
    } else if request.bid_amount > request.price_ceiling {
        Err(ProofError::BidExceedsCeiling)
    } else {
        Ok(())
    }
}

/// The proof text that stands in for a proof file that could not be read.
pub open spec fn placeholder_proof() -> Seq<char> {
    hex_digits(seq![1u8, 2u8, 3u8, 4u8])
}

/// The record of a proof that the prover produced for a bid.
pub open spec fn proved_record(bid_amount: u64, proof_file: Option<Seq<char>>) -> ProofView {
    ProofView {
        proof: match proof_file {
            Some(text) => text,
            None => placeholder_proof(),
        },
        public_inputs: seq![decimal_digits(bid_amount as nat)],
        encrypted_intent: "{\"bid\":"@ + decimal_digits(bid_amount as nat) + ",\"verified\":true}"@,
    }
}

/// The statement that a stand-in proof encodes.
pub open spec fn mock_statement(bid_amount: u64, price_ceiling: u64) -> Seq<char> {
    "NOIR_PROOF_v1:balance_check:bid_"@ + decimal_digits(bid_amount as nat) + ":ceiling_"@
        + decimal_digits(price_ceiling as nat)
}

/// The notice that a stand-in proof carries: the bid, the verdict and the
/// time of making, in seconds since the Unix epoch.
pub open spec fn mock_notice(bid_amount: u64, now: i64) -> JsonModel {
    JsonModel::Object(
        seq![
            ("bid_amount"@, JsonModel::Number(JsonNumber::Unsigned(bid_amount))),
            ("verified"@, JsonModel::Bool(true)),
            ("timestamp"@, JsonModel::Number(JsonNumber::Signed(now))),
        ],
    )
}

/// The record of a stand-in proof made at time `now`.
pub open spec fn mock_record(request: ProofRequest, now: i64) -> ProofView {
    ProofView {
        proof: hex_digits(
            vstd::utf8::encode_utf8(mock_statement(request.bid_amount, request.price_ceiling)),
        ),
        public_inputs: seq![decimal_digits(request.bid_amount as nat)],
        encrypted_intent: json_text(mock_notice(request.bid_amount, now)),
    }
}

/// The notice of a stand-in proof names each of its members once.
pub proof fn lemma_mock_notice_well_formed(bid_amount: u64, now: i64)
    ensures
        mock_notice(bid_amount, now).well_formed(),
{
    reveal_strlit("bid_amount");
    reveal_strlit("verified");
    reveal_strlit("timestamp");
    assert("bid_amount"@.len() == 10);
    assert("verified"@.len() == 8);
    assert("timestamp"@.len() == 9);
    let members = mock_notice(bid_amount, now)->Object_0;
    assert(names_distinct(members));
    assert forall|i: int| 0 <= i < members.len() implies (#[trigger] members[i]).1.well_formed() by {
        assert(members[i].1 is Number || members[i].1 is Bool);
    }
}

fn bid_inputs(bid_amount: u64) -> (inputs: Vec<String>)
    ensures
        inputs.deep_view() == seq![decimal_digits(bid_amount as nat)],
{
    let mut inputs: Vec<String> = Vec::new();
    inputs.push(decimal(bid_amount));
    assert(inputs.deep_view() =~= seq![decimal_digits(bid_amount as nat)]);
    inputs
}

impl ZKHandler {
    /// Tells whether a request can be proved, before any prover is run.
    pub fn check_request(request: &ProofRequest) -> (verdict: Result<(), ProofError>)
        ensures
            verdict == request_verdict(*request),
    {
        if request.balance < request.bid_amount {
            Err(ProofError::InsufficientBalance)
        } else if request.bid_amount > request.price_ceiling {
            Err(ProofError::BidExceedsCeiling)
        } else {
            Ok(())
        }
    }

    /// The record of a proof that the prover produced.
    pub fn proved(bid_amount: u64, proof_file: Option<String>) -> (record: ZKProof)
        ensures
            record@ == proved_record(bid_amount, proof_file.deep_view()),
    {
        let proof = match proof_file {
            Some(text) => text,
            None => {
                let mut placeholder: Vec<u8> = Vec::new();
                placeholder.push(1);
                placeholder.push(2);
                placeholder.push(3);
                placeholder.push(4);
                assert(placeholder@ =~= seq![1u8, 2u8, 3u8, 4u8]);
                hex(placeholder.as_slice())
            },
        };
        let mut encrypted_intent = "{\"bid\":".to_owned();
        encrypted_intent.append(decimal(bid_amount).as_str());
        encrypted_intent.append(",\"verified\":true}");
        ZKProof { proof, public_inputs: bid_inputs(bid_amount), encrypted_intent }
    }

    /// The stand-in proof for a request, as made at time `now`, in seconds
    /// since the Unix epoch. The caller reads the clock.
    pub fn generate_mock_proof(&self, request: &ProofRequest, now: i64) -> (record: ZKProof)
        ensures
            record@ == mock_record(*request, now),
    {
        let mut statement = "NOIR_PROOF_v1:balance_check:bid_".to_owned();
        statement.append(decimal(request.bid_amount).as_str());
        statement.append(":ceiling_");
        statement.append(decimal(request.price_ceiling).as_str());
        let mut members: Vec<(String, JsonValue)> = Vec::new();
        members.push(
            ("bid_amount".to_owned(), JsonValue::Number(JsonNumber::Unsigned(request.bid_amount))),
        );
        members.push(("verified".to_owned(), JsonValue::Bool(true)));
        members.push(("timestamp".to_owned(), JsonValue::Number(JsonNumber::Signed(now))));
        proof {
            lemma_object_model(members);
            assert(member_models(members@) =~= mock_notice(request.bid_amount, now)->Object_0);
            lemma_mock_notice_well_formed(request.bid_amount, now);
        }
        ZKProof {
            proof: hex(statement.as_str().as_bytes()),
            public_inputs: bid_inputs(request.bid_amount),
            encrypted_intent: JsonValue::Object(members).render(),
        }
    }

    /// Produces the proof record for a request, given what became of the
    /// prover. A request that cannot be proved is refused; a proof of the
    /// prover is recorded as it is; without a prover a stand-in is made and
    /// stamped with the time of the attempt.
    pub fn generate_proof(&self, request: ProofRequest, prover: ProverOutcome) -> (record: Result<
        ZKProof,
        ProofError,
    >)
        ensures
            match record {
                Err(error) => request_verdict(request) == Err::<(), ProofError>(error),
                Ok(proof) => request_verdict(request) is Ok && match prover {
                    ProverOutcome::Proved(proof_file) => proof@ == proved_record(
                        request.bid_amount,
                        proof_file.deep_view(),
                    ),
                    ProverOutcome::Unavailable { now } => proof@ == mock_record(request, now),
                },
            },
    {
        match ZKHandler::check_request(&request) {
            Err(error) => {
                return Err(error);
            },
            Ok(_) => {},
        }
        match prover {
            ProverOutcome::Proved(proof_file) => Ok(ZKHandler::proved(request.bid_amount, proof_file)),
            ProverOutcome::Unavailable { now } => Ok(self.generate_mock_proof(&request, now)),
        }
    }

    /// A handler for the circuit in `circuit_path`, or in `./noir-circuit`
    /// where none is given.
    pub fn new(circuit_path: Option<String>) -> (handler: ZKHandler)
        ensures
            handler@ == match circuit_path {
                Some(path) => path@,
                None => default_circuit_path(),
            },
    {
        match circuit_path {
            Some(path) => ZKHandler { circuit_path: path },
            None => ZKHandler { circuit_path: "./noir-circuit".to_owned() },
        }
    }

    /// The circuit directory.
    pub fn circuit_path(&self) -> (path: &str)
        ensures
            path@ == self@,
    {
        self.circuit_path.as_str()
    }

    /// Checks the shape of a proof record. The check never fails; it answers
    /// `true` exactly for a record with proof text and a public input.
    pub fn verify_proof(&self, proof: &ZKProof) -> (verdict: Result<bool, ProofError>)
        ensures
            verdict == Ok::<bool, ProofError>(well_shaped(proof@)),
    {
        Ok(!proof.proof.as_str().is_empty() && proof.public_inputs.len() > 0)
    }
}

/// Why no proof was produced for a request.
#[derive(Debug, Clone, Copy, PartialEq, Eq, Structural)]
pub enum ProofError {
    /// The balance does not cover the bid.
    InsufficientBalance,
    /// The bid is above the bidder's own ceiling.
    BidExceedsCeiling,
}

/// The words of an error.
pub open spec fn proof_error_text(error: ProofError) -> Seq<char> {
    match error {
        ProofError::InsufficientBalance => "Insufficient balance"@,
        ProofError::BidExceedsCeiling => "Bid exceeds price ceiling"@,
    }
}

impl ProofError {
    /// The error in words.
    pub fn message(&self) -> (text: String)
        ensures
            text@ == proof_error_text(*self),
    {
        match self {
            ProofError::InsufficientBalance => "Insufficient balance".to_owned(),
            ProofError::BidExceedsCeiling => "Bid exceeds price ceiling".to_owned(),
        }
    }
}

} // verus!
