use privacy_mesh::zk::{ProofError, ProofRequest, ProverOutcome, ZKHandler, ZKProof};

fn request(balance: u64, bid_amount: u64, price_ceiling: u64) -> ProofRequest {
    ProofRequest { balance, bid_amount, price_ceiling }
}

fn record(proof: &str, inputs: &[&str]) -> ZKProof {
    ZKProof {
        proof: proof.to_string(),
        public_inputs: inputs.iter().map(|input| input.to_string()).collect(),
        encrypted_intent: String::new(),
    }
}

#[test]
fn handler_defaults_to_the_local_circuit() {
    assert_eq!(ZKHandler::new(None).circuit_path(), "./noir-circuit");
    assert_eq!(ZKHandler::new(Some("/opt/circuits/bid".to_string())).circuit_path(), "/opt/circuits/bid");
    assert_eq!(ZKHandler::new(Some(String::new())).circuit_path(), "");
}

#[test]
fn proof_needs_text_and_a_public_input() {
    let handler = ZKHandler::new(None);
    assert_eq!(handler.verify_proof(&record("01020304", &["5"])), Ok(true));
    assert_eq!(handler.verify_proof(&record("", &["5"])), Ok(false));
    assert_eq!(handler.verify_proof(&record("01020304", &[])), Ok(false));
    assert_eq!(handler.verify_proof(&record("", &[])), Ok(false));
    assert_eq!(handler.verify_proof(&record("x", &[""])), Ok(true));
}

#[test]
fn request_is_checked_balance_first() {
    assert_eq!(ZKHandler::check_request(&request(4, 5, 7)), Err(ProofError::InsufficientBalance));
    assert_eq!(ZKHandler::check_request(&request(10, 8, 7)), Err(ProofError::BidExceedsCeiling));
    assert_eq!(ZKHandler::check_request(&request(4, 5, 3)), Err(ProofError::InsufficientBalance));
    assert_eq!(ZKHandler::check_request(&request(5, 5, 5)), Ok(()));
    assert_eq!(ZKHandler::check_request(&request(0, 0, 0)), Ok(()));
    assert_eq!(ZKHandler::check_request(&request(u64::MAX, u64::MAX, u64::MAX)), Ok(()));
}

#[test]
fn proof_errors_have_their_words() {
    assert_eq!(ProofError::InsufficientBalance.message(), "Insufficient balance");
    assert_eq!(ProofError::BidExceedsCeiling.message(), "Bid exceeds price ceiling");
}

#[test]
fn prover_proof_is_recorded_as_it_is() {
    let proof = ZKHandler::proved(5, Some("abcdef".to_string()));
    assert_eq!(proof.proof, "abcdef");
    assert_eq!(proof.public_inputs, vec!["5".to_string()]);
    assert_eq!(proof.encrypted_intent, "{\"bid\":5,\"verified\":true}");
}

#[test]
fn unreadable_proof_file_gets_the_placeholder() {
    let proof = ZKHandler::proved(18446744073709551615, None);
    assert_eq!(proof.proof, "01020304");
    assert_eq!(proof.public_inputs, vec!["18446744073709551615".to_string()]);
    assert_eq!(proof.encrypted_intent, "{\"bid\":18446744073709551615,\"verified\":true}");
}

#[test]
fn stand_in_proof_encodes_its_statement() {
    let handler = ZKHandler::new(None);
    let proof = handler.generate_mock_proof(&request(10, 5, 7), 1700000000);
    assert_eq!(
        proof.proof,
        "4e4f49525f50524f4f465f76313a62616c616e63655f636865636b3a6269645f353a6365696c696e675f37"
    );
    assert_eq!(proof.public_inputs, vec!["5".to_string()]);
    assert_eq!(proof.encrypted_intent, "{\"bid_amount\":5,\"verified\":true,\"timestamp\":1700000000}");
    let early = handler.generate_mock_proof(&request(10, 5, 7), -1);
    assert_eq!(early.encrypted_intent, "{\"bid_amount\":5,\"verified\":true,\"timestamp\":-1}");
}

#[test]
fn refused_request_yields_no_proof() {
    let handler = ZKHandler::new(None);
    assert_eq!(
        handler.generate_proof(request(4, 5, 7), ProverOutcome::Unavailable { now: 0 }).unwrap_err(),
        ProofError::InsufficientBalance
    );
    assert_eq!(
        handler.generate_proof(request(10, 8, 7), ProverOutcome::Proved(Some("ab".to_string()))).unwrap_err(),
        ProofError::BidExceedsCeiling
    );
}

#[test]
fn proof_follows_the_prover() {
    let handler = ZKHandler::new(None);
    let proved = handler.generate_proof(request(10, 5, 7), ProverOutcome::Proved(Some("ab".to_string()))).unwrap();
    assert_eq!(proved.proof, "ab");
    assert_eq!(proved.encrypted_intent, "{\"bid\":5,\"verified\":true}");
    let placeholder = handler.generate_proof(request(10, 5, 7), ProverOutcome::Proved(None)).unwrap();
    assert_eq!(placeholder.proof, "01020304");
    let stand_in = handler
        .generate_proof(request(10, 5, 7), ProverOutcome::Unavailable { now: 1700000000 })
        .unwrap();
    assert_eq!(stand_in.proof, handler.generate_mock_proof(&request(10, 5, 7), 1700000000).proof);
    assert_eq!(
        stand_in.encrypted_intent,
        "{\"bid_amount\":5,\"verified\":true,\"timestamp\":1700000000}"
    );
    assert_eq!(handler.verify_proof(&stand_in), Ok(true));
}
