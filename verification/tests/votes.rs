use anonvote_backend::config::Config;
use anonvote_backend::error::AppError;
use anonvote_backend::models::{
    BallotRow, CastVoteRequest, OnChainRound, ProofDto, ProveWitnessRequest, RoundRow,
};
use anonvote_backend::proof_service::{ProofService, ProofServiceError};
use anonvote_backend::routes::votes::{
    ballot_record, cast_vote, check_nullifier, hex_eq, vote_response, Ballot,
};
use anonvote_backend::soroban_client::{ProcessOutput, SorobanClient, SorobanError};
use anonvote_backend::state::AppStateInner;

fn state(bb: Option<&str>) -> AppStateInner {
    let vars: Vec<(String, String)> = [
        ("DATABASE_URL", "postgres://x"),
        ("ANONVOTE_CONTRACT_ID", "CABC"),
        ("STELLAR_OPERATOR_IDENTITY", "operator"),
        ("STELLAR_NETWORK", "testnet"),
    ]
    .iter()
    .map(|(k, v)| (k.to_string(), v.to_string()))
    .collect();
    let config = Config::from_env(&vars).unwrap();
    AppStateInner {
        soroban: SorobanClient::new(&config),
        proof_service: ProofService::new(
            "/c".to_string(),
            "nargo".to_string(),
            bb.map(|p| p.to_string()),
        ),
        config,
        operator_address: "GOPERATOR".to_string(),
    }
}

fn round(phase: &str) -> Result<Option<RoundRow>, String> {
    Ok(Some(RoundRow {
        id: 5,
        contract_id: "CABC".to_string(),
        admin: "GOPERATOR".to_string(),
        title: "Round".to_string(),
        num_choices: 2,
        phase: phase.to_string(),
        payout_pool_stroops: 100,
        create_round_tx_hash: None,
        created_at: 0,
        voting_opened_at: None,
        finalized_at: None,
    }))
}

fn dto() -> ProofDto {
    ProofDto { a: "aa".to_string(), b: "bb".to_string(), c: "cc".to_string() }
}

fn witness(secret: &str) -> ProveWitnessRequest {
    ProveWitnessRequest {
        secret: secret.to_string(),
        merkle_path: vec!["0".to_string(); 8],
        path_indices: vec![false; 8],
    }
}

fn request(choice: i32) -> CastVoteRequest {
    CastVoteRequest {
        round_id: 5,
        choice,
        nullifier_hex: "0xABCD".to_string(),
        proof: Some(dto()),
        witness: None,
    }
}

fn with_witness(secret: &str, nullifier_hex: &str) -> CastVoteRequest {
    CastVoteRequest {
        round_id: 5,
        choice: 1,
        nullifier_hex: nullifier_hex.to_string(),
        proof: None,
        witness: Some(witness(secret)),
    }
}

fn onchain() -> OnChainRound {
    OnChainRound {
        admin: "GOPERATOR".to_string(),
        ballot_count: 3,
        id: 5,
        merkle_root: "0xroot".to_string(),
        num_choices: 2,
        phase: "Voting".to_string(),
        registered_count: 4,
        title: "Round".to_string(),
    }
}

#[test]
fn ballots_are_taken_while_voting_is_open() {
    assert!(matches!(cast_vote(round("voting"), &request(0)), Ok(Ballot::Proved(_))));
    for phase in ["registration", "finalized", "Voting", ""] {
        assert!(matches!(
            cast_vote(round(phase), &request(0)),
            Err(AppError::Conflict(m))
                if m == format!("round 5 is not open for voting (phase = {})", phase)
        ));
    }
    assert!(matches!(cast_vote(Ok(None), &request(0)), Err(AppError::NotFound(m)) if m == "round 5"));
    assert!(matches!(cast_vote(Err("down".to_string()), &request(0)), Err(AppError::Db(_))));
}

#[test]
fn choices_are_those_of_the_round() {
    for choice in [-1, 2, i32::MAX, i32::MIN] {
        assert!(matches!(
            cast_vote(round("voting"), &request(choice)),
            Err(AppError::BadRequest(m)) if m == "choice must be in 0..2"
        ));
    }
    assert!(cast_vote(round("voting"), &request(1)).is_ok());
}

#[test]
fn a_ballot_has_a_proof_or_a_witness() {
    let mut both = request(0);
    both.witness = Some(witness("1"));
    assert!(matches!(
        cast_vote(round("voting"), &both),
        Err(AppError::BadRequest(m)) if m == "provide only one of `proof` or `witness`, not both"
    ));
    let mut neither = request(0);
    neither.proof = None;
    assert!(matches!(
        cast_vote(round("voting"), &neither),
        Err(AppError::BadRequest(m)) if m == "one of `proof` or `witness` is required"
    ));
    assert!(matches!(
        cast_vote(round("voting"), &with_witness("1", "x")),
        Ok(Ballot::Unproved(_))
    ));
}

#[test]
fn the_phase_is_checked_before_the_choice() {
    assert!(matches!(
        cast_vote(round("finalized"), &request(9)),
        Err(AppError::Conflict(_))
    ));
}

#[test]
fn nullifiers_are_compared_as_hex() {
    assert!(hex_eq("0xAbCd", "abcd"));
    assert!(hex_eq("abcd", "0x0xABCD"));
    assert!(hex_eq("", "0x"));
    assert!(!hex_eq("0xabcd", "0xabce"));
    assert!(!hex_eq("0x0abcd", "abcd"));
    assert!(!hex_eq("0Xab", "ab"));
    assert!(check_nullifier("0xab", "AB").is_ok());
    assert!(matches!(
        check_nullifier("0xab", "ac"),
        Err(AppError::BadRequest(m))
            if m == "nullifier_hex does not match Poseidon2(secret, round_id) for the given witness"
    ));
}

#[test]
fn the_nullifier_of_a_witness_is_checked() {
    let s = state(Some("/bin/bb"));
    let right = s.proof_service.compute_nullifier("0x2a", 5).unwrap();
    for (secret, nullifier, fits) in [
        ("0x2a", right.clone(), true),
        ("42", right.to_uppercase().replace("0X", ""), true),
        ("2a", right.clone(), true),
        ("0x02a", right.clone(), true),
        ("43", right.clone(), false),
        ("0x2a", "0x00".to_string(), false),
    ] {
        let req = with_witness(secret, &nullifier);
        let ballot = match cast_vote(round("voting"), &req) {
            Ok(Ballot::Unproved(b)) => b,
            _ => panic!("not taken"),
        };
        assert!(ballot.is_hashable());
        match ballot.check_witness() {
            Ok(_) => assert!(fits),
            Err(AppError::BadRequest(_)) => assert!(!fits),
            Err(_) => panic!("another error"),
        }
    }
}

#[test]
fn a_secret_that_is_no_number_is_refused() {
    let req = with_witness("0xzz", "00");
    let ballot = match cast_vote(round("voting"), &req) {
        Ok(Ballot::Unproved(b)) => b,
        _ => panic!("not taken"),
    };
    assert!(matches!(
        ballot.check_witness(),
        Err(AppError::Proof(ProofServiceError::InvalidInput(m)))
            if m == "invalid hex field element: Invalid character 'z' at position 0"
    ));
}

#[test]
fn a_secret_beyond_the_field_is_not_hashable() {
    let req = with_witness(&format!("0x{}", "ff".repeat(32)), "00");
    match cast_vote(round("voting"), &req) {
        Ok(Ballot::Unproved(b)) => assert!(!b.is_hashable()),
        _ => panic!("not taken"),
    }
}

#[test]
fn a_checked_witness_is_proved_against_the_round() {
    let s = state(Some("/bin/bb"));
    let right = s.proof_service.compute_nullifier("0x2a", 5).unwrap();
    let req = with_witness("0x2a", &right);
    let checked = match cast_vote(round("voting"), &req) {
        Ok(Ballot::Unproved(b)) => b.check_witness().unwrap(),
        _ => panic!("not taken"),
    };
    let job = checked.prove(&s, true, &onchain()).unwrap();
    assert!(job.prover_toml.contains("merkle_root = \"0xroot\"\n"));
    assert!(job.prover_toml.contains(&format!("nullifier = \"{}\"\n", right)));
    assert!(job.prover_toml.contains("round_id = \"5\"\nchoice = \"1\"\n"));
    let call = checked.proved(dto()).submit(&s);
    assert!(call.args.contains(&right[2..].to_string()));
}

#[test]
fn without_a_prover_a_witness_is_answered_503() {
    for (s, found) in [(state(None), true), (state(Some("/bin/bb")), false)] {
        let right = s.proof_service.compute_nullifier("0x2a", 5).unwrap();
        let req = with_witness("0x2a", &right);
        let checked = match cast_vote(round("voting"), &req) {
            Ok(Ballot::Unproved(b)) => b.check_witness().unwrap(),
            _ => panic!("not taken"),
        };
        let e = checked.prove(&s, found, &onchain()).unwrap_err();
        assert_eq!(e.into_response().status, 503);
        // an already-built proof still works
        assert!(cast_vote(round("voting"), &request(0)).is_ok());
    }
}

#[test]
fn a_ballot_is_submitted_and_recorded() {
    let s = state(None);
    let req = request(1);
    let ballot = match cast_vote(round("voting"), &req) {
        Ok(Ballot::Proved(b)) => b,
        _ => panic!("not taken"),
    };
    assert_eq!(
        ballot.submit(&s).args[8..].to_vec(),
        vec![
            "--", "cast_vote", "--round_id", "5", "--choice", "1", "--nullifier", "abcd",
            "--proof", "{\"a\":\"aa\",\"b\":\"bb\",\"c\":\"cc\"}"
        ]
    );
    let sent = ProcessOutput {
        success: true,
        code: Some(0),
        stdout: b"null\n".to_vec(),
        stderr: format!("Signing transaction: {}", "cd".repeat(32)).into_bytes(),
    };
    let (row, tx_hash) = ballot.submitted(&s, Ok(sent)).unwrap();
    assert_eq!(row.round_id, 5);
    assert_eq!(row.nullifier_hex, "0xABCD");
    assert_eq!(row.choice_index, 1);
    assert_eq!(row.cast_vote_tx_hash, "cd".repeat(32));
    assert_eq!(tx_hash, Some("cd".repeat(32)));
    let replay = ProcessOutput {
        success: false,
        code: Some(1),
        stdout: vec![],
        stderr: b"Error(Contract, #12)".to_vec(),
    };
    assert!(matches!(
        ballot.submitted(&s, Ok(replay)),
        Err(AppError::Soroban(SorobanError::Contract { code: 12, name: "NullifierAlreadyUsed" }))
    ));
}

#[test]
fn a_nullifier_is_submitted_as_plain_hex() {
    let s = state(None);
    for given in ["abcd", "ABCD", "0xABCD", "0XABCD"] {
        let mut req = request(0);
        req.nullifier_hex = given.to_string();
        match cast_vote(round("voting"), &req) {
            Ok(Ballot::Proved(b)) => {
                let args = b.submit(&s).args;
                let at = args.iter().position(|a| a == "--nullifier").unwrap();
                assert_eq!(args[at + 1], "abcd");
            },
            _ => panic!("not taken"),
        }
    }
}

#[test]
fn a_ballot_without_a_hash_is_recorded_without_one() {
    assert_eq!(ballot_record(&request(0), &None).cast_vote_tx_hash, "");
}

#[test]
fn a_ballot_is_answered_from_its_row() {
    let row = BallotRow {
        id: 1,
        round_id: 5,
        nullifier_hex: "stored".to_string(),
        choice_index: 1,
        cast_vote_tx_hash: "h".to_string(),
        cast_at: 0,
    };
    let r = vote_response(&request(0), row, Some("h".to_string()));
    assert_eq!(r.round_id, 5);
    assert_eq!(r.choice, 1);
    assert_eq!(r.nullifier_hex, "stored");
    assert_eq!(r.tx_hash.as_deref(), Some("h"));
}
