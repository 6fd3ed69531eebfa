use anonvote_backend::config::Config;
use anonvote_backend::error::AppError;
use anonvote_backend::models::{
    OnChainRound, RegisterVoterRequest, RoundRow, VoterRegistrationRow,
};
use anonvote_backend::proof_service::ProofService;
use anonvote_backend::routes::voters::{
    leaf_index, register, registration_record, registration_relayed, registration_response,
};
use anonvote_backend::soroban_client::{ProcessOutput, SorobanClient, SorobanError};
use anonvote_backend::state::AppStateInner;

fn state() -> AppStateInner {
    let vars: Vec<(String, String)> = [
        ("DATABASE_URL", "postgres://x"),
        ("ANONVOTE_CONTRACT_ID", "CABC"),
        ("STELLAR_OPERATOR_IDENTITY", "operator"),
        ("STELLAR_NETWORK", "testnet"),
    ]
    .iter()
    .map(|(k, v)| (k.to_string(), v.to_string()))
    .collect();
    let config = Config::from_env(&vars).unwrap();
    AppStateInner {
        soroban: SorobanClient::new(&config),
        proof_service: ProofService::new("/c".to_string(), "nargo".to_string(), None),
        config,
        operator_address: "GOPERATOR".to_string(),
    }
}

fn round(phase: &str) -> Result<Option<RoundRow>, String> {
    Ok(Some(RoundRow {
        id: 5,
        contract_id: "CABC".to_string(),
        admin: "GOPERATOR".to_string(),
        title: "Round".to_string(),
        num_choices: 2,
        phase: phase.to_string(),
        payout_pool_stroops: 100,
        create_round_tx_hash: None,
        created_at: 0,
        voting_opened_at: None,
        finalized_at: None,
    }))
}

fn request() -> RegisterVoterRequest {
    RegisterVoterRequest {
        round_id: 5,
        voter: "GVOTER".to_string(),
        commitment_hex: "0xcc".to_string(),
        signed_xdr: " AAAA\n".to_string(),
    }
}

fn onchain(registered_count: u32) -> OnChainRound {
    OnChainRound {
        admin: "GOPERATOR".to_string(),
        ballot_count: 0,
        id: 5,
        merkle_root: "00".to_string(),
        num_choices: 2,
        phase: "Registration".to_string(),
        registered_count,
        title: "Round".to_string(),
    }
}

#[test]
fn registrations_are_relayed_while_they_are_accepted() {
    let call = register(&state(), round("registration"), &request()).unwrap();
    assert_eq!(call.args, vec!["tx", "send", "--network", "testnet"]);
    assert_eq!(call.input.as_deref(), Some("AAAA"));
    for phase in ["voting", "finalized", "Registration"] {
        assert!(matches!(
            register(&state(), round(phase), &request()),
            Err(AppError::Conflict(m))
                if m == format!("round 5 is not accepting registrations (phase = {})", phase)
        ));
    }
    assert!(matches!(register(&state(), Ok(None), &request()), Err(AppError::NotFound(_))));
    assert!(matches!(register(&state(), Err("x".to_string()), &request()), Err(AppError::Db(_))));
}

#[test]
fn a_relayed_registration_is_recorded() {
    let s = state();
    let sent = ProcessOutput {
        success: true,
        code: Some(0),
        stdout: format!("https://x/explorer/testnet/tx/{}", "ef".repeat(32)).into_bytes(),
        stderr: vec![],
    };
    let relayed = registration_relayed(&s, Ok(sent)).unwrap();
    assert_eq!(relayed.tx_hash, Some("ef".repeat(32)));
    let row = registration_record(&request(), &onchain(4), &relayed.tx_hash);
    assert_eq!(row.round_id, 5);
    assert_eq!(row.voter_address, "GVOTER");
    assert_eq!(row.leaf_index, 3);
    assert_eq!(row.commitment_hex, "0xcc");
    assert_eq!(row.register_tx_hash, "ef".repeat(32));
    assert_eq!(registration_record(&request(), &onchain(1), &None).register_tx_hash, "");
}

#[test]
fn a_failed_registration_is_told() {
    let failed = ProcessOutput {
        success: false,
        code: Some(1),
        stdout: vec![],
        stderr: b"tx failed".to_vec(),
    };
    assert!(matches!(
        registration_relayed(&state(), Ok(failed)),
        Err(AppError::Soroban(SorobanError::TransactionFailed { .. }))
    ));
}

#[test]
fn the_last_leaf_is_one_below_the_count() {
    for n in [1, 2, 256, i32::MAX as u32] {
        assert_eq!(leaf_index(n), n as i32 - 1);
    }
    assert_eq!(leaf_index(0), 0);
    assert_eq!(leaf_index(u32::MAX), -2);
}

#[test]
fn a_registration_is_answered_from_its_row() {
    let row = VoterRegistrationRow {
        id: 1,
        round_id: 5,
        voter_address: "other".to_string(),
        leaf_index: 9,
        commitment_hex: "stored".to_string(),
        register_tx_hash: "h".to_string(),
        registered_at: 0,
    };
    let r = registration_response(request(), row, None);
    assert_eq!(r.round_id, 5);
    assert_eq!(r.voter, "GVOTER");
    assert_eq!(r.leaf_index, 9);
    assert_eq!(r.commitment_hex, "stored");
    assert_eq!(r.tx_hash, None);
}
