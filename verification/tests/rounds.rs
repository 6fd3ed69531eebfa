use anonvote_backend::config::Config;
use anonvote_backend::error::AppError;
use anonvote_backend::models::{
    default_true, CreateProposalRequest, CreateRoundRequest, OnChainRound, ProposalRow, RoundRow,
    SetEligibilityRequest,
};
use anonvote_backend::proof_service::ProofService;
use anonvote_backend::routes::health;
use anonvote_backend::routes::rounds::{
    checked_sum, create_round, created, fetch_proposals, fetch_round, final_tally,
    finalize_round, get_round, get_tally, is_countable, live_tally, open_voting, read_round,
    read_tally, round_created, round_finalized, round_record, set_eligibility, tally_read,
    voting_opened, zip_tally,
};
use anonvote_backend::soroban_client::{ProcessOutput, SorobanClient, SorobanError};
use anonvote_backend::state::AppStateInner;

fn state() -> AppStateInner {
    let vars: Vec<(String, String)> = [
        ("DATABASE_URL", "postgres://x"),
        ("ANONVOTE_CONTRACT_ID", "CABC"),
        ("STELLAR_OPERATOR_IDENTITY", "operator"),
        ("STELLAR_NETWORK", "testnet"),
    ]
    .iter()
    .map(|(k, v)| (k.to_string(), v.to_string()))
    .collect();
    let config = Config::from_env(&vars).unwrap();
    AppStateInner {
        soroban: SorobanClient::new(&config),
        proof_service: ProofService::new("/c".to_string(), "nargo".to_string(), None),
        config,
        operator_address: "GOPERATOR".to_string(),
    }
}

fn round(phase: &str) -> RoundRow {
    RoundRow {
        id: 5,
        contract_id: "CABC".to_string(),
        admin: "GOPERATOR".to_string(),
        title: "Round".to_string(),
        num_choices: 2,
        phase: phase.to_string(),
        payout_pool_stroops: 100,
        create_round_tx_hash: None,
        created_at: 0,
        voting_opened_at: None,
        finalized_at: None,
    }
}

fn proposal(choice_index: i32) -> ProposalRow {
    ProposalRow {
        id: 1,
        round_id: 5,
        choice_index,
        title: format!("P{}", choice_index),
        description: None,
        payout_address: format!("G{}", choice_index),
        created_at: 0,
    }
}

fn request(n: usize, pool: i64) -> CreateRoundRequest {
    CreateRoundRequest {
        title: "Round".to_string(),
        payout_pool_stroops: pool,
        proposals: (0..n)
            .map(|i| CreateProposalRequest {
                title: format!("P{}", i),
                description: if i == 0 { Some("first".to_string()) } else { None },
                payout_address: format!("G{}", i),
            })
            .collect(),
    }
}

fn ok(stdout: &str) -> Result<ProcessOutput, String> {
    Ok(ProcessOutput {
        success: true,
        code: Some(0),
        stdout: stdout.as_bytes().to_vec(),
        stderr: format!("Signing transaction: {}", "ab".repeat(32)).into_bytes(),
    })
}

fn rejected(stderr: &str) -> Result<ProcessOutput, String> {
    Ok(ProcessOutput {
        success: false,
        code: Some(1),
        stdout: vec![],
        stderr: stderr.as_bytes().to_vec(),
    })
}

fn onchain() -> OnChainRound {
    OnChainRound {
        admin: "GOPERATOR".to_string(),
        ballot_count: 3,
        id: 5,
        merkle_root: "00".to_string(),
        num_choices: 2,
        phase: "Voting".to_string(),
        registered_count: 4,
        title: "Round".to_string(),
    }
}

#[test]
fn a_round_needs_a_proposal_and_no_debt() {
    let s = state();
    assert!(matches!(
        create_round(&s, &request(0, -1)),
        Err(AppError::BadRequest(m)) if m == "at least one proposal is required"
    ));
    assert!(matches!(
        create_round(&s, &request(1, -1)),
        Err(AppError::BadRequest(m)) if m == "payout_pool_stroops must not be negative"
    ));
    assert!(create_round(&s, &request(1, 0)).is_ok());
}

#[test]
fn a_round_is_created_by_the_operator() {
    let call = create_round(&state(), &request(3, 7)).unwrap();
    assert_eq!(
        call.args[8..].to_vec(),
        vec![
            "--", "create_round", "--admin", "GOPERATOR", "--title", "Round", "--num_choices", "3"
        ]
    );
}

#[test]
fn a_created_round_is_recorded_with_its_proposals() {
    let record = round_created(&state(), &request(2, 7), ok("12\n")).unwrap();
    assert_eq!(record.round.id, 12);
    assert_eq!(record.round.contract_id, "CABC");
    assert_eq!(record.round.admin, "GOPERATOR");
    assert_eq!(record.round.title, "Round");
    assert_eq!(record.round.num_choices, 2);
    assert_eq!(record.round.payout_pool_stroops, 7);
    assert_eq!(record.round.create_round_tx_hash, Some("ab".repeat(32)));
    for (i, p) in record.proposals.iter().enumerate() {
        assert_eq!(p.round_id, 12);
        assert_eq!(p.choice_index, i as i32);
        assert_eq!(p.title, format!("P{}", i));
        assert_eq!(p.payout_address, format!("G{}", i));
    }
    assert_eq!(record.proposals[0].description.as_deref(), Some("first"));
    assert_eq!(record.proposals[1].description, None);
    assert!(matches!(
        round_created(&state(), &request(2, 7), rejected("Error(Contract, #2)")),
        Err(AppError::Soroban(SorobanError::Contract { code: 2, .. }))
    ));
}

#[test]
fn a_recorded_number_names_the_round_on_the_chain() {
    let s = state();
    for id in [0, 1, u64::MAX, 1 << 63] {
        let record = round_record(&s, &request(1, 0), id, None);
        let call = read_round(&s, record.round.id);
        assert_eq!(call.args.last().unwrap(), &id.to_string());
    }
}

#[test]
fn rounds_are_found_or_not() {
    assert_eq!(fetch_round(5, Ok(Some(round("voting")))).unwrap().phase, "voting");
    assert!(matches!(fetch_round(-5, Ok(None)), Err(AppError::NotFound(m)) if m == "round -5"));
    assert!(matches!(fetch_round(5, Err("down".to_string())), Err(AppError::Db(m)) if m == "down"));
    assert_eq!(fetch_proposals(Ok(vec![proposal(0)])).unwrap().len(), 1);
    assert!(matches!(fetch_proposals(Err("down".to_string())), Err(AppError::Db(_))));
}

#[test]
fn a_round_is_shown_with_its_proposals() {
    let r = get_round(5, Ok(Some(round("voting"))), Ok(vec![proposal(0), proposal(1)])).unwrap();
    assert_eq!(r.round.id, 5);
    assert_eq!(r.proposals.len(), 2);
    assert!(matches!(get_round(5, Ok(None), Ok(vec![])), Err(AppError::NotFound(_))));
    assert!(matches!(
        get_round(5, Ok(Some(round("voting"))), Err("down".to_string())),
        Err(AppError::Db(_))
    ));
    let c = created(round("registration"), vec![proposal(0)]);
    assert_eq!(c.round.phase, "registration");
    assert_eq!(c.proposals[0].title, "P0");
}

#[test]
fn eligibility_is_set_voter_by_voter() {
    let s = state();
    let req = SetEligibilityRequest {
        voters: vec!["GA".to_string(), "GB".to_string(), "GA".to_string()],
        eligible: default_true(),
    };
    let mut run = set_eligibility(5, Ok(Some(round("registration"))), &req).unwrap();
    let call = run.next_call(&s).unwrap();
    assert_eq!(
        call.args[8..].to_vec(),
        vec!["--", "set_eligible", "--round_id", "5", "--voter", "GA", "--eligible", "true"]
    );
    run.record_output(&s, ok("null"));
    assert!(run.next_call(&s).unwrap().args.contains(&"GB".to_string()));
    run.record_output(&s, rejected("Error(Contract, #7)"));
    assert!(run.next_call(&s).is_some());
    run.record(Ok(()));
    assert!(run.next_call(&s).is_none());
    let r = run.response();
    assert_eq!(r.round_id, 5);
    assert_eq!(r.updated, vec!["GA", "GA"]);
    assert_eq!(r.failed.len(), 1);
    assert_eq!(r.failed[0].voter, "GB");
    assert_eq!(
        r.failed[0].error,
        "the AnonVote contract rejected this call: RegistrationClosed (#7)"
    );
}

#[test]
fn eligibility_of_nobody_is_answered_at_once() {
    let s = state();
    let req = SetEligibilityRequest { voters: vec![], eligible: false };
    let run = set_eligibility(5, Ok(Some(round("registration"))), &req).unwrap();
    assert!(run.next_call(&s).is_none());
    let r = run.response();
    assert!(r.updated.is_empty() && r.failed.is_empty());
    assert!(matches!(set_eligibility(5, Ok(None), &req), Err(AppError::NotFound(_))));
}

#[test]
fn opening_and_closing_change_the_phase() {
    let s = state();
    assert_eq!(
        open_voting(&s, 5).args[8..].to_vec(),
        vec!["--", "open_voting", "--round_id", "5"]
    );
    let change = voting_opened(&s, 5, ok("null")).unwrap();
    assert_eq!((change.round_id, change.phase.as_str()), (5, "voting"));
    assert!(matches!(
        voting_opened(&s, 5, rejected("boom")),
        Err(AppError::Soroban(SorobanError::Cli { .. }))
    ));
    assert_eq!(
        finalize_round(&s, 5).args[8..].to_vec(),
        vec!["--", "finalize_round", "--round_id", "5"]
    );
    let (change, votes) = round_finalized(&s, 5, ok("[3,1]")).unwrap();
    assert_eq!((change.round_id, change.phase.as_str()), (5, "finalized"));
    assert_eq!(votes, vec![3, 1]);
    assert!(round_finalized(&s, 5, ok("3")).is_err());
}

#[test]
fn the_chain_is_read_without_sending() {
    let s = state();
    assert_eq!(
        read_round(&s, 5).args[8..].to_vec(),
        vec!["--send", "no", "--", "get_round", "--round_id", "5"]
    );
    assert_eq!(
        read_tally(&s, 5).args[8..].to_vec(),
        vec!["--send", "no", "--", "tally", "--round_id", "5"]
    );
    assert_eq!(tally_read(&s, ok("[3,1]")).unwrap(), vec![3, 1]);
    assert!(matches!(tally_read(&s, ok("x")), Err(AppError::Soroban(SorobanError::Decode { .. }))));
}

#[test]
fn votes_are_tallied_by_choice() {
    let proposals = vec![proposal(1), proposal(0), proposal(2), proposal(-1)];
    let choices = zip_tally(&proposals, &vec![10, 20]);
    let votes: Vec<u64> = choices.iter().map(|c| c.votes).collect();
    assert_eq!(votes, vec![20, 10, 0, 0]);
    assert_eq!(choices[0].choice_index, 1);
    assert_eq!(choices[0].proposal_title, "P1");
    assert_eq!(choices[0].payout_address, "G1");
}

#[test]
fn tallies_total_their_choices() {
    let proposals = vec![proposal(0), proposal(1)];
    let t = live_tally(5, &onchain(), &proposals, &vec![3, 1]);
    assert_eq!((t.round_id, t.phase.as_str(), t.registered_count), (5, "Voting", 4));
    assert_eq!(t.total_votes, 4);
    assert_eq!(t.choices.iter().map(|c| c.votes).sum::<u64>(), t.total_votes);
    let t = final_tally(5, &onchain(), &proposals, &vec![3, 1, 7]);
    assert_eq!(t.phase, "Finalized");
    assert_eq!(t.total_votes, 4);
}

#[test]
fn a_tally_needs_proposals() {
    assert!(matches!(get_tally(9, Ok(vec![])), Err(AppError::NotFound(m)) if m == "round 9"));
    assert!(matches!(get_tally(9, Err("down".to_string())), Err(AppError::Db(_))));
    assert_eq!(get_tally(9, Ok(vec![proposal(0)])).unwrap().len(), 1);
}

#[test]
fn sums_are_checked() {
    assert_eq!(checked_sum(&vec![u64::MAX, 0]), Some(u64::MAX));
    assert_eq!(checked_sum(&vec![u64::MAX, 1]), None);
    assert_eq!(checked_sum(&vec![]), Some(0));
    assert!(!is_countable(&vec![proposal(0), proposal(1)], &vec![u64::MAX, 1]));
    assert!(is_countable(&vec![proposal(0)], &vec![u64::MAX, 1]));
}

#[test]
fn a_service_that_is_up_is_ok() {
    assert_eq!(health(), "ok");
}
