use anonvote_backend::config::Config;
use anonvote_backend::error::AppError;
use anonvote_backend::models::{
    CastVoteRequest, ExecutePayoutsRequest, OnChainRound, PayoutRow, ProofDto, ProposalRow,
    RegisterVoterRequest, RoundRow,
};
use anonvote_backend::proof_service::ProofService;
use anonvote_backend::routes::payouts::{
    execute_payouts, list_payouts, PayoutRun, PayoutStatus,
};
use anonvote_backend::routes::rounds::final_tally;
use anonvote_backend::routes::voters::register;
use anonvote_backend::routes::votes::cast_vote;
use anonvote_backend::soroban_client::{ProcessOutput, SorobanClient};
use anonvote_backend::state::AppStateInner;

fn state() -> AppStateInner {
    let vars: Vec<(String, String)> = [
        ("DATABASE_URL", "postgres://x"),
        ("ANONVOTE_CONTRACT_ID", "CABC"),
        ("STELLAR_OPERATOR_IDENTITY", "operator"),
        ("STELLAR_NETWORK", "testnet"),
        ("STELLAR_TREASURY_IDENTITY", "treasury"),
    ]
    .iter()
    .map(|(k, v)| (k.to_string(), v.to_string()))
    .collect();
    let config = Config::from_env(&vars).unwrap();
    AppStateInner {
        soroban: SorobanClient::new(&config),
        proof_service: ProofService::new("/c".to_string(), "nargo".to_string(), None),
        config,
        operator_address: "GOPERATOR".to_string(),
    }
}

fn round(phase: &str, pool: i64) -> Result<Option<RoundRow>, String> {
    Ok(Some(RoundRow {
        id: 5,
        contract_id: "CABC".to_string(),
        admin: "GOPERATOR".to_string(),
        title: "Round".to_string(),
        num_choices: 3,
        phase: phase.to_string(),
        payout_pool_stroops: pool,
        create_round_tx_hash: None,
        created_at: 0,
        voting_opened_at: None,
        finalized_at: None,
    }))
}

fn proposal(choice_index: i32) -> ProposalRow {
    ProposalRow {
        id: 100 + choice_index as u128,
        round_id: 5,
        choice_index,
        title: format!("P{}", choice_index),
        description: None,
        payout_address: format!("G{}", choice_index),
        created_at: 0,
    }
}

fn request() -> ExecutePayoutsRequest {
    ExecutePayoutsRequest { round_id: 5 }
}

fn run(pool: i64, votes: Vec<u64>) -> PayoutRun {
    let proposals = (0..votes.len() as i32).map(proposal).collect();
    let unpaid = execute_payouts(round("finalized", pool), &request()).unwrap().check_unpaid(Ok(0)).unwrap();
    unpaid.split(proposals, &votes)
}

#[test]
fn payouts_need_a_finalized_round_with_a_pool() {
    assert!(execute_payouts(round("finalized", 1), &request()).is_ok());
    for phase in ["registration", "voting", "Finalized"] {
        assert!(matches!(
            execute_payouts(round(phase, 1), &request()),
            Err(AppError::Conflict(m))
                if m == format!("round 5 must be finalized before payouts can execute (phase = {})", phase)
        ));
    }
    for pool in [0, -1] {
        assert!(matches!(
            execute_payouts(round("finalized", pool), &request()),
            Err(AppError::BadRequest(m)) if m == "round has no payout_pool_stroops configured"
        ));
    }
    assert!(matches!(execute_payouts(Ok(None), &request()), Err(AppError::NotFound(_))));
    assert!(matches!(execute_payouts(Err("x".to_string()), &request()), Err(AppError::Db(_))));
}

#[test]
fn payouts_are_not_executed_twice() {
    let payable = || execute_payouts(round("finalized", 1), &request()).unwrap();
    assert!(payable().check_unpaid(Ok(0)).is_ok());
    assert!(matches!(payable().check_unpaid(Err("x".to_string())), Err(AppError::Db(_))));
    let e = payable().check_unpaid(Ok(3)).unwrap_err();
    assert_eq!(e.into_response().status, 409);
    assert!(matches!(
        e,
        AppError::Conflict(m) if m == "payouts have already been executed for round 5"
    ));
}

#[test]
fn shares_are_paid_from_the_treasury() {
    let s = state();
    let mut run = run(1_000, vec![3, 0, 1]);
    assert!(!run.is_done());
    let call = run.payment(&s).unwrap();
    assert_eq!(
        call.args,
        vec![
            "tx", "new", "payment", "--source-account", "treasury", "--destination", "G0",
            "--amount", "750", "--network", "testnet"
        ]
    );
    let sent = ProcessOutput {
        success: true,
        code: Some(0),
        stdout: vec![],
        stderr: format!("Signing transaction: {}", "ab".repeat(32)).into_bytes(),
    };
    let row = run.settle_output(&s, Ok(sent));
    assert_eq!(row.round_id, 5);
    assert_eq!(row.proposal_id, 100);
    assert_eq!(row.amount_stroops, 750);
    assert_eq!(row.vote_share_bps, 7_500);
    assert_eq!(row.status, "submitted");
    assert_eq!(row.payout_tx_hash, Some("ab".repeat(32)));
    assert_eq!(row.error, None);

    assert!(run.payment(&s).is_none());
    let row = run.settle_nothing();
    assert_eq!((row.amount_stroops, row.status.as_str()), (0, "confirmed"));
    assert_eq!((row.payout_tx_hash, row.error), (None, None));

    assert!(run.payment(&s).is_some());
    let row = run.settle_output(&s, Err("gone".to_string()));
    assert_eq!((row.amount_stroops, row.status.as_str()), (250, "failed"));
    assert_eq!(row.error.as_deref(), Some("failed to launch `stellar`: gone"));

    assert!(run.is_done());
    let r = run.response();
    assert_eq!((r.round_id, r.payout_pool_stroops), (5, 1_000));
    assert_eq!(r.payouts.len(), 3);
    assert_eq!(r.payouts.iter().map(|p| p.amount_stroops).sum::<i64>(), 1_000);
    assert_eq!(r.payouts[0].choice_index, 0);
    assert_eq!(r.payouts[0].payout_address, "G0");
    assert_eq!(r.payouts[0].votes, 3);
    assert_eq!(r.payouts[2].proposal_id, 102);
    assert_eq!(r.payouts[2].status, "failed");
    assert_eq!(r.payouts[2].tx_hash, None);
}

#[test]
fn a_payment_may_leave_no_hash() {
    let mut run = run(10, vec![1]);
    let row = run.settle(Ok(None));
    assert_eq!((row.status.as_str(), row.payout_tx_hash), ("submitted", None));
}

#[test]
fn nothing_is_paid_where_nobody_voted() {
    let s = state();
    let mut run = run(10, vec![0, 0]);
    while !run.is_done() {
        assert!(run.payment(&s).is_none());
        run.settle_nothing();
    }
    let r = run.response();
    assert_eq!(r.payouts.iter().map(|p| p.amount_stroops).sum::<i64>(), 0);
    assert!(r.payouts.iter().all(|p| p.status == "confirmed" && p.vote_share_bps == 0));
}

#[test]
fn the_largest_pool_is_split() {
    let mut run = run(i64::MAX, vec![1, 1]);
    run.settle(Ok(None));
    run.settle(Ok(None));
    let r = run.response();
    assert_eq!(r.payouts[0].amount_stroops, 1 << 62);
    assert_eq!(r.payouts[1].amount_stroops, (1 << 62) - 1);
}

#[test]
fn votes_beyond_the_proposals_are_not_counted() {
    let unpaid = execute_payouts(round("finalized", 10), &request()).unwrap().check_unpaid(Ok(0)).unwrap();
    let mut run = unpaid.split(vec![proposal(1), proposal(7)], &vec![100, 5]);
    let row = run.settle(Ok(None));
    assert_eq!((row.amount_stroops, row.vote_share_bps), (10, 10_000));
    assert_eq!(run.settle_nothing().amount_stroops, 0);
}

#[test]
fn the_history_of_a_round_is_listed() {
    let row = PayoutRow {
        id: 1,
        round_id: 5,
        proposal_id: 100,
        amount_stroops: 1,
        vote_share_bps: 1,
        status: "submitted".to_string(),
        payout_tx_hash: None,
        error: None,
        created_at: 0,
        executed_at: None,
    };
    assert_eq!(list_payouts(5, round("finalized", 1), Ok(vec![row])).unwrap().len(), 1);
    assert!(matches!(
        list_payouts(5, Ok(None), Ok(vec![])),
        Err(AppError::NotFound(m)) if m == "round 5"
    ));
    assert!(matches!(
        list_payouts(5, round("voting", 1), Err("x".to_string())),
        Err(AppError::Db(_))
    ));
}

#[test]
fn statuses_have_words() {
    assert_eq!(PayoutStatus::Confirmed.as_str(), "confirmed");
    assert_eq!(PayoutStatus::Submitted.as_str(), "submitted");
    assert_eq!(PayoutStatus::Failed.as_str(), "failed");
}

#[test]
fn payouts_are_made_for_the_votes_of_the_tally() {
    let onchain = OnChainRound {
        admin: "GOPERATOR".to_string(),
        ballot_count: 10,
        id: 5,
        merkle_root: "00".to_string(),
        num_choices: 3,
        phase: "Finalized".to_string(),
        registered_count: 10,
        title: "Round".to_string(),
    };
    let votes = vec![2, 0, 8];
    let tally = final_tally(5, &onchain, &(0..3).map(proposal).collect(), &votes);
    let mut run = run(100, votes);
    run.settle(Ok(None));
    run.settle_nothing();
    run.settle(Ok(None));
    let r = run.response();
    assert_eq!(tally.total_votes, 10);
    for i in 0..3 {
        assert_eq!(r.payouts[i].votes, tally.choices[i].votes);
        assert_eq!(r.payouts[i].choice_index, tally.choices[i].choice_index);
        assert_eq!(r.payouts[i].payout_address, tally.choices[i].payout_address);
        assert_eq!(r.payouts[i].vote_share_bps as u64, tally.choices[i].votes * 1_000);
    }
}

#[test]
fn a_phase_opens_one_thing_only() {
    let registration = RegisterVoterRequest {
        round_id: 5,
        voter: "GVOTER".to_string(),
        commitment_hex: "00".to_string(),
        signed_xdr: "AAAA".to_string(),
    };
    let ballot = CastVoteRequest {
        round_id: 5,
        choice: 0,
        nullifier_hex: "00".to_string(),
        proof: Some(ProofDto { a: String::new(), b: String::new(), c: String::new() }),
        witness: None,
    };
    for (phase, open) in [
        ("registration", [true, false, false]),
        ("voting", [false, true, false]),
        ("finalized", [false, false, true]),
        ("other", [false, false, false]),
    ] {
        assert_eq!(register(&state(), round(phase, 1), &registration).is_ok(), open[0]);
        assert_eq!(cast_vote(round(phase, 1), &ballot).is_ok(), open[1]);
        assert_eq!(execute_payouts(round(phase, 1), &request()).is_ok(), open[2]);
    }
}
