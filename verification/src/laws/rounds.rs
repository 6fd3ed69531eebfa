//! Rounds, eligibility, phases and the tally.
use crate::decimal::decimal;
use crate::error::AppError;
use crate::json::{json_u64, json_u64_list, json_unit};
use crate::laws::client::{
    gives_hash, hash_is_found, list_line, null_line, number_line, sent, sent_name, sent_value,
    sent_words, simulated, simulated_name, simulated_value, simulated_words,
};
use crate::laws::{bracketed, decimal_is_number, is_number, left, total, total_is_sum};
use crate::models::{
    ChoiceTally, CreateRoundRequest, CreateRoundResponse, OnChainRound, ProposalRow, RoundRow,
    SetEligibilityRequest, SetEligibilityResponse, TallyResponse,
};
use crate::routes::rounds::{
    chain_id, checked_sum, closed, count_for, count_proposals, create_round, created,
    fetch_proposals, fetch_round, final_tally, finalize_round, get_round, get_tally, is_countable,
    is_tally_of, live_tally, open_voting, opened, proposal_votes, read_round, read_tally,
    round_args, round_created, round_finalized, round_record, row_id, set_eligibility, tallies,
    tally_read, voting_opened, zip_tally, EligibilityRun, EligibilityRunView, PhaseChange,
    RoundRecord,
};
use crate::soroban_client::{CliCall, Invoked, ProcessOutput, SorobanClient, SorobanError};
use crate::state::AppStateInner;
use crate::text::{optional_text, texts};
use vstd::prelude::*;
use vstd::string::*;

verus! {

// ---------------------------------------------------------------------
// Numbers of rounds
// ---------------------------------------------------------------------
/// The 64 bits of a number that may be negative, as a number that is not.
pub open spec fn unsigned(n: i64) -> int {
    if n >= 0 {
        n as int
    } else {
        n + 0x1_0000_0000_0000_0000
    }
}

/// A round is asked for on the chain by the 64 bits of its number: by the number itself, unless it
/// is negative.
pub proof fn round_is_asked_for_by_its_number(round_id: i64)
    ensures
        chain_id(round_id) == unsigned(round_id),
{
    assert(round_id >= 0 ==> (round_id as u64) == round_id) by (bit_vector);
    assert(round_id < 0 ==> (round_id as u64) == round_id + 0x1_0000_0000_0000_0000) by (bit_vector);
}

/// A round is recorded by the 64 bits of its number on the chain: by the number itself, as far as
/// it goes.
pub proof fn round_is_recorded_by_its_number(n: u64)
    ensures
        unsigned(row_id(n)) == n,
        n <= i64::MAX ==> row_id(n) == n,
{
    let r: i64 = n as i64;
    assert(n <= 0x7fff_ffff_ffff_ffff ==> (n as i64) == n) by (bit_vector);
    assert(n > 0x7fff_ffff_ffff_ffff ==> (n as i64) == n - 0x1_0000_0000_0000_0000) by (bit_vector);
}

/// Whether argument `i` of a call that is sent is the number of a round.
pub open spec fn sends_round(call: CliCall, state: AppStateInner, i: int, round_id: i64) -> bool {
    &&& sent_name(call, state.soroban@, i) == "--"@ + "round_id"@
    &&& is_number(sent_value(call, state.soroban@, i), unsigned(round_id))
}

/// The number of a round, where it is the first argument.
pub proof fn round_is_the_first_argument(args: Seq<(Seq<char>, Seq<char>)>, round_id: i64)
    requires
        args.len() > 0,
        args[0] == round_args(round_id)[0],
    ensures
        args[0].0 == "round_id"@,
        is_number(args[0].1, unsigned(round_id)),
{
    round_is_asked_for_by_its_number(round_id);
    decimal_is_number(chain_id(round_id) as nat);
}

// ---------------------------------------------------------------------
// POST /rounds
// ---------------------------------------------------------------------
/// A round is created just where it has proposals and no debt; otherwise the request is refused.
pub proof fn rounds_with_proposals_are_created(
    state: &AppStateInner,
    req: &CreateRoundRequest,
    r: Result<CliCall, AppError>,
)
    requires
        call_ensures(create_round, (state, req), r),
    ensures
        r is Ok <==> req.proposals@.len() > 0 && req.payout_pool_stroops >= 0,
        r matches Err(e) ==> e is BadRequest,
{
}

/// A round is created with the operator as its admin, under its title, and with one choice for each
/// of its proposals.
pub proof fn round_is_created_as_requested(
    state: &AppStateInner,
    req: &CreateRoundRequest,
    call: CliCall,
)
    requires
        call_ensures(create_round, (state, req), Ok::<CliCall, AppError>(call)),
        req.proposals@.len() <= u32::MAX,
    ensures
        sent(call, state.soroban@, "create_round"@, 3),
        sent_name(call, state.soroban@, 0) == "--"@ + "admin"@,
        sent_value(call, state.soroban@, 0) == state.operator_address@,
        sent_name(call, state.soroban@, 1) == "--"@ + "title"@,
        sent_value(call, state.soroban@, 1) == req.title@,
        sent_name(call, state.soroban@, 2) == "--"@ + "num_choices"@,
        is_number(sent_value(call, state.soroban@, 2), req.proposals@.len() as int),
{
    let n = req.proposals@.len();
    decimal_is_number(n);
    let args = seq![
        ("admin"@, state.operator_address@),
        ("title"@, req.title@),
        ("num_choices"@, decimal(n)),
    ];
    assert(n as u32 == n);
    sent_words(call, state.soroban@, "create_round"@, args);
    assert(args[0].0 == "admin"@ && args[1].0 == "title"@ && args[2].0 == "num_choices"@);
}

/// Whether a round is recorded as it was requested, under the number that the chain gave it.
pub open spec fn keeps_the_request(
    record: RoundRecord,
    state: AppStateInner,
    req: CreateRoundRequest,
    id: u64,
) -> bool {
    let round = record.round;
    let proposals = record.proposals@;
    &&& unsigned(round.id) == id
    &&& round.contract_id@ == state.config.contract_id@
    &&& round.admin@ == state.operator_address@
    &&& round.title@ == req.title@
    &&& round.payout_pool_stroops == req.payout_pool_stroops
    &&& req.proposals@.len() <= i32::MAX ==> round.num_choices == req.proposals@.len()
    &&& proposals.len() == req.proposals@.len()
    &&& forall|i: int| #![trigger proposals[i]] 0 <= i < proposals.len() ==> {
        let (p, q) = (proposals[i], req.proposals@[i]);
        &&& unsigned(p.round_id) == id
        &&& i <= i32::MAX ==> p.choice_index == i
        &&& p.title@ == q.title@
        &&& p.payout_address@ == q.payout_address@
        &&& p.description is Some <==> q.description is Some
        &&& p.description is Some ==> p.description->0@ == q.description->0@
    }
}

/// A round is recorded as it was requested: the pool of the record is the pool of the request,
/// whatever the pool, and every proposal stands in its place with its title, its description and
/// its address.
pub proof fn record_keeps_the_request(
    state: &AppStateInner,
    req: &CreateRoundRequest,
    id: u64,
    tx_hash: Option<String>,
    record: RoundRecord,
)
    requires
        call_ensures(round_record, (state, req, id, tx_hash), record),
    ensures
        record.round.payout_pool_stroops == req.payout_pool_stroops,
        keeps_the_request(record, *state, *req, id),
        record.round.create_round_tx_hash is Some <==> tx_hash is Some,
        tx_hash is Some ==> record.round.create_round_tx_hash->0@ == tx_hash->0@,
{
    records_are_kept(*state, *req, id, optional_text(tx_hash), record);
}

proof fn records_are_kept(
    state: AppStateInner,
    req: CreateRoundRequest,
    id: u64,
    tx_hash: Option<Seq<char>>,
    record: RoundRecord,
)
    requires
        crate::routes::rounds::records_round(
            record,
            state.config.contract_id@,
            state.operator_address@,
            req,
            id,
            tx_hash,
        ),
    ensures
        keeps_the_request(record, state, req, id),
        optional_text(record.round.create_round_tx_hash) == tx_hash,
{
    round_is_recorded_by_its_number(id);
    let proposals = record.proposals@;
    assert forall|i: int| #![trigger proposals[i]] 0 <= i < proposals.len() implies {
        let (p, q) = (proposals[i], req.proposals@[i]);
        &&& unsigned(p.round_id) == id
        &&& i <= i32::MAX ==> p.choice_index == i
        &&& p.title@ == q.title@
        &&& p.payout_address@ == q.payout_address@
        &&& p.description is Some <==> q.description is Some
        &&& p.description is Some ==> p.description->0@ == q.description->0@
    } by {
        assert(crate::routes::rounds::records_proposal(proposals[i], req, id, i));
    }
}

/// A round that the contract created is recorded as it was requested, under the number that the
/// call printed and with the transaction that it named.
pub proof fn created_round_is_recorded(
    state: &AppStateInner,
    req: &CreateRoundRequest,
    o: ProcessOutput,
    word: Seq<char>,
    id: u64,
    stderr: Seq<char>,
    before: Seq<char>,
    hash: Seq<char>,
    after: Seq<char>,
    r: Result<RoundRecord, AppError>,
)
    requires
        call_ensures(round_created, (state, req, Ok::<ProcessOutput, String>(o)), r),
        is_number(word, id as int),
        left(o, true, word.push('\n'), stderr),
    ensures
        r matches Ok(record) && keeps_the_request(record, *state, *req, id) && gives_hash(
            record.round.create_round_tx_hash,
            stderr,
            before,
            hash,
            after,
        ),
{
    number_line(word, id);
    hash_is_found(stderr, before, hash, after);
    let parsed = |s: Seq<char>| json_u64(s);
    assert(parsed(word) == json_u64(word));
    let record = r->Ok_0;
    records_are_kept(
        *state,
        *req,
        id,
        optional_text(record.round.create_round_tx_hash),
        record,
    );
}

/// A round that could not be created is not recorded.
pub proof fn failed_round_is_not_recorded(
    state: &AppStateInner,
    req: &CreateRoundRequest,
    output: Result<ProcessOutput, String>,
    r: Result<RoundRecord, AppError>,
)
    requires
        call_ensures(round_created, (state, req, output), r),
        output matches Ok(o) ==> !o.success,
    ensures
        r matches Err(e) && e is Soroban,
{
}

/// What the client made of the call that creates a round decides what becomes of it: the round is
/// recorded under the number and with the transaction that it returned, and its error is told.
pub proof fn creation_follows_the_client(
    state: &AppStateInner,
    req: &CreateRoundRequest,
    output: Result<ProcessOutput, String>,
    read: Result<Invoked<u64>, SorobanError>,
    r: Result<RoundRecord, AppError>,
)
    requires
        call_ensures(SorobanClient::invoked_u64, (&state.soroban, output), read),
        call_ensures(round_created, (state, req, output), r),
    ensures
        match read {
            Ok(i) => r is Ok && keeps_the_request(r->Ok_0, *state, *req, i.value) && optional_text(
                r->Ok_0.round.create_round_tx_hash,
            ) == optional_text(i.tx_hash),
            Err(e) => r matches Err(AppError::Soroban(f)) && f@ == e@,
        },
{
    if let Ok(i) = read {
        records_are_kept(*state, *req, i.value, optional_text(i.tx_hash), r->Ok_0);
    }
}

// ---------------------------------------------------------------------
// Rows
// ---------------------------------------------------------------------
/// What the database returned is what is served: a round that is there, with its proposals, and
/// otherwise the reason.
pub proof fn rows_are_served(
    round_id: i64,
    found: Result<Option<RoundRow>, String>,
    rows: Result<Vec<ProposalRow>, String>,
    a: Result<RoundRow, AppError>,
    b: Result<Vec<ProposalRow>, AppError>,
    c: Result<CreateRoundResponse, AppError>,
)
    requires
        call_ensures(fetch_round, (round_id, found), a),
        call_ensures(fetch_proposals, (rows,), b),
        call_ensures(get_round, (round_id, found, rows), c),
    ensures
        match found {
            Ok(Some(round)) => a == Ok::<RoundRow, AppError>(round),
            Ok(None) => a matches Err(AppError::NotFound(_)) && c matches Err(
                AppError::NotFound(_),
            ),
            Err(m) => (a matches Err(AppError::Db(s)) && s@ == m@) && (c matches Err(
                AppError::Db(s),
            ) && s@ == m@),
        },
        match rows {
            Ok(v) => b == Ok::<Vec<ProposalRow>, AppError>(v),
            Err(m) => b matches Err(AppError::Db(s)) && s@ == m@,
        },
        found matches Ok(Some(round)) ==> (rows matches Ok(v) ==> (c matches Ok(response)
            && response.round == round && response.proposals == v)),
        found matches Ok(Some(round)) ==> (rows is Err ==> c matches Err(AppError::Db(_))),
{
}

/// The answer to a new round is the rows that the database returned.
pub proof fn new_rows_are_answered(
    round: RoundRow,
    proposals: Vec<ProposalRow>,
    r: CreateRoundResponse,
)
    requires
        call_ensures(created, (round, proposals), r),
    ensures
        r.round == round,
        r.proposals == proposals,
{
}

// ---------------------------------------------------------------------
// POST /rounds/{id}/eligibility
// ---------------------------------------------------------------------
/// A run begins with all the voters that were asked for, none of them done, and begins just where
/// the round is there.
pub proof fn eligibility_begins_with_all_voters(
    round_id: i64,
    found: Result<Option<RoundRow>, String>,
    req: &SetEligibilityRequest,
    r: Result<EligibilityRun, AppError>,
)
    requires
        call_ensures(set_eligibility, (round_id, found, req), r),
    ensures
        match found {
            Ok(Some(_)) => r is Ok,
            Ok(None) => r matches Err(AppError::NotFound(_)),
            Err(m) => r matches Err(AppError::Db(s)) && s@ == m@,
        },
        r matches Ok(run) ==> {
            &&& run@.round_id == round_id
            &&& run@.eligible == req.eligible
            &&& run@.outcomes.len() == 0
            &&& run@.voters.len() == req.voters@.len()
            &&& forall|i: int|
                0 <= i < req.voters@.len() ==> run@.voters[i] == (#[trigger] req.voters@[i])@
        },
{
    if let Ok(run) = r {
        assert forall|i: int| 0 <= i < req.voters@.len() implies run@.voters[i]
            == (#[trigger] req.voters@[i])@ by {}
    }
}

/// The call for a voter names the round, the voter whose turn it is and whether they are eligible;
/// there is one until every voter has had their turn.
pub proof fn eligibility_is_asked_voter_by_voter(
    run: &EligibilityRun,
    state: &AppStateInner,
    r: Option<CliCall>,
)
    requires
        call_ensures(EligibilityRun::next_call, (run, state), r),
    ensures
        r is Some <==> run@.outcomes.len() < run@.voters.len(),
        r matches Some(call) ==> {
            let client = state.soroban@;
            &&& sent(call, client, "set_eligible"@, 3)
            &&& sends_round(call, *state, 0, run@.round_id)
            &&& sent_name(call, client, 1) == "--"@ + "voter"@
            &&& sent_value(call, client, 1) == run@.voters[run@.outcomes.len() as int]
            &&& sent_name(call, client, 2) == "--"@ + "eligible"@
            &&& sent_value(call, client, 2) == (if run@.eligible {
                "true"@
            } else {
                "false"@
            })
        },
{
    if let Some(call) = r {
        let args = round_args(run@.round_id) + seq![
            ("voter"@, run@.voters[run@.outcomes.len() as int]),
            ("eligible"@, crate::soroban_client::bool_text(run@.eligible)),
        ];
        sent_words(call, state.soroban@, "set_eligible"@, args);
        round_is_the_first_argument(args, run@.round_id);
        assert(args[1].0 == "voter"@ && args[2].0 == "eligible"@);
    }
}

/// Whether nothing of a run changed but that the outcome of one more voter was noted.
pub open spec fn notes(
    before: EligibilityRunView,
    now: EligibilityRunView,
    outcome: Option<Seq<char>>,
) -> bool {
    &&& now.round_id == before.round_id
    &&& now.eligible == before.eligible
    &&& now.voters == before.voters
    &&& now.outcomes == before.outcomes.push(outcome)
}

/// What became of a voter is noted for that voter: nothing where they went through, and otherwise
/// what the error says.
pub proof fn outcome_is_noted(
    run: &mut EligibilityRun,
    result: Result<(), SorobanError>,
    said: String,
    done: (),
)
    requires
        call_ensures(EligibilityRun::record, (run, result), done),
        result matches Err(e) ==> call_ensures(SorobanError::message, (&e,), said),
    ensures
        notes(
            old(run)@,
            final(run)@,
            match result {
                Ok(_) => None,
                Err(_) => Some(said@),
            },
        ),
{
}

/// A voter goes through where the call printed `null`, and not where it failed.
pub proof fn call_for_a_voter_is_noted(
    run: &mut EligibilityRun,
    state: &AppStateInner,
    o: ProcessOutput,
    stderr: Seq<char>,
    done: (),
)
    requires
        call_ensures(
            EligibilityRun::record_output,
            (run, state, Ok::<ProcessOutput, String>(o)),
            done,
        ),
    ensures
        left(o, true, "null\n"@, stderr) ==> notes(old(run)@, final(run)@, None),
        !o.success ==> notes(old(run)@, final(run)@, final(run)@.outcomes.last())
            && final(run)@.outcomes.last() is Some,
{
    null_line();
    let parsed = |s: Seq<char>| json_unit(s);
    assert(parsed("null"@) == json_unit("null"@));
}

/// What the client made of the call for a voter decides what is noted.
pub proof fn noting_follows_the_client(
    run: &mut EligibilityRun,
    state: &AppStateInner,
    output: Result<ProcessOutput, String>,
    read: Result<Invoked<()>, SorobanError>,
    said: String,
    done: (),
)
    requires
        call_ensures(SorobanClient::invoked_unit, (&state.soroban, output), read),
        read matches Err(e) ==> call_ensures(SorobanError::message, (&e,), said),
        call_ensures(EligibilityRun::record_output, (run, state, output), done),
    ensures
        notes(
            old(run)@,
            final(run)@,
            match read {
                Ok(_) => None,
                Err(_) => Some(said@),
            },
        ),
{
}

/// Whether voter `i` of a run went through.
pub open spec fn went_through(outcomes: Seq<Option<Seq<char>>>, i: int) -> bool {
    outcomes[i] is None
}

/// How many of the first `n` voters went through.
pub open spec fn through(outcomes: Seq<Option<Seq<char>>>, n: int) -> int
    decreases n,
{
    if n <= 0 {
        0
    } else {
        through(outcomes, n - 1) + (if went_through(outcomes, n - 1) {
            1int
        } else {
            0
        })
    }
}

/// In the answer, every voter who went through stands among the updated, and every other among the
/// failed with what went wrong, each at the place that the voters before them leave.
pub proof fn answer_tells_the_outcome_of_every_voter(
    run: EligibilityRun,
    r: SetEligibilityResponse,
    i: int,
)
    requires
        run@.outcomes.len() == run@.voters.len(),
        call_ensures(EligibilityRun::response, (run,), r),
    ensures
        r.round_id == run@.round_id,
        r.updated@.len() == through(run@.outcomes, run@.voters.len() as int),
        r.updated@.len() + r.failed@.len() == run@.voters.len(),
        0 <= i < run@.voters.len() ==> {
            let k = through(run@.outcomes, i);
            if went_through(run@.outcomes, i) {
                0 <= k < r.updated@.len() && r.updated@[k]@ == run@.voters[i]
            } else {
                &&& 0 <= i - k < r.failed@.len()
                &&& r.failed@[i - k].voter@ == run@.voters[i]
                &&& r.failed@[i - k].error@ == run@.outcomes[i]->0
            }
        },
{
    let n = run@.voters.len() as int;
    let outcomes = run@.outcomes;
    assert(outcomes.take(n) =~= outcomes);
    place_of_a_voter(run@.voters, outcomes, n, i);
    let updated = texts(r.updated@);
    let failed = crate::routes::rounds::failures_view(r.failed@);
    assert(updated.len() == r.updated@.len());
    assert(failed.len() == r.failed@.len());
    if 0 <= i < n {
        let k = through(outcomes, i);
        if went_through(outcomes, i) {
            assert(updated[k] == r.updated@[k]@);
        } else {
            assert(failed[i - k] == (r.failed@[i - k].voter@, r.failed@[i - k].error@));
        }
    }
}

/// The place of a voter in the two lists of the first `n` voters.
proof fn place_of_a_voter(
    voters: Seq<Seq<char>>,
    outcomes: Seq<Option<Seq<char>>>,
    n: int,
    i: int,
)
    requires
        0 <= n <= outcomes.len() <= voters.len(),
    ensures
        ({
            let updated = crate::routes::rounds::updated_voters(voters, outcomes.take(n));
            let failed = crate::routes::rounds::failed_voters(voters, outcomes.take(n));
            let k = through(outcomes, i);
            &&& updated.len() == through(outcomes, n)
            &&& failed.len() == n - through(outcomes, n)
            &&& 0 <= i < n && went_through(outcomes, i) ==> 0 <= k < updated.len() && updated[k]
                == voters[i]
            &&& 0 <= i < n && !went_through(outcomes, i) ==> 0 <= i - k < failed.len() && failed[i
                - k] == (voters[i], outcomes[i]->0)
        }),
    decreases n,
{
    assert(outcomes.take(n).len() == n);
    if n > 0 {
        place_of_a_voter(voters, outcomes, n - 1, i);
        assert(outcomes.take(n).drop_last() =~= outcomes.take(n - 1));
        assert(outcomes.take(n).last() == outcomes[n - 1]);
    }
}

// ---------------------------------------------------------------------
// Phases
// ---------------------------------------------------------------------
/// Voting is opened and closed by calls that name the round, and the tally and the round are read
/// by calls that name it and are never sent.
pub proof fn calls_name_their_round(
    state: &AppStateInner,
    round_id: i64,
    open: CliCall,
    close: CliCall,
    round: CliCall,
    tally: CliCall,
)
    requires
        call_ensures(open_voting, (state, round_id), open),
        call_ensures(finalize_round, (state, round_id), close),
        call_ensures(read_round, (state, round_id), round),
        call_ensures(read_tally, (state, round_id), tally),
    ensures
        sent(open, state.soroban@, "open_voting"@, 1),
        sends_round(open, *state, 0, round_id),
        sent(close, state.soroban@, "finalize_round"@, 1),
        sends_round(close, *state, 0, round_id),
        simulated(round, state.soroban@, "get_round"@, 1),
        simulated_name(round, state.soroban@, 0) == "--"@ + "round_id"@,
        is_number(simulated_value(round, state.soroban@, 0), unsigned(round_id)),
        simulated(tally, state.soroban@, "tally"@, 1),
        simulated_name(tally, state.soroban@, 0) == "--"@ + "round_id"@,
        is_number(simulated_value(tally, state.soroban@, 0), unsigned(round_id)),
{
    let args = round_args(round_id);
    round_is_the_first_argument(args, round_id);
    sent_words(open, state.soroban@, "open_voting"@, args);
    sent_words(close, state.soroban@, "finalize_round"@, args);
    simulated_words(round, state.soroban@, "get_round"@, args);
    simulated_words(tally, state.soroban@, "tally"@, args);
}

/// A round is recorded as open for voting where the call that opens it succeeded, and not where it
/// failed.
pub proof fn opened_round_is_recorded(
    state: &AppStateInner,
    round_id: i64,
    o: ProcessOutput,
    stderr: Seq<char>,
    r: Result<PhaseChange, AppError>,
)
    requires
        call_ensures(voting_opened, (state, round_id, Ok::<ProcessOutput, String>(o)), r),
    ensures
        left(o, true, "null\n"@, stderr) ==> (r matches Ok(change) && change.round_id == round_id
            && change.phase@ == "voting"@),
        !o.success ==> (r matches Err(e) && e is Soroban),
{
    null_line();
    let parsed = |s: Seq<char>| json_unit(s);
    assert(parsed("null"@) == json_unit("null"@));
}

/// A round is recorded as finalized where the call that closes it succeeded, and the final votes
/// are exactly the list that the call printed.
pub proof fn finalized_round_is_recorded(
    state: &AppStateInner,
    round_id: i64,
    o: ProcessOutput,
    v: Seq<u64>,
    stderr: Seq<char>,
    r: Result<(PhaseChange, Vec<u64>), AppError>,
)
    requires
        call_ensures(round_finalized, (state, round_id, Ok::<ProcessOutput, String>(o)), r),
    ensures
        left(o, true, bracketed(v).push('\n'), stderr) ==> (r matches Ok((change, votes))
            && change.round_id == round_id && change.phase@ == "finalized"@ && votes@ == v),
        !o.success ==> (r matches Err(e) && e is Soroban),
{
    list_line(v);
    let parsed = |s: Seq<char>| json_u64_list(s);
    assert(parsed(bracketed(v)) == json_u64_list(bracketed(v)));
}

/// What the client made of the calls that open and close voting, and that read the tally, decides
/// what becomes of them, and its errors are told.
pub proof fn phases_follow_the_client(
    state: &AppStateInner,
    round_id: i64,
    output: Result<ProcessOutput, String>,
    unit: Result<Invoked<()>, SorobanError>,
    invoked: Result<Invoked<Vec<u64>>, SorobanError>,
    list: Result<Vec<u64>, SorobanError>,
    a: Result<PhaseChange, AppError>,
    b: Result<(PhaseChange, Vec<u64>), AppError>,
    c: Result<Vec<u64>, AppError>,
)
    requires
        call_ensures(SorobanClient::invoked_unit, (&state.soroban, output), unit),
        call_ensures(SorobanClient::invoked_list, (&state.soroban, output), invoked),
        call_ensures(SorobanClient::read_list, (&state.soroban, output), list),
        call_ensures(voting_opened, (state, round_id, output), a),
        call_ensures(round_finalized, (state, round_id, output), b),
        call_ensures(tally_read, (state, output), c),
    ensures
        match unit {
            Ok(_) => a matches Ok(change) && change.round_id == round_id && change.phase@
                == "voting"@,
            Err(e) => a matches Err(AppError::Soroban(f)) && f@ == e@,
        },
        match invoked {
            Ok(i) => b matches Ok((change, votes)) && change.round_id == round_id && change.phase@
                == "finalized"@ && votes@ == i.value@,
            Err(e) => b matches Err(AppError::Soroban(f)) && f@ == e@,
        },
        match list {
            Ok(v) => c matches Ok(votes) && votes@ == v@,
            Err(e) => c matches Err(AppError::Soroban(f)) && f@ == e@,
        },
{
}

/// A round is open for voting or finalized under its own number.
pub proof fn phases_are_recorded(round_id: i64, a: PhaseChange, b: PhaseChange)
    requires
        call_ensures(opened, (round_id,), a),
        call_ensures(closed, (round_id,), b),
    ensures
        a.round_id == round_id && a.phase@ == "voting"@,
        b.round_id == round_id && b.phase@ == "finalized"@,
{
}

// ---------------------------------------------------------------------
// The tally
// ---------------------------------------------------------------------
/// The votes that are read are exactly the list that the call printed, all of its entries in order;
/// where the call failed there are none.
pub proof fn votes_are_read_in_full(
    state: &AppStateInner,
    o: ProcessOutput,
    v: Seq<u64>,
    stderr: Seq<char>,
    r: Result<Vec<u64>, AppError>,
)
    requires
        call_ensures(tally_read, (state, Ok::<ProcessOutput, String>(o)), r),
    ensures
        left(o, true, bracketed(v).push('\n'), stderr) ==> (r matches Ok(votes) && votes@ == v),
        !o.success ==> (r matches Err(e) && e is Soroban),
{
    list_line(v);
}

/// The votes that a tally holds for a choice, and none for a choice that it does not know.
pub open spec fn counted(votes: Seq<u64>, choice: i32) -> int {
    if 0 <= choice < votes.len() {
        votes[choice as int] as int
    } else {
        0
    }
}

/// Whether a choice of a tally shows its proposal and all of its votes.
pub open spec fn shows(c: ChoiceTally, p: ProposalRow, votes: Seq<u64>) -> bool {
    &&& c.choice_index == p.choice_index
    &&& c.proposal_title@ == p.title@
    &&& c.payout_address@ == p.payout_address@
    &&& c.votes == counted(votes, p.choice_index)
}

/// The votes that a tally shows, one number for each choice.
pub open spec fn votes_shown(t: TallyResponse) -> Seq<u64> {
    Seq::new(t.choices@.len(), |i: int| t.choices@[i].votes)
}

/// Whether a tally shows every proposal with its votes, in order, and their total.
pub open spec fn tells(
    t: TallyResponse,
    round_id: i64,
    proposals: Seq<ProposalRow>,
    votes: Seq<u64>,
) -> bool {
    &&& t.round_id == round_id
    &&& t.choices@.len() == proposals.len()
    &&& forall|i: int|
        0 <= i < proposals.len() ==> shows(t.choices@[i], #[trigger] proposals[i], votes)
    &&& t.total_votes == total(votes_shown(t))
}

proof fn tally_tells(
    t: TallyResponse,
    round_id: i64,
    phase: Seq<char>,
    registered_count: u32,
    proposals: Seq<ProposalRow>,
    votes: Seq<u64>,
)
    requires
        is_tally_of(t, round_id, phase, registered_count, proposals, votes),
    ensures
        tells(t, round_id, proposals, votes),
        t.phase@ == phase,
        t.registered_count == registered_count,
{
    assert forall|i: int| 0 <= i < proposals.len() implies shows(
        t.choices@[i],
        #[trigger] proposals[i],
        votes,
    ) by {
        assert(tallies(t.choices@[i], proposals[i], votes));
    }
    let shown = votes_shown(t);
    assert forall|i: int| 0 <= i < shown.len() implies shown[i] == proposal_votes(
        proposals,
        votes,
    )[i] by {
        assert(tallies(t.choices@[i], proposals[i], votes));
    }
    assert(shown =~= proposal_votes(proposals, votes));
    total_is_sum(shown);
}

/// A live tally shows every proposal with the votes that the chain counts for its choice, and their
/// total, in the phase that the chain is in.
pub proof fn live_tally_tells_the_chain(
    round_id: i64,
    onchain: &OnChainRound,
    proposals: &Vec<ProposalRow>,
    votes: &Vec<u64>,
    t: TallyResponse,
)
    requires
        crate::routes::rounds::countable(proposals@, votes@),
        call_ensures(live_tally, (round_id, onchain, proposals, votes), t),
    ensures
        tells(t, round_id, proposals@, votes@),
        t.phase@ == onchain.phase@,
        t.registered_count == onchain.registered_count,
{
    tally_tells(
        t,
        round_id,
        onchain.phase@,
        onchain.registered_count,
        proposals@,
        votes@,
    );
}

/// A final tally shows what a live one does, in its final phase.
pub proof fn final_tally_tells_the_chain(
    round_id: i64,
    onchain: &OnChainRound,
    proposals: &Vec<ProposalRow>,
    votes: &Vec<u64>,
    t: TallyResponse,
)
    requires
        crate::routes::rounds::countable(proposals@, votes@),
        call_ensures(final_tally, (round_id, onchain, proposals, votes), t),
    ensures
        tells(t, round_id, proposals@, votes@),
        t.phase@ == "Finalized"@,
        t.registered_count == onchain.registered_count,
{
    tally_tells(
        t,
        round_id,
        "Finalized"@,
        onchain.registered_count,
        proposals@,
        votes@,
    );
}

/// Every vote that the chain counts for a proposal is shown for that proposal, from what the call
/// printed to the tally.
pub proof fn printed_votes_are_shown(
    state: &AppStateInner,
    round_id: i64,
    o: ProcessOutput,
    v: Seq<u64>,
    stderr: Seq<char>,
    onchain: &OnChainRound,
    proposals: &Vec<ProposalRow>,
    votes: Vec<u64>,
    t: TallyResponse,
    i: int,
)
    requires
        left(o, true, bracketed(v).push('\n'), stderr),
        call_ensures(
            tally_read,
            (state, Ok::<ProcessOutput, String>(o)),
            Ok::<Vec<u64>, AppError>(votes),
        ),
        crate::routes::rounds::countable(proposals@, votes@),
        call_ensures(live_tally, (round_id, onchain, proposals, &votes), t),
        0 <= i < proposals@.len(),
        0 <= proposals@[i].choice_index < v.len(),
    ensures
        t.choices@[i].votes == v[proposals@[i].choice_index as int],
{
    votes_are_read_in_full(state, o, v, stderr, Ok(votes));
    live_tally_tells_the_chain(round_id, onchain, proposals, &votes, t);
    assert(shows(t.choices@[i], proposals@[i], votes@));
}

/// Votes are counted choice by choice and added up, and they are countable just where their total
/// fits in 64 bits.
pub proof fn votes_are_counted(
    proposals: &Vec<ProposalRow>,
    votes: &Vec<u64>,
    choice: i32,
    one: u64,
    counts: Vec<u64>,
    all: Option<u64>,
    countable: bool,
)
    requires
        call_ensures(count_for, (votes, choice), one),
        call_ensures(count_proposals, (proposals, votes), counts),
        call_ensures(checked_sum, (&counts,), all),
        call_ensures(is_countable, (proposals, votes), countable),
    ensures
        one == counted(votes@, choice),
        counts@.len() == proposals@.len(),
        forall|i: int|
            0 <= i < counts@.len() ==> (#[trigger] counts@[i]) == counted(
                votes@,
                proposals@[i].choice_index,
            ),
        all is Some <==> total(counts@) <= u64::MAX,
        all matches Some(n) ==> n == total(counts@),
        countable <==> total(counts@) <= u64::MAX,
{
    total_is_sum(counts@);
}

/// The choices of a tally are the proposals, each with its votes.
pub proof fn choices_are_zipped(
    proposals: &Vec<ProposalRow>,
    votes: &Vec<u64>,
    choices: Vec<ChoiceTally>,
)
    requires
        call_ensures(zip_tally, (proposals, votes), choices),
    ensures
        choices@.len() == proposals@.len(),
        forall|i: int|
            0 <= i < choices@.len() ==> shows(#[trigger] choices@[i], proposals@[i], votes@),
{
    assert forall|i: int| 0 <= i < choices@.len() implies shows(
        #[trigger] choices@[i],
        proposals@[i],
        votes@,
    ) by {
        assert(tallies(choices@[i], proposals@[i], votes@));
    }
}

/// A tally is given just where the round has proposals, and it is given for all of them.
pub proof fn tally_needs_proposals(
    round_id: i64,
    found: Result<Vec<ProposalRow>, String>,
    r: Result<Vec<ProposalRow>, AppError>,
)
    requires
        call_ensures(get_tally, (round_id, found), r),
    ensures
        match found {
            Ok(v) => if v@.len() > 0 {
                r == Ok::<Vec<ProposalRow>, AppError>(v)
            } else {
                r matches Err(AppError::NotFound(_))
            },
            Err(m) => r matches Err(AppError::Db(s)) && s@ == m@,
        },
{
}

} // verus!
