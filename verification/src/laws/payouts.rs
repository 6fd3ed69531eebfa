//! Payouts, from the pool that was asked for to the command lines that pay it.
use crate::error::AppError;
use crate::laws::client::{gives_hash, hash_is_found, named_amount, payment_words, pays};
use crate::laws::rounds::{counted, record_keeps_the_request};
use crate::laws::split::{rounded_down, rounded_off, rounded_up};
use crate::laws::{left, total, total_is_sum};
use crate::models::{
    CreateRoundRequest, ExecutePayoutsRequest, ExecutePayoutsResponse, PayoutRow, ProposalRow,
    RoundRow,
};
use crate::routes::allocation::{
    entry_within_sum, quotient_and_remainder, remainders, served_before_is_ranked_before, share,
    shares, split_sums_to_pool, sum, true_total_is_splittable, whole_share, whole_shares,
};
use crate::routes::payouts::{
    amount_within_pool, execute_payouts, list_payouts, payouts_view, NewPayout, PayableRound,
    PayoutRun, PayoutRunView, PayoutStatus, PayoutView, UnpaidRound,
};
use crate::routes::rounds::{round_record, RoundRecord};
use crate::soroban_client::{CliCall, ProcessOutput, SorobanClient, SorobanError};
use crate::state::AppStateInner;
use crate::text::optional_text;
use vstd::prelude::*;
use vstd::string::*;

verus! {

// ---------------------------------------------------------------------
// Whether payouts are executed
// ---------------------------------------------------------------------
/// Payouts are executed just where the round is there, finalized, and has something to pay out: the
/// whole pool of the round. Otherwise they are refused with the reason.
pub proof fn finalized_rounds_with_a_pool_are_paid_out(
    found: Result<Option<RoundRow>, String>,
    req: &ExecutePayoutsRequest,
    r: Result<PayableRound, AppError>,
)
    requires
        call_ensures(execute_payouts, (found, req), r),
    ensures
        match found {
            Ok(Some(round)) => if round.phase@ != "finalized"@ {
                r matches Err(AppError::Conflict(_))
            } else if round.payout_pool_stroops <= 0 {
                r matches Err(AppError::BadRequest(_))
            } else {
                r matches Ok(payable) && payable.id() == req.round_id && payable.pool()
                    == round.payout_pool_stroops
            },
            Ok(None) => r matches Err(AppError::NotFound(_)),
            Err(m) => r matches Err(AppError::Db(s)) && s@ == m@,
        },
{
}

/// Payouts are executed once: where some are recorded they are refused, and otherwise the round and
/// its pool stay as they are.
pub proof fn payouts_are_executed_once(
    payable: PayableRound,
    already: Result<i64, String>,
    r: Result<UnpaidRound, AppError>,
)
    requires
        call_ensures(PayableRound::check_unpaid, (payable, already), r),
    ensures
        match already {
            Ok(n) => if n > 0 {
                r matches Err(AppError::Conflict(_))
            } else {
                r matches Ok(unpaid) && unpaid.id() == payable.id() && unpaid.pool()
                    == payable.pool()
            },
            Err(m) => r matches Err(AppError::Db(s)) && s@ == m@,
        },
{
}

/// The history of payouts is what the database returned, for a round that is there.
pub proof fn history_is_served(
    round_id: i64,
    found: Result<Option<RoundRow>, String>,
    payouts: Result<Vec<PayoutRow>, String>,
    r: Result<Vec<PayoutRow>, AppError>,
)
    requires
        call_ensures(list_payouts, (round_id, found, payouts), r),
    ensures
        match found {
            Ok(Some(_)) => match payouts {
                Ok(rows) => r == Ok::<Vec<PayoutRow>, AppError>(rows),
                Err(m) => r matches Err(AppError::Db(s)) && s@ == m@,
            },
            Ok(None) => r matches Err(AppError::NotFound(_)),
            Err(m) => r matches Err(AppError::Db(s)) && s@ == m@,
        },
{
}

// ---------------------------------------------------------------------
// The run of payouts
// ---------------------------------------------------------------------
/// A pool is split across all the proposals, each with the votes that the chain counts for it, and
/// nothing is paid yet.
pub proof fn run_begins_with_the_whole_pool(
    unpaid: UnpaidRound,
    proposals: Vec<ProposalRow>,
    votes: &Vec<u64>,
    run: PayoutRun,
)
    requires
        call_ensures(UnpaidRound::split, (unpaid, proposals, votes), run),
    ensures
        run.wf(),
        run@.round_id == unpaid.id(),
        run@.pool == unpaid.pool(),
        run@.proposals == proposals@,
        run@.results.len() == 0,
        run@.votes.len() == proposals@.len(),
        forall|i: int|
            0 <= i < proposals@.len() ==> (#[trigger] run@.votes[i]) == counted(
                votes@,
                proposals@[i].choice_index,
            ),
{
}

/// The total of the votes of a run.
proof fn votes_of_a_run(run: PayoutRunView)
    requires
        run.wf(),
    ensures
        run.total() == total(run.votes),
        total(run.votes) == sum(run.votes),
{
    total_is_sum(run.votes);
}

/// A payment is made from the treasury to the address of the proposal whose turn it is, and the
/// word after `--amount`, read as a decimal number, is the proposal's share in stroops, whatever
/// the share. There is no payment just where the share is zero.
pub proof fn payment_is_the_share(run: &PayoutRun, state: &AppStateInner, r: Option<CliCall>)
    requires
        run.wf(),
        !run@.done(),
        call_ensures(PayoutRun::payment, (run, state), r),
    ensures
        ({
            let i = run@.turn();
            let all = total(run@.votes);
            let amount: nat = match r {
                Some(call) => named_amount(call),
                None => 0,
            };
            &&& i == run@.results.len()
            &&& r matches Some(call) ==> amount > 0 && pays(
                call,
                state.soroban@,
                state.config.treasury_identity@,
                run@.proposals[i].payout_address@,
                amount as int,
            )
            &&& all == 0 ==> amount == 0
            &&& all > 0 ==> amount == rounded_down(run@.pool as u64, run@.votes[i], all as u64)
                || amount == rounded_down(run@.pool as u64, run@.votes[i], all as u64) + 1
        }),
{
    let i = run@.turn();
    amount_within_pool(run@, i);
    votes_of_a_run(run@);
    if let Some(call) = r {
        payment_words(
            call,
            state.soroban@,
            state.config.treasury_identity@,
            run@.proposals[i].payout_address@,
            run@.amount(i) as i64,
        );
    }
    if run@.total() > 0 {
        share_is_rounded(run@, i);
    }
}

proof fn share_is_rounded(run: PayoutRunView, i: int)
    requires
        run.wf(),
        0 <= i < run.votes.len(),
        run.total() > 0,
    ensures
        run.total() == total(run.votes),
        run.amount(i) == rounded_down(run.pool as u64, run.votes[i], run.total()) || rounded_up(
            run.pool as u64,
            run.votes[i],
            run.total(),
            run.amount(i),
        ),
{
    let pool = run.pool as u64;
    let all = run.total();
    votes_of_a_run(run);
    entry_within_sum(run.votes, i);
    quotient_and_remainder(pool, run.votes[i], all);
    true_total_is_splittable(pool, run.votes, all);
    let whole = whole_shares(pool, run.votes, all);
    assert(whole[i] == whole_share(pool, run.votes[i], all));
    entry_within_sum(whole, i);
}

/// The stroops that a payment names are those that are recorded for it, whatever becomes of it.
pub proof fn named_stroops_are_recorded(
    before: &PayoutRun,
    run: &mut PayoutRun,
    state: &AppStateInner,
    call: CliCall,
    sent: Result<Option<String>, SorobanError>,
    record: NewPayout,
)
    requires
        *before == *old(run),
        before.wf(),
        !before@.done(),
        call_ensures(PayoutRun::payment, (before, state), Some(call)),
        call_ensures(PayoutRun::settle, (run, sent), record),
    ensures
        record.amount_stroops == named_amount(call),
        final(run)@.results.last().amount_stroops == named_amount(call),
{
    let i = before@.turn();
    amount_within_pool(before@, i);
    payment_words(
        call,
        state.soroban@,
        state.config.treasury_identity@,
        before@.proposals[i].payout_address@,
        before@.amount(i) as i64,
    );
}

/// The stroops on a command line, and none where there is none.
pub open spec fn stroops_named(call: Option<CliCall>) -> nat {
    match call {
        Some(call) => named_amount(call),
        None => 0,
    }
}

/// The stroops on command lines.
pub open spec fn all_stroops_named(calls: Seq<Option<CliCall>>) -> nat
    decreases calls.len(),
{
    if calls.len() == 0 {
        0
    } else {
        all_stroops_named(calls.drop_last()) + stroops_named(calls.last())
    }
}

/// Whether command lines are those of a run of payouts: one for each of the proposals when it is
/// its turn, out of one pool and for one set of votes.
pub open spec fn pays_out(
    state: &AppStateInner,
    runs: Seq<PayoutRun>,
    calls: Seq<Option<CliCall>>,
    pool: i64,
    votes: Seq<u64>,
) -> bool {
    &&& calls.len() == runs.len() == votes.len()
    &&& forall|i: int|
        0 <= i < runs.len() ==> {
            &&& (#[trigger] runs[i]).wf()
            &&& runs[i]@.results.len() == i
            &&& runs[i]@.pool == pool
            &&& runs[i]@.votes == votes
            &&& call_ensures(PayoutRun::payment, (&runs[i], state), calls[i])
        }
}

proof fn first_lines(
    state: &AppStateInner,
    runs: Seq<PayoutRun>,
    calls: Seq<Option<CliCall>>,
    pool: i64,
    votes: Seq<u64>,
    n: int,
)
    requires
        pays_out(state, runs, calls, pool, votes),
        0 <= n <= runs.len(),
    ensures
        all_stroops_named(calls.take(n)) == sum(
            shares(pool as u64, votes, sum(votes) as u64).take(n),
        ),
    decreases n,
{
    let all = shares(pool as u64, votes, sum(votes) as u64);
    if n > 0 {
        first_lines(state, runs, calls, pool, votes, n - 1);
        let run = runs[n - 1];
        assert(calls.take(n).drop_last() =~= calls.take(n - 1));
        assert(all.take(n).drop_last() =~= all.take(n - 1));
        assert(all.take(n).last() == all[n - 1]);
        assert(all[n - 1] == run@.amount(n - 1));
        amount_within_pool(run@, n - 1);
        if let Some(call) = calls[n - 1] {
            payment_words(
                call,
                state.soroban@,
                state.config.treasury_identity@,
                run@.proposals[n - 1].payout_address@,
                run@.amount(n - 1) as i64,
            );
        }
    }
}

/// The stroops on the command lines of a completed run sum to exactly the pool wherever anyone has
/// voted, and to nothing where nobody has.
pub proof fn command_lines_pay_the_pool(
    state: &AppStateInner,
    runs: Seq<PayoutRun>,
    calls: Seq<Option<CliCall>>,
    pool: i64,
    votes: Seq<u64>,
)
    requires
        pays_out(state, runs, calls, pool, votes),
    ensures
        total(votes) > 0 ==> all_stroops_named(calls) == pool,
        total(votes) == 0 ==> all_stroops_named(calls) == 0,
{
    let n = runs.len() as int;
    let all = shares(pool as u64, votes, sum(votes) as u64);
    first_lines(state, runs, calls, pool, votes, n);
    assert(calls.take(n) =~= calls);
    assert(all.take(n) =~= all);
    total_is_sum(votes);
    if n > 0 {
        assert(runs[0].wf());
    }
    if sum(votes) > 0 {
        split_sums_to_pool(pool as u64, votes, sum(votes) as u64);
    } else {
        assert forall|i: int| 0 <= i < all.len() implies all[i] == 0 by {}
        nothing_is_nothing(all);
    }
}

proof fn nothing_is_nothing(s: Seq<u64>)
    requires
        forall|i: int| 0 <= i < s.len() ==> s[i] == 0,
    ensures
        sum(s) == 0,
    decreases s.len(),
{
    if s.len() > 0 {
        nothing_is_nothing(s.drop_last());
    }
}

/// The pool that payouts split is the pool that was asked for when the round was created.
pub proof fn asked_pool_is_split(
    state: &AppStateInner,
    asked: &CreateRoundRequest,
    id: u64,
    tx_hash: Option<String>,
    record: RoundRecord,
    row: RoundRow,
    req: &ExecutePayoutsRequest,
    payable: PayableRound,
    already: Result<i64, String>,
    unpaid: UnpaidRound,
    proposals: Vec<ProposalRow>,
    votes: &Vec<u64>,
    run: PayoutRun,
)
    requires
        call_ensures(round_record, (state, asked, id, tx_hash), record),
        row.payout_pool_stroops == record.round.payout_pool_stroops,
        call_ensures(
            execute_payouts,
            (Ok::<Option<RoundRow>, String>(Some(row)), req),
            Ok::<PayableRound, AppError>(payable),
        ),
        call_ensures(
            PayableRound::check_unpaid,
            (payable, already),
            Ok::<UnpaidRound, AppError>(unpaid),
        ),
        call_ensures(UnpaidRound::split, (unpaid, proposals, votes), run),
    ensures
        run@.pool == asked.payout_pool_stroops,
        run@.round_id == req.round_id,
{
    record_keeps_the_request(state, asked, id, tx_hash, record);
    finalized_rounds_with_a_pool_are_paid_out(Ok(Some(row)), req, Ok(payable));
    payouts_are_executed_once(payable, already, Ok(unpaid));
    run_begins_with_the_whole_pool(unpaid, proposals, votes, run);
}

/// The stroops that rounding down leaves over go to the proposals that lost most by it, and first
/// come first where they lost as much.
pub proof fn leftover_goes_to_the_largest_remainders(run: PayoutRunView, j: int, i: int)
    requires
        run.wf(),
        0 <= i < run.votes.len(),
        0 <= j < run.votes.len(),
        total(run.votes) > 0,
        ({
            let (pool, all) = (run.pool as u64, total(run.votes) as u64);
            let a = rounded_off(pool, run.votes[j], all);
            let b = rounded_off(pool, run.votes[i], all);
            a > b || (a == b && j < i)
        }),
        rounded_up(run.pool as u64, run.votes[i], total(run.votes) as u64, run.amount(i)),
    ensures
        rounded_up(run.pool as u64, run.votes[j], total(run.votes) as u64, run.amount(j)),
{
    let pool = run.pool as u64;
    let all = run.total();
    votes_of_a_run(run);
    share_is_rounded(run, i);
    share_is_rounded(run, j);
    entry_within_sum(run.votes, i);
    entry_within_sum(run.votes, j);
    quotient_and_remainder(pool, run.votes[i], all);
    quotient_and_remainder(pool, run.votes[j], all);
    true_total_is_splittable(pool, run.votes, all);
    let whole = whole_shares(pool, run.votes, all);
    assert(whole[i] == whole_share(pool, run.votes[i], all));
    assert(whole[j] == whole_share(pool, run.votes[j], all));
    entry_within_sum(whole, i);
    entry_within_sum(whole, j);
    served_before_is_ranked_before(remainders(pool, run.votes, all), j, i);
}

// ---------------------------------------------------------------------
// What is noted and answered
// ---------------------------------------------------------------------
/// Whether a run has taken one step: nothing of it changed but that a payout was added.
pub open spec fn steps(before: PayoutRunView, now: PayoutRunView) -> bool {
    &&& now.round_id == before.round_id
    &&& now.pool == before.pool
    &&& now.proposals == before.proposals
    &&& now.votes == before.votes
    &&& now.results == before.results.push(now.results.last())
}

/// Whether a payout is that of a proposal, with its votes and its address.
pub open spec fn is_payout_of(p: PayoutView, run: PayoutRunView, i: int) -> bool {
    let all = total(run.votes);
    &&& p.proposal_id == run.proposals[i].id
    &&& p.choice_index == run.proposals[i].choice_index
    &&& p.payout_address == run.proposals[i].payout_address@
    &&& p.votes == run.votes[i]
    &&& all == 0 ==> p.amount_stroops == 0 && p.vote_share_bps == 0
    &&& all > 0 ==> (p.amount_stroops == rounded_down(run.pool as u64, p.votes, all as u64)
        || p.amount_stroops == rounded_down(run.pool as u64, p.votes, all as u64) + 1)
    &&& all > 0 ==> p.vote_share_bps * all <= p.votes * 10_000 < (p.vote_share_bps + 1) * all
}

/// Whether a record says of a payout what the payout says.
pub open spec fn says(record: NewPayout, round_id: i64, p: PayoutView) -> bool {
    &&& record.round_id == round_id
    &&& record.proposal_id == p.proposal_id
    &&& record.amount_stroops == p.amount_stroops
    &&& record.vote_share_bps == p.vote_share_bps
    &&& record.status@ == p.status
    &&& optional_text(record.payout_tx_hash) == p.tx_hash
    &&& optional_text(record.error) == p.error
}

proof fn basis_points_fit(v: u64, all: u64)
    requires
        v <= all,
        all > 0,
    ensures
        (v * 10_000) / (all as int) <= 10_000,
{
    assert((v as int * 10_000) / (all as int) <= 10_000) by (nonlinear_arith)
        requires
            0 <= v <= all,
            all > 0,
    ;
}

proof fn step_is_a_payout(run: PayoutRunView, outcome: crate::routes::payouts::PayoutOutcome)
    requires
        run.wf(),
        !run.done(),
    ensures
        steps(run, run.after(outcome)),
        is_payout_of(run.after(outcome).results.last(), run, run.results.len() as int),
        run.after(outcome).results.last().status == outcome.status.text(),
        run.after(outcome).results.last().tx_hash == outcome.tx_hash,
        run.after(outcome).results.last().error == outcome.error,
{
    let i = run.turn();
    let now = run.after(outcome);
    assert(now.results.last() == run.payout(i, outcome));
    amount_within_pool(run, i);
    votes_of_a_run(run);
    if run.total() > 0 {
        share_is_rounded(run, i);
        entry_within_sum(run.votes, i);
        basis_points_fit(run.votes[i], run.total());
        crate::laws::split::basis_points(run.votes[i], run.total());
    }
}

/// A payment that was sent or was not is noted as a payout of the proposal whose turn it is, with
/// its transaction or with what went wrong, and it is recorded as it is noted.
pub proof fn payment_is_noted(
    run: &mut PayoutRun,
    sent: Result<Option<String>, SorobanError>,
    said: String,
    record: NewPayout,
)
    requires
        old(run).wf(),
        !old(run)@.done(),
        call_ensures(PayoutRun::settle, (run, sent), record),
        sent matches Err(e) ==> call_ensures(SorobanError::message, (&e,), said),
    ensures
        ({
            let p = final(run)@.results.last();
            &&& steps(old(run)@, final(run)@)
            &&& is_payout_of(p, old(run)@, old(run)@.results.len() as int)
            &&& says(record, old(run)@.round_id, p)
            &&& sent matches Ok(hash) ==> p.status == "submitted"@ && p.tx_hash == optional_text(
                hash,
            ) && p.error is None
            &&& sent is Err ==> p.status == "failed"@ && p.tx_hash is None && p.error
                == Some(said@)
        }),
{
    step_is_a_payout(
        old(run)@,
        crate::routes::payouts::payment_outcome(crate::routes::payouts::sent_view(sent)),
    );
}

/// A payment whose call succeeded is submitted, with the transaction that the call named, and one
/// whose call failed is failed.
pub proof fn call_of_a_payment_is_noted(
    run: &mut PayoutRun,
    state: &AppStateInner,
    o: ProcessOutput,
    stdout: Seq<char>,
    stderr: Seq<char>,
    before: Seq<char>,
    hash: Seq<char>,
    after: Seq<char>,
    record: NewPayout,
)
    requires
        old(run).wf(),
        !old(run)@.done(),
        call_ensures(
            PayoutRun::settle_output,
            (run, state, Ok::<ProcessOutput, String>(o)),
            record,
        ),
    ensures
        ({
            let p = final(run)@.results.last();
            &&& steps(old(run)@, final(run)@)
            &&& is_payout_of(p, old(run)@, old(run)@.results.len() as int)
            &&& says(record, old(run)@.round_id, p)
            &&& left(o, true, stdout, stderr) ==> record.status@ == "submitted"@ && record.error is None
                && gives_hash(record.payout_tx_hash, stderr, before, hash, after)
            &&& !o.success ==> record.status@ == "failed"@ && record.error is Some
                && record.payout_tx_hash is None
        }),
{
    if left(o, true, stdout, stderr) {
        hash_is_found(stderr, before, hash, after);
    }
    step_is_a_payout(
        old(run)@,
        crate::routes::payouts::payment_outcome(
            crate::routes::payouts::payment_result(
                state.soroban@.cli_path,
                Ok::<ProcessOutput, String>(o),
            ),
        ),
    );
}

/// What the client made of the call of a payment decides what is noted.
pub proof fn noting_follows_the_client(
    run: &mut PayoutRun,
    state: &AppStateInner,
    output: Result<ProcessOutput, String>,
    read: Result<Option<String>, SorobanError>,
    said: String,
    record: NewPayout,
)
    requires
        old(run).wf(),
        !old(run)@.done(),
        call_ensures(SorobanClient::payment_sent, (&state.soroban, output), read),
        read matches Err(e) ==> call_ensures(SorobanError::message, (&e,), said),
        call_ensures(PayoutRun::settle_output, (run, state, output), record),
    ensures
        steps(old(run)@, final(run)@),
        says(record, old(run)@.round_id, final(run)@.results.last()),
        match read {
            Ok(hash) => record.status@ == "submitted"@ && optional_text(record.payout_tx_hash)
                == optional_text(hash) && record.error is None,
            Err(_) => record.status@ == "failed"@ && record.payout_tx_hash is None
                && optional_text(record.error) == Some(said@),
        },
{
    step_is_a_payout(
        old(run)@,
        crate::routes::payouts::payment_outcome(
            crate::routes::payouts::payment_result(state.soroban@.cli_path, output),
        ),
    );
}

/// A proposal with nothing to be paid is noted as confirmed, without a transaction.
pub proof fn nothing_is_noted(run: &mut PayoutRun, record: NewPayout)
    requires
        old(run).wf(),
        !old(run)@.done(),
        call_ensures(PayoutRun::settle_nothing, (run,), record),
    ensures
        ({
            let p = final(run)@.results.last();
            &&& steps(old(run)@, final(run)@)
            &&& is_payout_of(p, old(run)@, old(run)@.results.len() as int)
            &&& says(record, old(run)@.round_id, p)
            &&& p.status == "confirmed"@
            &&& p.tx_hash is None
            &&& p.error is None
        }),
{
    step_is_a_payout(old(run)@, crate::routes::payouts::nothing_due());
}

/// A run is over just where every proposal has had its turn.
pub proof fn run_is_over_after_every_proposal(run: &PayoutRun, r: bool)
    requires
        run.wf(),
        call_ensures(PayoutRun::is_done, (run,), r),
    ensures
        r <==> run@.results.len() == run@.proposals.len(),
{
}

/// The answer tells the round, the pool and every payout as it was noted.
pub proof fn payouts_are_answered(run: PayoutRun, r: ExecutePayoutsResponse, i: int)
    requires
        run.wf(),
        run@.done(),
        call_ensures(PayoutRun::response, (run,), r),
    ensures
        r.round_id == run@.round_id,
        r.payout_pool_stroops == run@.pool,
        r.payouts@.len() == run@.proposals.len(),
        0 <= i < r.payouts@.len() ==> {
            let (p, q) = (r.payouts@[i], run@.results[i]);
            &&& p.proposal_id == q.proposal_id
            &&& p.choice_index == q.choice_index
            &&& p.payout_address@ == q.payout_address
            &&& p.votes == q.votes
            &&& p.vote_share_bps == q.vote_share_bps
            &&& p.amount_stroops == q.amount_stroops
            &&& p.status@ == q.status
            &&& optional_text(p.tx_hash) == q.tx_hash
            &&& optional_text(p.error) == q.error
        },
{
    let v = payouts_view(r.payouts@);
    assert(v.len() == r.payouts@.len());
    if 0 <= i < v.len() {
        assert(v[i] == r.payouts@[i]@);
    }
}

/// What became of a payout has its word.
pub proof fn statuses_have_their_words(status: PayoutStatus, r: &str)
    requires
        call_ensures(PayoutStatus::as_str, (&status,), r),
    ensures
        status == PayoutStatus::Confirmed ==> r@ == "confirmed"@,
        status == PayoutStatus::Submitted ==> r@ == "submitted"@,
        status == PayoutStatus::Failed ==> r@ == "failed"@,
{
}

} // verus!
