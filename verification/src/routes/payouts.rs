//! `GET /rounds/{id}/payouts` and `POST /payouts/execute`.
use crate::decimal::{i64_text, integer_text};
use crate::error::{AppError, AppErrorView};
use crate::models::{
    CastVoteRequest, ExecutePayoutsRequest, ExecutePayoutsResponse, PayoutResult, PayoutRow,
    ProposalRow, RoundRow, TallyResponse,
};
use crate::pattern::TX_HASH_PATTERN;
use crate::routes::allocation::{
    allocate_stroops, entry_within_sum, no_votes_no_payout, share, share_bps, shares,
    split_sums_to_pool, sum, true_total_is_splittable,
};
use crate::routes::rounds::{
    checked_sum, count_proposals, countable, fetch_round, finalized_phase, is_tally_of,
    missing_round, proposal_votes, registration_phase, tallies, voting_phase,
};
use crate::routes::voters::registration_refusal;
use crate::routes::votes::vote_refusal;
use crate::soroban_client::{
    captured, payment_output_is_read, run_result, CliCall, ProcessOutput, SorobanError,
    SorobanErrorView,
};
use crate::state::AppStateInner;
use crate::text::{copy_optional, optional_text, same_text};
use vstd::prelude::*;
use vstd::string::*;

verus! {

// ---------------------------------------------------------------------
// GET /rounds/{id}/payouts
// ---------------------------------------------------------------------
/// The payout history of a round, from what the database returned for the round and for its
/// payouts.
pub fn list_payouts(
    round_id: i64,
    found: Result<Option<RoundRow>, String>,
    payouts: Result<Vec<PayoutRow>, String>,
) -> (r: Result<Vec<PayoutRow>, AppError>)
    ensures
        match missing_round(round_id, found) {
            Some(refusal) => r matches Err(e) && e@ == refusal,
            None => match payouts {
                Ok(rows) => r == Ok::<Vec<PayoutRow>, AppError>(rows),
                Err(m) => r matches Err(e) && e@ == AppErrorView::Db(m@),
            },
        },
{
    match fetch_round(round_id, found) {
        Err(e) => Err(e),
        Ok(_) => match payouts {
            Err(e) => Err(AppError::Db(e)),
            Ok(rows) => Ok(rows),
        },
    }
}

// ---------------------------------------------------------------------
// Whether payouts are executed
// ---------------------------------------------------------------------
/// Why payouts are not executed, if they are not: there is no such round, it is not finalized, or
/// it has nothing to pay out.
pub open spec fn payout_refusal(found: Result<Option<RoundRow>, String>, round_id: i64) -> Option<
    AppErrorView,
> {
    match found {
        Ok(Some(round)) => if round.phase@ != finalized_phase() {
            Some(
                AppErrorView::Conflict(
                    "round "@ + integer_text(round_id as int)
                        + " must be finalized before payouts can execute (phase = "@ + round.phase@
                        + ")"@,
                ),
            )
        } else if round.payout_pool_stroops <= 0 {
            Some(AppErrorView::BadRequest("round has no payout_pool_stroops configured"@))
        } else {
            None
        },
        _ => missing_round(round_id, found),
    }
}

/// A finalized round with something to pay out.
#[derive(Debug)]
pub struct PayableRound {
    round_id: i64,
    pool: i64,
}

impl PayableRound {
    #[verifier::type_invariant]
    spec fn inv(self) -> bool {
        self.pool > 0
    }

    /// The round's number.
    pub closed spec fn id(self) -> i64 {
        self.round_id
    }

    /// The stroops to pay out.
    pub closed spec fn pool(self) -> i64 {
        self.pool
    }
}

/// The round whose payouts may be executed, from what the database returned for it.
pub fn execute_payouts(
    found: Result<Option<RoundRow>, String>,
    req: &ExecutePayoutsRequest,
) -> (r: Result<PayableRound, AppError>)
    ensures
        match r {
            Ok(payable) => {
                &&& payout_refusal(found, req.round_id) is None
                &&& payable.id() == req.round_id
                &&& found matches Ok(Some(round)) && payable.pool() == round.payout_pool_stroops
            },
            Err(e) => payout_refusal(found, req.round_id) == Some(e@),
        },
{
    let round = fetch_round(req.round_id, found)?;
    if !same_text(round.phase.as_str(), "finalized") {
        let mut out = "round ".to_owned();
        out.append(i64_text(req.round_id).as_str());
        out.append(" must be finalized before payouts can execute (phase = ");
        out.append(round.phase.as_str());
        out.append(")");
        return Err(AppError::Conflict(out));
    }
    if round.payout_pool_stroops <= 0 {
        return Err(
            AppError::BadRequest("round has no payout_pool_stroops configured".to_owned()),
        );
    }
    Ok(PayableRound { round_id: req.round_id, pool: round.payout_pool_stroops })
}

/// Why payouts are not executed again: the database says so, or it already holds some of them.
pub open spec fn repeat_refusal(round_id: i64, already: Result<i64, String>) -> Option<
    AppErrorView,
> {
    match already {
        Err(e) => Some(AppErrorView::Db(e@)),
        Ok(n) => if n > 0 {
            Some(
                AppErrorView::Conflict(
                    "payouts have already been executed for round "@ + integer_text(
                        round_id as int,
                    ),
                ),
            )
        } else {
            None
        },
    }
}

/// A payable round that nothing was paid out for.
#[derive(Debug)]
pub struct UnpaidRound {
    round_id: i64,
    pool: i64,
}

impl UnpaidRound {
    #[verifier::type_invariant]
    spec fn inv(self) -> bool {
        self.pool > 0
    }

    /// The round's number.
    pub closed spec fn id(self) -> i64 {
        self.round_id
    }

    /// The stroops to pay out.
    pub closed spec fn pool(self) -> i64 {
        self.pool
    }
}

impl PayableRound {
    /// Checks that no payouts are recorded for the round, from how many the database counted.
    pub fn check_unpaid(self, already: Result<i64, String>) -> (r: Result<UnpaidRound, AppError>)
        ensures
            match r {
                Ok(unpaid) => repeat_refusal(self.id(), already) is None && unpaid.id()
                    == self.id() && unpaid.pool() == self.pool(),
                Err(e) => repeat_refusal(self.id(), already) == Some(e@),
            },
    {
        proof {
            use_type_invariant(&self);
        }
        match already {
            Err(e) => Err(AppError::Db(e)),
            Ok(n) => if n > 0 {
                let mut out = "payouts have already been executed for round ".to_owned();
                out.append(i64_text(self.round_id).as_str());
                Err(AppError::Conflict(out))
            } else {
                Ok(UnpaidRound { round_id: self.round_id, pool: self.pool })
            },
        }
    }
}

// ---------------------------------------------------------------------
// The payouts
// ---------------------------------------------------------------------
/// What became of a payout.
#[derive(Clone, Copy, Debug, PartialEq, Eq, Structural)]
pub enum PayoutStatus {
    /// There was nothing to pay.
    Confirmed,
    /// The payment was sent.
    Submitted,
    /// The payment was not sent.
    Failed,
}

impl PayoutStatus {
    /// The status in words.
    pub open spec fn text(self) -> Seq<char> {
        match self {
            PayoutStatus::Confirmed => "confirmed"@,
            PayoutStatus::Submitted => "submitted"@,
            PayoutStatus::Failed => "failed"@,
        }
    }

    /// The status in words.
    pub fn as_str(&self) -> (r: &'static str)
        ensures
            r@ == self.text(),
    {
        match self {
            PayoutStatus::Confirmed => "confirmed",
            PayoutStatus::Submitted => "submitted",
            PayoutStatus::Failed => "failed",
        }
    }
}

/// What became of a payout, with the hash of its transaction or the error.
pub struct PayoutOutcome {
    pub status: PayoutStatus,
    pub tx_hash: Option<Seq<char>>,
    pub error: Option<Seq<char>>,
}

/// Nothing was to be paid.
pub open spec fn nothing_due() -> PayoutOutcome {
    PayoutOutcome { status: PayoutStatus::Confirmed, tx_hash: None, error: None }
}

/// What became of a payment.
pub open spec fn payment_outcome(
    sent: Result<Option<Seq<char>>, SorobanErrorView>,
) -> PayoutOutcome {
    match sent {
        Ok(tx_hash) => PayoutOutcome { status: PayoutStatus::Submitted, tx_hash, error: None },
        Err(e) => PayoutOutcome {
            status: PayoutStatus::Failed,
            tx_hash: None,
            error: Some(e.text()),
        },
    }
}

/// A payout to record, with the time.
#[derive(Debug)]
pub struct NewPayout {
    pub round_id: i64,
    pub proposal_id: u128,
    pub amount_stroops: i64,
    pub vote_share_bps: i32,
    pub status: String,
    pub payout_tx_hash: Option<String>,
    pub error: Option<String>,
}

/// The payout of one proposal with its texts as characters.
pub struct PayoutView {
    pub proposal_id: u128,
    pub choice_index: i32,
    pub payout_address: Seq<char>,
    pub votes: u64,
    pub vote_share_bps: i32,
    pub amount_stroops: i64,
    pub status: Seq<char>,
    pub tx_hash: Option<Seq<char>>,
    pub error: Option<Seq<char>>,
}

impl View for PayoutResult {
    type V = PayoutView;

    open spec fn view(&self) -> PayoutView {
        PayoutView {
            proposal_id: self.proposal_id,
            choice_index: self.choice_index,
            payout_address: self.payout_address@,
            votes: self.votes,
            vote_share_bps: self.vote_share_bps,
            amount_stroops: self.amount_stroops,
            status: self.status@,
            tx_hash: optional_text(self.tx_hash),
            error: optional_text(self.error),
        }
    }
}

/// The views of payouts.
pub open spec fn payouts_view(v: Seq<PayoutResult>) -> Seq<PayoutView> {
    v.map_values(|p: PayoutResult| p@)
}

/// Whether a payout is recorded as it was made.
pub open spec fn records_payout(n: NewPayout, round_id: i64, p: PayoutView) -> bool {
    &&& n.round_id == round_id
    &&& n.proposal_id == p.proposal_id
    &&& n.amount_stroops == p.amount_stroops
    &&& n.vote_share_bps == p.vote_share_bps
    &&& n.status@ == p.status
    &&& optional_text(n.payout_tx_hash) == p.tx_hash
    &&& optional_text(n.error) == p.error
}

/// The payouts of a round, one proposal after the other.
#[derive(Debug)]
pub struct PayoutRun {
    round_id: i64,
    pool: i64,
    proposals: Vec<ProposalRow>,
    votes: Vec<u64>,
    shares: Vec<(u64, i32)>,
    results: Vec<PayoutResult>,
}

/// A `PayoutRun`: the pool, the proposals with their votes, and the payouts so far.
pub struct PayoutRunView {
    pub round_id: i64,
    pub pool: i64,
    pub proposals: Seq<ProposalRow>,
    pub votes: Seq<u64>,
    pub results: Seq<PayoutView>,
}

impl View for PayoutRun {
    type V = PayoutRunView;

    closed spec fn view(&self) -> PayoutRunView {
        PayoutRunView {
            round_id: self.round_id,
            pool: self.pool,
            proposals: self.proposals@,
            votes: self.votes@,
            results: payouts_view(self.results@),
        }
    }
}

impl PayoutRunView {
    /// How many votes there are.
    pub open spec fn total(self) -> u64 {
        sum(self.votes) as u64
    }

    /// The stroops of the proposal at a position.
    pub open spec fn amount(self, i: int) -> u64 {
        share(self.pool as u64, self.votes, self.total(), i)
    }

    /// The payout of the proposal at a position, with what became of it.
    pub open spec fn payout(self, i: int, outcome: PayoutOutcome) -> PayoutView {
        PayoutView {
            proposal_id: self.proposals[i].id,
            choice_index: self.proposals[i].choice_index,
            payout_address: self.proposals[i].payout_address@,
            votes: self.votes[i],
            vote_share_bps: share_bps(self.votes[i], self.total()),
            amount_stroops: self.amount(i) as i64,
            status: outcome.status.text(),
            tx_hash: outcome.tx_hash,
            error: outcome.error,
        }
    }

    /// Whether a payout is that of the proposal at a position: one that there was nothing to pay
    /// for, or one whose payment was sent or was not.
    pub open spec fn settles(self, i: int, p: PayoutView) -> bool {
        if self.amount(i) == 0 {
            p == self.payout(i, nothing_due())
        } else {
            exists|sent: Result<Option<Seq<char>>, SorobanErrorView>|
                p == self.payout(i, #[trigger] payment_outcome(sent))
        }
    }

    /// Whether the payouts so far are those of the first proposals, in order.
    pub open spec fn wf(self) -> bool {
        &&& self.pool > 0
        &&& self.votes.len() == self.proposals.len()
        &&& sum(self.votes) <= u64::MAX
        &&& self.results.len() <= self.proposals.len()
        &&& forall|i: int|
            0 <= i < self.results.len() ==> self.settles(i, #[trigger] self.results[i])
    }

    /// Whether every proposal has had its turn.
    pub open spec fn done(self) -> bool {
        self.results.len() >= self.proposals.len()
    }

    /// The position of the proposal whose turn it is.
    pub open spec fn turn(self) -> int {
        self.results.len() as int
    }

    /// The run after what became of the payout whose turn it is.
    pub open spec fn after(self, outcome: PayoutOutcome) -> PayoutRunView {
        PayoutRunView { results: self.results.push(self.payout(self.turn(), outcome)), ..self }
    }
}

/// No proposal gets more than the pool.
pub proof fn amount_within_pool(run: PayoutRunView, i: int)
    requires
        run.wf(),
        0 <= i < run.votes.len(),
    ensures
        run.amount(i) <= run.pool,
        run.amount(i) as i64 == run.amount(i),
{
    if run.total() > 0 {
        split_sums_to_pool(run.pool as u64, run.votes, run.total());
        let all = shares(run.pool as u64, run.votes, run.total());
        entry_within_sum(all, i);
        assert(all[i] == run.amount(i));
    }
}

impl PayoutRun {
    /// Whether the shares are those of the proposals.
    pub closed spec fn has_shares(&self) -> bool {
        &&& self.shares@.len() == self.votes@.len()
        &&& forall|i: int|
            0 <= i < self.shares@.len() ==> (#[trigger] self.shares@[i]) == (
                self@.amount(i),
                share_bps(self.votes@[i], self@.total()),
            )
    }

    /// Whether the run stands as a run does.
    pub open spec fn wf(&self) -> bool {
        self@.wf() && self.has_shares()
    }

    /// Whether every proposal has had its turn.
    pub fn is_done(&self) -> (r: bool)
        ensures
            r == self@.done(),
    {
        self.results.len() >= self.proposals.len()
    }

    /// The payment of the proposal whose turn it is, if there is anything to pay.
    pub fn payment(&self, state: &AppStateInner) -> (r: Option<CliCall>)
        requires
            self.wf(),
            !self@.done(),
        ensures
            match r {
                Some(call) => self@.amount(self@.turn()) > 0 && call@
                    == state.soroban@.payment_call(
                    state.config.treasury_identity@,
                    self@.proposals[self@.turn()].payout_address@,
                    self@.amount(self@.turn()) as i64,
                ),
                None => self@.amount(self@.turn()) == 0,
            },
    {
        let i: usize = self.results.len();
        proof {
            amount_within_pool(self@, i as int);
        }
        assert(self.shares@[i as int].0 == self@.amount(i as int));
        let amount: u64 = self.shares[i].0;
        if amount == 0 {
            return None;
        }
        Some(
            state.soroban.send_payment(
                state.config.treasury_identity.as_str(),
                self.proposals[i].payout_address.as_str(),
                amount as i64,
            ),
        )
    }

    /// Notes what became of the payout whose turn it is.
    fn note(&mut self, status: PayoutStatus, tx_hash: Option<String>, error: Option<String>) -> (r:
        NewPayout)
        requires
            old(self).has_shares(),
            old(self)@.wf(),
            !old(self)@.done(),
        ensures
            final(self).has_shares(),
            final(self)@ == old(self)@.after(
                PayoutOutcome {
                    status,
                    tx_hash: optional_text(tx_hash),
                    error: optional_text(error),
                },
            ),
            records_payout(r, old(self)@.round_id, final(self)@.results.last()),
    {
        let ghost start = *self;
        let i: usize = self.results.len();
        proof {
            amount_within_pool(self@, i as int);
        }
        assert(self.shares@[i as int].0 == self@.amount(i as int));
        let (amount, vote_share_bps) = self.shares[i];
        let amount_stroops: i64 = amount as i64;
        let proposal_id: u128 = self.proposals[i].id;
        let choice_index: i32 = self.proposals[i].choice_index;
        let payout_address = self.proposals[i].payout_address.clone();
        let votes: u64 = self.votes[i];
        let record = NewPayout {
            round_id: self.round_id,
            proposal_id,
            amount_stroops,
            vote_share_bps,
            status: status.as_str().to_owned(),
            payout_tx_hash: copy_optional(&tx_hash),
            error: copy_optional(&error),
        };
        let result = PayoutResult {
            proposal_id,
            choice_index,
            payout_address,
            votes,
            vote_share_bps,
            amount_stroops,
            status: status.as_str().to_owned(),
            tx_hash,
            error,
        };
        let ghost outcome = PayoutOutcome {
            status,
            tx_hash: optional_text(tx_hash),
            error: optional_text(error),
        };
        assert(result@ == start@.payout(i as int, outcome));
        self.results.push(result);
        assert(payouts_view(self.results@) =~= payouts_view(start.results@).push(result@));
        record
    }

    /// Notes that there is nothing to pay for the proposal whose turn it is. Returns what is to be
    /// recorded.
    pub fn settle_nothing(&mut self) -> (r: NewPayout)
        requires
            old(self).wf(),
            !old(self)@.done(),
            old(self)@.amount(old(self)@.turn()) == 0,
        ensures
            final(self).wf(),
            final(self)@ == old(self)@.after(nothing_due()),
            records_payout(r, old(self)@.round_id, final(self)@.results.last()),
    {
        let ghost start = self@;
        let record = self.note(PayoutStatus::Confirmed, None, None);
        proof {
            settled(start, nothing_due());
        }
        record
    }

    /// Notes what became of the payment of the proposal whose turn it is. Returns what is to be
    /// recorded.
    pub fn settle(&mut self, sent: Result<Option<String>, SorobanError>) -> (r: NewPayout)
        requires
            old(self).wf(),
            !old(self)@.done(),
            old(self)@.amount(old(self)@.turn()) > 0,
        ensures
            final(self).wf(),
            final(self)@ == old(self)@.after(payment_outcome(sent_view(sent))),
            records_payout(r, old(self)@.round_id, final(self)@.results.last()),
    {
        let ghost start = self@;
        let ghost outcome = payment_outcome(sent_view(sent));
        let record = match sent {
            Ok(tx_hash) => self.note(PayoutStatus::Submitted, tx_hash, None),
            Err(e) => self.note(PayoutStatus::Failed, None, Some(e.message())),
        };
        proof {
            settled(start, outcome);
        }
        record
    }

    /// Notes what became of the payment of the proposal whose turn it is, from what the system
    /// returned of the call. Returns what is to be recorded.
    pub fn settle_output(&mut self, state: &AppStateInner, output: Result<ProcessOutput, String>) -> (r:
        NewPayout)
        requires
            old(self).wf(),
            !old(self)@.done(),
            old(self)@.amount(old(self)@.turn()) > 0,
        ensures
            payment_output_is_read(state.soroban@.cli_path, output),
            final(self).wf(),
            final(self)@ == old(self)@.after(
                payment_outcome(payment_result(state.soroban@.cli_path, output)),
            ),
            records_payout(r, old(self)@.round_id, final(self)@.results.last()),
    {
        let sent = state.soroban.payment_sent(output);
        assert(sent_view(sent) == payment_result(state.soroban@.cli_path, output));
        self.settle(sent)
    }

    /// The answer: every proposal with its payout.
    pub fn response(self) -> (r: ExecutePayoutsResponse)
        requires
            self@.done(),
        ensures
            r.round_id == self@.round_id,
            r.payout_pool_stroops == self@.pool,
            payouts_view(r.payouts@) == self@.results,
    {
        ExecutePayoutsResponse {
            round_id: self.round_id,
            payout_pool_stroops: self.pool,
            payouts: self.results,
        }
    }
}

impl UnpaidRound {
    /// Splits the pool of the round across its proposals in proportion to their share of the votes
    /// that the chain counts.
    pub fn split(self, proposals: Vec<ProposalRow>, votes: &Vec<u64>) -> (r: PayoutRun)
        requires
            countable(proposals@, votes@),
        ensures
            r.wf(),
            r@ == (PayoutRunView {
                round_id: self.id(),
                pool: self.pool(),
                proposals: proposals@,
                votes: proposal_votes(proposals@, votes@),
                results: Seq::empty(),
            }),
    {
        proof {
            use_type_invariant(&self);
        }
        let pool: i64 = self.pool;
        let counts = count_proposals(&proposals, votes);
        let total_votes: u64 = match checked_sum(&counts) {
            Some(n) => n,
            None => 0,
        };
        proof {
            true_total_is_splittable(pool as u64, counts@, total_votes);
        }
        let shares = allocate_stroops(pool as u64, counts.as_slice(), total_votes);
        let results: Vec<PayoutResult> = Vec::new();
        assert(payouts_view(results@) =~= Seq::empty());
        PayoutRun { round_id: self.round_id, pool, proposals, votes: counts, shares, results }
    }
}

/// The view of what became of a payment.
pub open spec fn sent_view(sent: Result<Option<String>, SorobanError>) -> Result<
    Option<Seq<char>>,
    SorobanErrorView,
> {
    match sent {
        Ok(tx_hash) => Ok(optional_text(tx_hash)),
        Err(e) => Err(e@),
    }
}

/// What became of a payment, from what the system returned of the call.
pub open spec fn payment_result(cli: Seq<char>, output: Result<ProcessOutput, String>) -> Result<
    Option<Seq<char>>,
    SorobanErrorView,
> {
    match run_result(cli, output) {
        Ok((stdout, stderr)) => Ok(captured(TX_HASH_PATTERN@, stderr)),
        Err(e) => Err(e),
    }
}

/// A run stands as a run does after the payout whose turn it is.
proof fn settled(run: PayoutRunView, outcome: PayoutOutcome)
    requires
        run.wf(),
        !run.done(),
        if run.amount(run.turn()) == 0 {
            outcome == nothing_due()
        } else {
            exists|sent: Result<Option<Seq<char>>, SorobanErrorView>|
                outcome == #[trigger] payment_outcome(sent)
        },
    ensures
        run.after(outcome).wf(),
{
    let next = run.after(outcome);
    assert forall|i: int| 0 <= i < next.results.len() implies next.settles(
        i,
        #[trigger] next.results[i],
    ) by {
        if i < run.results.len() {
            assert(run.settles(i, run.results[i]));
            assert(next.amount(i) == run.amount(i));
            if run.amount(i) != 0 {
                let sent = choose|sent: Result<Option<Seq<char>>, SorobanErrorView>|
                    run.results[i] == run.payout(i, #[trigger] payment_outcome(sent));
                assert(next.results[i] == next.payout(i, payment_outcome(sent)));
            }
        } else {
            assert(next.results[i] == run.payout(i, outcome));
            assert(next.payout(i, outcome) == run.payout(i, outcome));
        }
    }
}

// ---------------------------------------------------------------------
// Laws of the payouts
// ---------------------------------------------------------------------
/// The stroops of payouts.
pub open spec fn paid(results: Seq<PayoutView>) -> int
    decreases results.len(),
{
    if results.len() == 0 {
        0
    } else {
        paid(results.drop_last()) + results.last().amount_stroops
    }
}

/// The stroops of the payouts so far are the first shares.
proof fn paid_so_far(run: PayoutRunView, n: int)
    requires
        run.wf(),
        0 <= n <= run.results.len(),
    ensures
        paid(run.results.take(n)) == sum(
            shares(run.pool as u64, run.votes, run.total()).take(n),
        ),
    decreases n,
{
    let all = shares(run.pool as u64, run.votes, run.total());
    if n > 0 {
        paid_so_far(run, n - 1);
        assert(run.results.take(n).drop_last() =~= run.results.take(n - 1));
        assert(all.take(n).drop_last() =~= all.take(n - 1));
        assert(run.settles(n - 1, run.results[n - 1]));
        amount_within_pool(run, n - 1);
        assert(all.take(n).last() == run.amount(n - 1));
    }
}

/// Once every proposal has had its turn, the payouts sum to exactly the pool, wherever anyone has
/// voted; where nobody has, nothing is paid.
pub proof fn payouts_sum_to_pool(run: PayoutRunView)
    requires
        run.wf(),
        run.done(),
    ensures
        sum(run.votes) > 0 ==> paid(run.results) == run.pool,
        sum(run.votes) == 0 ==> paid(run.results) == 0,
{
    let all = shares(run.pool as u64, run.votes, run.total());
    let n = run.results.len() as int;
    paid_so_far(run, n);
    assert(run.results.take(n) =~= run.results);
    assert(all.take(n) =~= all);
    if sum(run.votes) > 0 {
        split_sums_to_pool(run.pool as u64, run.votes, run.total());
    } else {
        assert forall|i: int| 0 <= i < all.len() implies all[i] == 0 by {}
        zeros_sum(all);
    }
}

/// Zeros sum to zero.
proof fn zeros_sum(s: Seq<u64>)
    requires
        forall|i: int| 0 <= i < s.len() ==> s[i] == 0,
    ensures
        sum(s) == 0,
    decreases s.len(),
{
    if s.len() > 0 {
        zeros_sum(s.drop_last());
    }
}

/// A payout is confirmed without a payment just where its proposal's share is zero; the others are
/// submitted, or failed with an error and without a transaction.
pub proof fn only_shares_are_paid(run: PayoutRunView, i: int)
    requires
        run.wf(),
        0 <= i < run.results.len(),
    ensures
        run.results[i].proposal_id == run.proposals[i].id,
        run.results[i].payout_address == run.proposals[i].payout_address@,
        run.results[i].amount_stroops == run.amount(i),
        run.results[i].amount_stroops == 0 <==> run.results[i].status
            == PayoutStatus::Confirmed.text(),
        run.results[i].error is Some <==> run.results[i].status == PayoutStatus::Failed.text(),
        run.results[i].tx_hash is Some ==> run.results[i].status == PayoutStatus::Submitted.text(),
{
    assert(run.settles(i, run.results[i]));
    amount_within_pool(run, i);
    reveal_strlit("confirmed");
    reveal_strlit("submitted");
    reveal_strlit("failed");
    assert("confirmed"@[0] != "submitted"@[0]);
    assert("confirmed"@[0] != "failed"@[0]);
    assert("submitted"@[0] != "failed"@[0]);
}

/// A proposal that nobody voted for is paid nothing.
pub proof fn unvoted_is_unpaid(run: PayoutRunView, i: int)
    requires
        run.wf(),
        0 <= i < run.results.len(),
        run.results[i].votes == 0,
    ensures
        run.results[i].amount_stroops == 0,
        run.results[i].vote_share_bps == 0,
{
    assert(run.settles(i, run.results[i]));
    no_votes_no_payout(run.pool as u64, run.votes, run.total(), i);
}

/// Once a payout of a round is recorded, payouts are not executed for it again: the answer is 409.
pub proof fn second_execution_is_refused(run: PayoutRunView, already: i64)
    requires
        run.results.len() > 0,
        already >= run.results.len(),
    ensures
        repeat_refusal(run.round_id, Ok(already)) matches Some(refusal) && refusal.status() == 409,
{
}

/// Registration, voting and payouts exclude each other: in every phase of a round at most one of
/// them is open, and a change of phase closes the one before.
pub proof fn phases_exclude_each_other(
    round: RoundRow,
    round_id: i64,
    ballot: CastVoteRequest,
)
    ensures
        ({
            let found = Ok::<Option<RoundRow>, String>(Some(round));
            let registers = registration_refusal(found, round_id) is None;
            let votes = vote_refusal(found, ballot) is None;
            let pays = payout_refusal(found, round_id) is None;
            &&& round.phase@ == registration_phase() ==> registers && !votes
                && !pays
            &&& round.phase@ == voting_phase() ==> !registers && !pays
            &&& round.phase@ == finalized_phase() ==> !registers && !votes
            &&& !(registers && votes) && !(votes && pays) && !(registers && pays)
        }),
{
    reveal_strlit("registration");
    reveal_strlit("voting");
    reveal_strlit("finalized");
    assert("registration"@[0] != "voting"@[0]);
    assert("voting"@[0] != "finalized"@[0]);
    assert("registration"@[0] != "finalized"@[0]);
}

/// Payouts follow the tally: each is made for the votes that the tally shows for its choice, out of
/// the tally's total.
pub proof fn payouts_follow_the_tally(
    run: PayoutRunView,
    tally: TallyResponse,
    phase: Seq<char>,
    registered_count: u32,
    votes: Seq<u64>,
    i: int,
)
    requires
        run.wf(),
        run.votes == proposal_votes(run.proposals, votes),
        is_tally_of(tally, run.round_id, phase, registered_count, run.proposals, votes),
        0 <= i < run.results.len(),
    ensures
        run.total() == tally.total_votes,
        run.results[i].choice_index == tally.choices@[i].choice_index,
        run.results[i].payout_address == tally.choices@[i].payout_address@,
        run.results[i].votes == tally.choices@[i].votes,
        run.results[i].vote_share_bps == share_bps(tally.choices@[i].votes, tally.total_votes),
{
    assert(run.settles(i, run.results[i]));
    assert(tallies(tally.choices@[i], run.proposals[i], votes));
}

} // verus!
