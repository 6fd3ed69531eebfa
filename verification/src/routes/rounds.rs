//! `POST /rounds`, `GET /rounds/{id}`, `POST /rounds/{id}/eligibility`, `POST /rounds/{id}/open`,
//! `POST /rounds/{id}/finalize` and `GET /rounds/{id}/tally`.
use crate::decimal::{i64_text, integer_text};
use crate::error::{AppError, AppErrorView};
use crate::json::{json_u64, json_u64_list, json_unit};
use crate::models::{
    ChoiceTally, CreateRoundRequest, CreateRoundResponse, EligibilityFailure, OnChainRound,
    ProposalRow, RoundRow, SetEligibilityRequest, SetEligibilityResponse, TallyResponse,
};
use crate::routes::allocation::{entry_within_sum, sum, sum_of_prefix};
use crate::soroban_client::{
    addr, args_view, bool_, bool_text, decoding, invoked, list_output_is_read,
    number_output_is_read, run_result, text, u32_, u64_, unit_output_is_read, Arg, CliCall,
    CliCallView, Invoked, ProcessOutput, SorobanClientView, SorobanError, SorobanErrorView,
};
use crate::state::AppStateInner;
use crate::text::{copy_optional, copy_texts, optional_text, texts, trimmed};
use vstd::prelude::*;
use vstd::string::*;

verus! {

// ---------------------------------------------------------------------
// Rounds in the database and on the chain
// ---------------------------------------------------------------------
/// The number of a round on the chain, from its number in the database.
pub open spec fn chain_id(round_id: i64) -> u64 {
    round_id as u64
}

/// The number of a round in the database, from its number on the chain.
pub open spec fn row_id(round_id: u64) -> i64 {
    round_id as i64
}

/// The number under which a round is recorded is the number by which it is found again on the
/// chain, and the other way round.
pub proof fn recorded_id_names_the_round(on_chain: u64, recorded: i64)
    ensures
        chain_id(row_id(on_chain)) == on_chain,
        row_id(chain_id(recorded)) == recorded,
{
    assert((on_chain as i64) as u64 == on_chain) by (bit_vector);
    assert((recorded as u64) as i64 == recorded) by (bit_vector);
}

/// What a missing round is called.
pub open spec fn round_name(round_id: i64) -> Seq<char> {
    "round "@ + integer_text(round_id as int)
}

/// What a missing round is called.
pub fn name_round(round_id: i64) -> (r: String)
    ensures
        r@ == round_name(round_id),
{
    let mut out = "round ".to_owned();
    out.append(i64_text(round_id).as_str());
    out
}

/// Why a round is not there: the database says so, or it has no such row.
pub open spec fn missing_round(round_id: i64, found: Result<Option<RoundRow>, String>) -> Option<
    AppErrorView,
> {
    match found {
        Err(e) => Some(AppErrorView::Db(e@)),
        Ok(None) => Some(AppErrorView::NotFound(round_name(round_id))),
        Ok(Some(_)) => None,
    }
}

/// The round that the database returned for `round_id`, if it returned one.
pub fn fetch_round(round_id: i64, found: Result<Option<RoundRow>, String>) -> (r: Result<
    RoundRow,
    AppError,
>)
    ensures
        match r {
            Ok(round) => found == Ok::<Option<RoundRow>, String>(Some(round)),
            Err(e) => missing_round(round_id, found) == Some(e@),
        },
{
    match found {
        Err(e) => Err(AppError::Db(e)),
        Ok(None) => Err(AppError::NotFound(name_round(round_id))),
        Ok(Some(round)) => Ok(round),
    }
}

/// The proposals that the database returned, if it returned any.
pub fn fetch_proposals(found: Result<Vec<ProposalRow>, String>) -> (r: Result<
    Vec<ProposalRow>,
    AppError,
>)
    ensures
        match r {
            Ok(proposals) => found == Ok::<Vec<ProposalRow>, String>(proposals),
            Err(e) => found matches Err(m) && e@ == AppErrorView::Db(m@),
        },
{
    match found {
        Err(e) => Err(AppError::Db(e)),
        Ok(proposals) => Ok(proposals),
    }
}

/// The one argument of most calls.
pub open spec fn round_args(round_id: i64) -> Seq<(Seq<char>, Seq<char>)> {
    seq![("round_id"@, integer_text(chain_id(round_id) as int))]
}

/// The one argument of most calls.
fn args_for(round_id: i64) -> (r: Vec<Arg>)
    ensures
        args_view(r@) == round_args(round_id),
{
    let id: u64 = #[verifier::truncate] (round_id as u64);
    let mut args: Vec<Arg> = Vec::new();
    args.push(u64_("round_id", id));
    assert(args_view(args@) =~= round_args(round_id));
    args
}

/// The call that reads a round from the chain.
pub fn read_round(state: &AppStateInner, round_id: i64) -> (r: CliCall)
    ensures
        r@ == state.soroban@.read_call("get_round"@, round_args(round_id)),
{
    state.soroban.read("get_round", args_for(round_id).as_slice())
}

/// The call that reads the votes of a round from the chain.
pub fn read_tally(state: &AppStateInner, round_id: i64) -> (r: CliCall)
    ensures
        r@ == state.soroban@.read_call("tally"@, round_args(round_id)),
{
    state.soroban.read("tally", args_for(round_id).as_slice())
}

// ---------------------------------------------------------------------
// POST /rounds
// ---------------------------------------------------------------------
/// Why a round is not created, if it is not: it has no proposals, or a pool below zero.
pub open spec fn round_refusal(req: CreateRoundRequest) -> Option<AppErrorView> {
    if req.proposals@.len() == 0 {
        Some(AppErrorView::BadRequest("at least one proposal is required"@))
    } else if req.payout_pool_stroops < 0 {
        Some(AppErrorView::BadRequest("payout_pool_stroops must not be negative"@))
    } else {
        None
    }
}

/// How many choices a round has: one for each proposal, in 32 bits.
pub open spec fn choices_of(req: CreateRoundRequest) -> u32 {
    req.proposals@.len() as u32
}

/// The call that creates a round.
pub open spec fn create_call(
    client: SorobanClientView,
    operator_address: Seq<char>,
    req: CreateRoundRequest,
) -> CliCallView {
    client.invoke_call(
        "create_round"@,
        seq![
            ("admin"@, operator_address),
            ("title"@, req.title@),
            ("num_choices"@, integer_text(choices_of(req) as int)),
        ],
    )
}

/// Creates a round on the chain, with this backend's operator as its admin.
pub fn create_round(state: &AppStateInner, req: &CreateRoundRequest) -> (r: Result<
    CliCall,
    AppError,
>)
    ensures
        match r {
            Ok(call) => round_refusal(*req) is None && call@ == create_call(
                state.soroban@,
                state.operator_address@,
                *req,
            ),
            Err(e) => round_refusal(*req) == Some(e@),
        },
{
    if req.proposals.len() == 0 {
        return Err(AppError::BadRequest("at least one proposal is required".to_owned()));
    }
    if req.payout_pool_stroops < 0 {
        return Err(AppError::BadRequest("payout_pool_stroops must not be negative".to_owned()));
    }
    let num_choices: u32 = #[verifier::truncate] (req.proposals.len() as u32);
    let mut args: Vec<Arg> = Vec::new();
    args.push(addr("admin", state.operator_address.as_str()));
    args.push(text("title", req.title.as_str()));
    args.push(u32_("num_choices", num_choices));
    assert(args_view(args@) =~= seq![
        ("admin"@, state.operator_address@),
        ("title"@, req.title@),
        ("num_choices"@, integer_text(choices_of(*req) as int)),
    ]);
    Ok(state.soroban.invoke_as_operator("create_round", args.as_slice()))
}

/// A round to record.
#[derive(Debug)]
pub struct NewRound {
    pub id: i64,
    pub contract_id: String,
    pub admin: String,
    pub title: String,
    pub num_choices: i32,
    pub payout_pool_stroops: i64,
    pub create_round_tx_hash: Option<String>,
}

/// A proposal to record.
#[derive(Debug)]
pub struct NewProposal {
    pub round_id: i64,
    pub choice_index: i32,
    pub title: String,
    pub description: Option<String>,
    pub payout_address: String,
}

/// A round with its proposals, to record in one transaction.
#[derive(Debug)]
pub struct RoundRecord {
    pub round: NewRound,
    pub proposals: Vec<NewProposal>,
}

/// Whether a proposal is recorded as it was requested, under its position.
pub open spec fn records_proposal(
    p: NewProposal,
    req: CreateRoundRequest,
    round_id: u64,
    i: int,
) -> bool {
    &&& p.round_id == row_id(round_id)
    &&& p.choice_index == i as i32
    &&& p.title@ == req.proposals@[i].title@
    &&& optional_text(p.description) == optional_text(req.proposals@[i].description)
    &&& p.payout_address@ == req.proposals@[i].payout_address@
}

/// Whether a round is recorded as it was requested and created: under its number on the chain,
/// with the transaction that created it and with every proposal in its place.
pub open spec fn records_round(
    record: RoundRecord,
    contract_id: Seq<char>,
    operator_address: Seq<char>,
    req: CreateRoundRequest,
    round_id: u64,
    tx_hash: Option<Seq<char>>,
) -> bool {
    &&& record.round.id == row_id(round_id)
    &&& record.round.contract_id@ == contract_id
    &&& record.round.admin@ == operator_address
    &&& record.round.title@ == req.title@
    &&& record.round.num_choices == choices_of(req) as i32
    &&& record.round.payout_pool_stroops == req.payout_pool_stroops
    &&& optional_text(record.round.create_round_tx_hash) == tx_hash
    &&& record.proposals@.len() == req.proposals@.len()
    &&& forall|i: int|
        0 <= i < record.proposals@.len() ==> records_proposal(
            #[trigger] record.proposals@[i],
            req,
            round_id,
            i,
        )
}

/// What is recorded of a round that the contract created as `round_id`.
pub fn round_record(
    state: &AppStateInner,
    req: &CreateRoundRequest,
    round_id: u64,
    tx_hash: Option<String>,
) -> (r: RoundRecord)
    ensures
        records_round(
            r,
            state.config.contract_id@,
            state.operator_address@,
            *req,
            round_id,
            optional_text(tx_hash),
        ),
{
    let id: i64 = #[verifier::truncate] (round_id as i64);
    let num_choices: u32 = #[verifier::truncate] (req.proposals.len() as u32);
    let mut proposals: Vec<NewProposal> = Vec::new();
    let mut i: usize = 0;
    while i < req.proposals.len()
        invariant
            i <= req.proposals@.len(),
            id == row_id(round_id),
            proposals@.len() == i,
            forall|j: int|
                0 <= j < i ==> records_proposal(#[trigger] proposals@[j], *req, round_id, j),
        decreases req.proposals@.len() - i,
    {
        let p = &req.proposals[i];
        proposals.push(
            NewProposal {
                round_id: id,
                choice_index: #[verifier::truncate] (i as i32),
                title: p.title.clone(),
                description: copy_optional(&p.description),
                payout_address: p.payout_address.clone(),
            },
        );
        i = i + 1;
    }
    RoundRecord {
        round: NewRound {
            id,
            contract_id: state.config.contract_id.clone(),
            admin: state.operator_address.clone(),
            title: req.title.clone(),
            num_choices: #[verifier::truncate] (num_choices as i32),
            payout_pool_stroops: req.payout_pool_stroops,
            create_round_tx_hash: tx_hash,
        },
        proposals,
    }
}

/// What is recorded of a round, from what the system returned of the call that created it.
pub fn round_created(
    state: &AppStateInner,
    req: &CreateRoundRequest,
    output: Result<ProcessOutput, String>,
) -> (r: Result<RoundRecord, AppError>)
    ensures
        number_output_is_read(state.soroban@.cli_path, output),
        match invoked(run_result(state.soroban@.cli_path, output), |s: Seq<char>| json_u64(s)) {
            Ok((round_id, tx_hash)) => r matches Ok(record) && records_round(
                record,
                state.config.contract_id@,
                state.operator_address@,
                *req,
                round_id,
                tx_hash,
            ),
            Err(e) => r matches Err(f) && f@ == AppErrorView::Soroban(e),
        },
{
    match state.soroban.invoked_u64(output) {
        Err(e) => Err(AppError::Soroban(e)),
        Ok(created) => Ok(round_record(state, req, created.value, created.tx_hash)),
    }
}

/// The position of a proposal is the choice that stands for it: the choices of a round that was
/// recorded are the numbers from zero on, each for one proposal, and all of them can be voted for.
pub proof fn position_is_choice(
    record: RoundRecord,
    contract_id: Seq<char>,
    operator_address: Seq<char>,
    req: CreateRoundRequest,
    round_id: u64,
    tx_hash: Option<Seq<char>>,
    i: int,
)
    requires
        records_round(record, contract_id, operator_address, req, round_id, tx_hash),
        req.proposals@.len() <= i32::MAX,
        0 <= i < req.proposals@.len(),
    ensures
        record.proposals@[i].choice_index == i,
        record.proposals@[i].title@ == req.proposals@[i].title@,
        record.proposals@[i].payout_address@ == req.proposals@[i].payout_address@,
        choices_of(req) == req.proposals@.len(),
        record.round.num_choices == req.proposals@.len(),
        record.proposals@[i].round_id == record.round.id,
{
    assert(records_proposal(record.proposals@[i], req, round_id, i));
}

/// The round that was created, as the database returned it.
pub fn created(round: RoundRow, proposals: Vec<ProposalRow>) -> (r: CreateRoundResponse)
    ensures
        r.round == round,
        r.proposals == proposals,
{
    CreateRoundResponse { round, proposals }
}

// ---------------------------------------------------------------------
// GET /rounds/{id}
// ---------------------------------------------------------------------
/// A round and its proposals, from what the database returned for the one and the others.
pub fn get_round(
    round_id: i64,
    found: Result<Option<RoundRow>, String>,
    proposals: Result<Vec<ProposalRow>, String>,
) -> (r: Result<CreateRoundResponse, AppError>)
    ensures
        match missing_round(round_id, found) {
            Some(refusal) => r matches Err(e) && e@ == refusal,
            None => match proposals {
                Ok(rows) => r matches Ok(response) && found == Ok::<Option<RoundRow>, String>(
                    Some(response.round),
                ) && response.proposals == rows,
                Err(m) => r matches Err(e) && e@ == AppErrorView::Db(m@),
            },
        },
{
    match fetch_round(round_id, found) {
        Err(e) => Err(e),
        Ok(round) => match fetch_proposals(proposals) {
            Err(e) => Err(e),
            Ok(rows) => Ok(CreateRoundResponse { round, proposals: rows }),
        },
    }
}

// ---------------------------------------------------------------------
// POST /rounds/{id}/eligibility
// ---------------------------------------------------------------------
/// The marking of voters as eligible or not, one after the other.
#[derive(Debug)]
pub struct EligibilityRun {
    round_id: i64,
    eligible: bool,
    voters: Vec<String>,
    /// For each voter so far, what went wrong.
    outcomes: Vec<Option<String>>,
}

/// An `EligibilityRun` with its texts as characters.
pub struct EligibilityRunView {
    pub round_id: i64,
    pub eligible: bool,
    pub voters: Seq<Seq<char>>,
    pub outcomes: Seq<Option<Seq<char>>>,
}

/// The views of texts that may be absent.
pub open spec fn optional_texts(v: Seq<Option<String>>) -> Seq<Option<Seq<char>>> {
    v.map_values(|s: Option<String>| optional_text(s))
}

impl View for EligibilityRun {
    type V = EligibilityRunView;

    closed spec fn view(&self) -> EligibilityRunView {
        EligibilityRunView {
            round_id: self.round_id,
            eligible: self.eligible,
            voters: texts(self.voters@),
            outcomes: optional_texts(self.outcomes@),
        }
    }
}

impl EligibilityRunView {
    /// Whether the run has not gone past its voters.
    pub open spec fn wf(self) -> bool {
        self.outcomes.len() <= self.voters.len()
    }

    /// Whether every voter has had their turn.
    pub open spec fn done(self) -> bool {
        self.outcomes.len() >= self.voters.len()
    }

    /// The run after one more outcome.
    pub open spec fn after(self, outcome: Option<Seq<char>>) -> EligibilityRunView {
        EligibilityRunView { outcomes: self.outcomes.push(outcome), ..self }
    }
}

/// The voters without an error, in order.
pub open spec fn updated_voters(
    voters: Seq<Seq<char>>,
    outcomes: Seq<Option<Seq<char>>>,
) -> Seq<Seq<char>>
    decreases outcomes.len(),
{
    if outcomes.len() == 0 {
        Seq::empty()
    } else {
        let before = updated_voters(voters, outcomes.drop_last());
        if outcomes.last() is None {
            before.push(voters[outcomes.len() - 1])
        } else {
            before
        }
    }
}

/// The voters with an error and what it says, in order.
pub open spec fn failed_voters(
    voters: Seq<Seq<char>>,
    outcomes: Seq<Option<Seq<char>>>,
) -> Seq<(Seq<char>, Seq<char>)>
    decreases outcomes.len(),
{
    if outcomes.len() == 0 {
        Seq::empty()
    } else {
        let before = failed_voters(voters, outcomes.drop_last());
        match outcomes.last() {
            Some(error) => before.push((voters[outcomes.len() - 1], error)),
            None => before,
        }
    }
}

/// The views of failures.
pub open spec fn failures_view(v: Seq<EligibilityFailure>) -> Seq<(Seq<char>, Seq<char>)> {
    v.map_values(|f: EligibilityFailure| (f.voter@, f.error@))
}

/// What went wrong with a voter, if anything did.
pub open spec fn eligibility_outcome(result: Result<(), SorobanErrorView>) -> Option<Seq<char>> {
    match result {
        Ok(_) => None,
        Err(e) => Some(e.text()),
    }
}

/// What became of a call that returns nothing.
pub open spec fn unit_result(
    cli: Seq<char>,
    output: Result<ProcessOutput, String>,
) -> Result<(), SorobanErrorView> {
    match invoked(run_result(cli, output), |s: Seq<char>| json_unit(s)) {
        Ok(_) => Ok(()),
        Err(e) => Err(e),
    }
}

/// Marks each of `voters` eligible (or ineligible) to register, where the round is there.
pub fn set_eligibility(
    round_id: i64,
    found: Result<Option<RoundRow>, String>,
    req: &SetEligibilityRequest,
) -> (r: Result<EligibilityRun, AppError>)
    ensures
        match r {
            Ok(run) => missing_round(round_id, found) is None && run@ == (EligibilityRunView {
                round_id,
                eligible: req.eligible,
                voters: texts(req.voters@),
                outcomes: Seq::empty(),
            }),
            Err(e) => missing_round(round_id, found) == Some(e@),
        },
{
    match fetch_round(round_id, found) {
        Err(e) => Err(e),
        Ok(_) => {
            let outcomes: Vec<Option<String>> = Vec::new();
            assert(optional_texts(outcomes@) =~= Seq::empty());
            Ok(
                EligibilityRun {
                    round_id,
                    eligible: req.eligible,
                    voters: copy_texts(&req.voters),
                    outcomes,
                },
            )
        },
    }
}

impl EligibilityRun {
    /// The call for the voter whose turn it is, if there is one.
    pub fn next_call(&self, state: &AppStateInner) -> (r: Option<CliCall>)
        ensures
            match r {
                Some(call) => !self@.done() && call@ == state.soroban@.invoke_call(
                    "set_eligible"@,
                    round_args(self@.round_id) + seq![
                        ("voter"@, self@.voters[self@.outcomes.len() as int]),
                        ("eligible"@, bool_text(self@.eligible)),
                    ],
                ),
                None => self@.done(),
            },
    {
        let i: usize = self.outcomes.len();
        if i >= self.voters.len() {
            return None;
        }
        let mut args = args_for(self.round_id);
        args.push(addr("voter", self.voters[i].as_str()));
        args.push(bool_("eligible", self.eligible));
        assert(args_view(args@) =~= round_args(self.round_id) + seq![
            ("voter"@, self.voters@[i as int]@),
            ("eligible"@, bool_text(self.eligible)),
        ]);
        Some(state.soroban.invoke_as_operator("set_eligible", args.as_slice()))
    }

    /// Notes what became of the voter whose turn it is.
    pub fn record(&mut self, result: Result<(), SorobanError>)
        requires
            !old(self)@.done(),
        ensures
            final(self)@ == old(self)@.after(
                eligibility_outcome(
                    match result {
                        Ok(u) => Ok(u),
                        Err(e) => Err(e@),
                    },
                ),
            ),
            final(self)@.wf(),
    {
        let ghost before = self.outcomes@;
        match result {
            Ok(_) => self.outcomes.push(None),
            Err(e) => self.outcomes.push(Some(e.message())),
        }
        assert(optional_texts(self.outcomes@) =~= optional_texts(before).push(
            optional_text(self.outcomes@.last()),
        ));
    }

    /// Notes what became of the voter whose turn it is, from what the system returned of the call.
    pub fn record_output(&mut self, state: &AppStateInner, output: Result<ProcessOutput, String>)
        requires
            !old(self)@.done(),
        ensures
            unit_output_is_read(state.soroban@.cli_path, output),
            final(self)@ == old(self)@.after(
                eligibility_outcome(unit_result(state.soroban@.cli_path, output)),
            ),
            final(self)@.wf(),
    {
        match state.soroban.invoked_unit(output) {
            Ok(_) => self.record(Ok(())),
            Err(e) => self.record(Err(e)),
        }
    }

    /// The answer: who was updated and who was not.
    pub fn response(self) -> (r: SetEligibilityResponse)
        requires
            self@.outcomes.len() == self@.voters.len(),
        ensures
            r.round_id == self@.round_id,
            texts(r.updated@) == updated_voters(self@.voters, self@.outcomes),
            failures_view(r.failed@) == failed_voters(self@.voters, self@.outcomes),
    {
        let ghost voters = self@.voters;
        let ghost outcomes = self@.outcomes;
        let mut updated: Vec<String> = Vec::new();
        let mut failed: Vec<EligibilityFailure> = Vec::new();
        let mut i: usize = 0;
        assert(outcomes.take(0) =~= Seq::empty());
        while i < self.outcomes.len()
            invariant
                i <= self.outcomes@.len() <= self.voters@.len(),
                voters == texts(self.voters@),
                outcomes == optional_texts(self.outcomes@),
                texts(updated@) == updated_voters(voters, outcomes.take(i as int)),
                failures_view(failed@) == failed_voters(voters, outcomes.take(i as int)),
            decreases self.outcomes@.len() - i,
        {
            let ghost done = outcomes.take(i + 1);
            let ghost updated_before = updated@;
            let ghost failed_before = failed@;
            assert(done.drop_last() =~= outcomes.take(i as int));
            assert(done.last() == optional_text(self.outcomes@[i as int]));
            match &self.outcomes[i] {
                None => {
                    updated.push(self.voters[i].clone());
                    assert(texts(updated@) =~= texts(updated_before).push(voters[i as int]));
                },
                Some(error) => {
                    failed.push(
                        EligibilityFailure { voter: self.voters[i].clone(), error: error.clone() },
                    );
                    assert(failures_view(failed@) =~= failures_view(failed_before).push(
                        (voters[i as int], error@),
                    ));
                },
            }
            i = i + 1;
        }
        assert(outcomes.take(self.outcomes@.len() as int) =~= outcomes);
        SetEligibilityResponse { round_id: self.round_id, updated, failed }
    }
}

/// The names of the voters with an error.
pub open spec fn names_of(failed: Seq<(Seq<char>, Seq<char>)>) -> Seq<Seq<char>> {
    failed.map_values(|f: (Seq<char>, Seq<char>)| f.0)
}

/// Every voter of a run is named once in its answer for each time that they were asked for: among
/// the updated or among the failed.
pub proof fn every_voter_is_answered(voters: Seq<Seq<char>>, outcomes: Seq<Option<Seq<char>>>)
    requires
        outcomes.len() <= voters.len(),
    ensures
        updated_voters(voters, outcomes).len() + failed_voters(voters, outcomes).len()
            == outcomes.len(),
        updated_voters(voters, outcomes).to_multiset().add(
            names_of(failed_voters(voters, outcomes)).to_multiset(),
        ) == voters.take(outcomes.len() as int).to_multiset(),
    decreases outcomes.len(),
{
    broadcast use vstd::seq_lib::group_to_multiset_ensures;
    broadcast use vstd::multiset::group_multiset_axioms;

    let n = outcomes.len() as int;
    if n == 0 {
        assert(names_of(failed_voters(voters, outcomes)) =~= Seq::empty());
        assert(voters.take(0) =~= Seq::empty());
        assert(updated_voters(voters, outcomes).to_multiset().add(
            names_of(failed_voters(voters, outcomes)).to_multiset(),
        ) =~= voters.take(0).to_multiset());
    } else {
        let before = outcomes.drop_last();
        every_voter_is_answered(voters, before);
        let updated = updated_voters(voters, before);
        let failed = failed_voters(voters, before);
        assert(voters.take(n) =~= voters.take(n - 1).push(voters[n - 1]));
        match outcomes.last() {
            None => {
                assert(updated.push(voters[n - 1]).to_multiset().add(
                    names_of(failed).to_multiset(),
                ) =~= voters.take(n).to_multiset());
            },
            Some(error) => {
                let more = failed.push((voters[n - 1], error));
                assert(names_of(more) =~= names_of(failed).push(voters[n - 1]));
                assert(updated.to_multiset().add(names_of(more).to_multiset())
                    =~= voters.take(n).to_multiset());
            },
        }
    }
}

// ---------------------------------------------------------------------
// POST /rounds/{id}/open
// ---------------------------------------------------------------------
/// The phase in which ballots are taken.
pub open spec fn voting_phase() -> Seq<char> {
    "voting"@
}

/// The phase in which a round is settled.
pub open spec fn finalized_phase() -> Seq<char> {
    "finalized"@
}

/// The phase in which voters register.
pub open spec fn registration_phase() -> Seq<char> {
    "registration"@
}

/// A new phase of a round, to record with the time.
#[derive(Debug)]
pub struct PhaseChange {
    pub round_id: i64,
    pub phase: String,
}

/// Closes registration and opens voting.
pub fn open_voting(state: &AppStateInner, round_id: i64) -> (r: CliCall)
    ensures
        r@ == state.soroban@.invoke_call("open_voting"@, round_args(round_id)),
{
    state.soroban.invoke_as_operator("open_voting", args_for(round_id).as_slice())
}

/// The phase of a round after the call that opens voting.
pub fn voting_opened(
    state: &AppStateInner,
    round_id: i64,
    output: Result<ProcessOutput, String>,
) -> (r: Result<PhaseChange, AppError>)
    ensures
        unit_output_is_read(state.soroban@.cli_path, output),
        match unit_result(state.soroban@.cli_path, output) {
            Ok(_) => r matches Ok(change) && change.round_id == round_id && change.phase@
                == voting_phase(),
            Err(e) => r matches Err(f) && f@ == AppErrorView::Soroban(e),
        },
{
    match state.soroban.invoked_unit(output) {
        Err(e) => Err(AppError::Soroban(e)),
        Ok(_) => Ok(opened(round_id)),
    }
}

/// The phase of a round once voting is open.
pub fn opened(round_id: i64) -> (r: PhaseChange)
    ensures
        r.round_id == round_id,
        r.phase@ == voting_phase(),
{
    PhaseChange { round_id, phase: "voting".to_owned() }
}

// ---------------------------------------------------------------------
// The tally
// ---------------------------------------------------------------------
/// The votes for a choice: those that the tally holds for it, or none.
pub open spec fn votes_for(votes: Seq<u64>, choice_index: i32) -> u64 {
    if 0 <= choice_index < votes.len() {
        votes[choice_index as int]
    } else {
        0
    }
}

/// The votes of every proposal.
pub open spec fn proposal_votes(proposals: Seq<ProposalRow>, votes: Seq<u64>) -> Seq<u64> {
    proposals.map_values(|p: ProposalRow| votes_for(votes, p.choice_index))
}

/// Whether the votes of all proposals can be counted in 64 bits.
pub open spec fn countable(proposals: Seq<ProposalRow>, votes: Seq<u64>) -> bool {
    sum(proposal_votes(proposals, votes)) <= u64::MAX
}

/// The votes for a choice.
pub fn count_for(votes: &Vec<u64>, choice_index: i32) -> (r: u64)
    ensures
        r == votes_for(votes@, choice_index),
{
    if choice_index >= 0 && (choice_index as usize) < votes.len() {
        votes[choice_index as usize]
    } else {
        0
    }
}

/// The votes of every proposal.
pub fn count_proposals(proposals: &Vec<ProposalRow>, votes: &Vec<u64>) -> (r: Vec<u64>)
    ensures
        r@ == proposal_votes(proposals@, votes@),
{
    let mut out: Vec<u64> = Vec::new();
    let mut i: usize = 0;
    while i < proposals.len()
        invariant
            i <= proposals@.len(),
            out@ == proposal_votes(proposals@, votes@).take(i as int),
        decreases proposals@.len() - i,
    {
        out.push(count_for(votes, proposals[i].choice_index));
        assert(out@ =~= proposal_votes(proposals@, votes@).take(i + 1));
        i = i + 1;
    }
    assert(out@ =~= proposal_votes(proposals@, votes@));
    out
}

/// The sum of numbers, where it fits in 64 bits.
pub fn checked_sum(v: &Vec<u64>) -> (r: Option<u64>)
    ensures
        match r {
            Some(n) => n == sum(v@),
            None => sum(v@) > u64::MAX,
        },
{
    let mut total: u64 = 0;
    let mut i: usize = 0;
    assert(v@.take(0) =~= Seq::empty());
    while i < v.len()
        invariant
            i <= v@.len(),
            total == sum(v@.take(i as int)),
        decreases v@.len() - i,
    {
        proof {
            assert(v@.take(i + 1).drop_last() =~= v@.take(i as int));
            assert(v@.take(i + 1).last() == v@[i as int]);
            sum_of_prefix(v@, i + 1);
        }
        match total.checked_add(v[i]) {
            Some(n) => {
                total = n;
            },
            None => return None,
        }
        i = i + 1;
    }
    assert(v@.take(v@.len() as int) =~= v@);
    Some(total)
}

/// Whether the votes of all proposals can be counted in 64 bits.
pub fn is_countable(proposals: &Vec<ProposalRow>, votes: &Vec<u64>) -> (r: bool)
    ensures
        r == countable(proposals@, votes@),
{
    checked_sum(&count_proposals(proposals, votes)).is_some()
}

/// Whether a choice is tallied as its proposal and the votes say.
pub open spec fn tallies(c: ChoiceTally, p: ProposalRow, votes: Seq<u64>) -> bool {
    &&& c.choice_index == p.choice_index
    &&& c.proposal_title@ == p.title@
    &&& c.payout_address@ == p.payout_address@
    &&& c.votes == votes_for(votes, p.choice_index)
}

/// Every proposal with its votes, in order.
pub fn zip_tally(proposals: &Vec<ProposalRow>, votes: &Vec<u64>) -> (r: Vec<ChoiceTally>)
    ensures
        r@.len() == proposals@.len(),
        forall|i: int|
            0 <= i < r@.len() ==> tallies(#[trigger] r@[i], proposals@[i], votes@),
{
    let mut out: Vec<ChoiceTally> = Vec::new();
    let mut i: usize = 0;
    while i < proposals.len()
        invariant
            i <= proposals@.len(),
            out@.len() == i,
            forall|j: int| 0 <= j < i ==> tallies(#[trigger] out@[j], proposals@[j], votes@),
        decreases proposals@.len() - i,
    {
        let p = &proposals[i];
        out.push(
            ChoiceTally {
                choice_index: p.choice_index,
                proposal_title: p.title.clone(),
                payout_address: p.payout_address.clone(),
                votes: count_for(votes, p.choice_index),
            },
        );
        i = i + 1;
    }
    out
}

/// Whether a tally is that of the proposals and the votes: every proposal in its place, and the
/// total of their votes.
pub open spec fn is_tally_of(
    t: TallyResponse,
    round_id: i64,
    phase: Seq<char>,
    registered_count: u32,
    proposals: Seq<ProposalRow>,
    votes: Seq<u64>,
) -> bool {
    &&& t.round_id == round_id
    &&& t.phase@ == phase
    &&& t.registered_count == registered_count
    &&& t.choices@.len() == proposals.len()
    &&& forall|i: int|
        0 <= i < t.choices@.len() ==> tallies(#[trigger] t.choices@[i], proposals[i], votes)
    &&& t.total_votes == sum(proposal_votes(proposals, votes))
}

/// The tally of the proposals and the votes.
fn tally_of(
    round_id: i64,
    phase: String,
    registered_count: u32,
    proposals: &Vec<ProposalRow>,
    votes: &Vec<u64>,
) -> (r: TallyResponse)
    requires
        countable(proposals@, votes@),
    ensures
        is_tally_of(r, round_id, phase@, registered_count, proposals@, votes@),
{
    let choices = zip_tally(proposals, votes);
    let total_votes: u64 = match checked_sum(&count_proposals(proposals, votes)) {
        Some(n) => n,
        None => 0,
    };
    TallyResponse { round_id, phase, registered_count, choices, total_votes }
}

/// The votes that a tally shows for its choices.
pub open spec fn shown_votes(t: TallyResponse) -> Seq<u64> {
    t.choices@.map_values(|c: ChoiceTally| c.votes)
}

/// The total of a tally is the sum of the votes that it shows, and none of them is larger.
pub proof fn total_is_sum_of_choices(
    t: TallyResponse,
    round_id: i64,
    phase: Seq<char>,
    registered_count: u32,
    proposals: Seq<ProposalRow>,
    votes: Seq<u64>,
)
    requires
        is_tally_of(t, round_id, phase, registered_count, proposals, votes),
    ensures
        t.total_votes == sum(shown_votes(t)),
        forall|i: int| 0 <= i < t.choices@.len() ==> (#[trigger] t.choices@[i]).votes <= t.total_votes,
{
    let shown = shown_votes(t);
    assert forall|i: int| 0 <= i < shown.len() implies shown[i] == proposal_votes(
        proposals,
        votes,
    )[i] by {
        assert(tallies(t.choices@[i], proposals[i], votes));
    }
    assert(shown =~= proposal_votes(proposals, votes));
    assert forall|i: int| 0 <= i < t.choices@.len() implies (#[trigger] t.choices@[i]).votes
        <= t.total_votes by {
        entry_within_sum(shown, i);
        assert(shown[i] == t.choices@[i].votes);
    }
}

/// Whether proposals stand in the order of their choices, one for each.
pub open spec fn in_choice_order(proposals: Seq<ProposalRow>) -> bool {
    forall|i: int| 0 <= i < proposals.len() ==> (#[trigger] proposals[i]).choice_index == i
}

/// Where the proposals stand in the order of their choices and the chain counts one number for
/// each, the tally shows just those numbers.
pub proof fn tally_shows_the_chain(
    t: TallyResponse,
    round_id: i64,
    phase: Seq<char>,
    registered_count: u32,
    proposals: Seq<ProposalRow>,
    votes: Seq<u64>,
)
    requires
        is_tally_of(t, round_id, phase, registered_count, proposals, votes),
        in_choice_order(proposals),
        votes.len() == proposals.len(),
    ensures
        shown_votes(t) == votes,
        t.total_votes == sum(votes),
{
    total_is_sum_of_choices(t, round_id, phase, registered_count, proposals, votes);
    assert forall|i: int| 0 <= i < votes.len() implies shown_votes(t)[i] == votes[i] by {
        assert(tallies(t.choices@[i], proposals[i], votes));
    }
    assert(shown_votes(t) =~= votes);
}

// ---------------------------------------------------------------------
// POST /rounds/{id}/finalize
// ---------------------------------------------------------------------
/// Closes voting.
pub fn finalize_round(state: &AppStateInner, round_id: i64) -> (r: CliCall)
    ensures
        r@ == state.soroban@.invoke_call("finalize_round"@, round_args(round_id)),
{
    state.soroban.invoke_as_operator("finalize_round", args_for(round_id).as_slice())
}

/// The phase of a round once it is settled.
pub fn closed(round_id: i64) -> (r: PhaseChange)
    ensures
        r.round_id == round_id,
        r.phase@ == finalized_phase(),
{
    PhaseChange { round_id, phase: "finalized".to_owned() }
}

/// The phase of a round after the call that closes voting, and the final votes.
pub fn round_finalized(
    state: &AppStateInner,
    round_id: i64,
    output: Result<ProcessOutput, String>,
) -> (r: Result<(PhaseChange, Vec<u64>), AppError>)
    ensures
        list_output_is_read(state.soroban@.cli_path, output),
        match invoked(run_result(state.soroban@.cli_path, output), |s: Seq<char>| json_u64_list(s)) {
            Ok((votes, tx_hash)) => r matches Ok((change, v)) && change.round_id == round_id
                && change.phase@ == finalized_phase() && v@ == votes,
            Err(e) => r matches Err(f) && f@ == AppErrorView::Soroban(e),
        },
{
    match state.soroban.invoked_list(output) {
        Err(e) => Err(AppError::Soroban(e)),
        Ok(Invoked { value, tx_hash: _ }) => Ok((closed(round_id), value)),
    }
}

/// The final tally.
pub fn final_tally(
    round_id: i64,
    onchain: &OnChainRound,
    proposals: &Vec<ProposalRow>,
    votes: &Vec<u64>,
) -> (r: TallyResponse)
    requires
        countable(proposals@, votes@),
    ensures
        is_tally_of(
            r,
            round_id,
            "Finalized"@,
            onchain.registered_count,
            proposals@,
            votes@,
        ),
{
    tally_of(round_id, "Finalized".to_owned(), onchain.registered_count, proposals, votes)
}

// ---------------------------------------------------------------------
// GET /rounds/{id}/tally
// ---------------------------------------------------------------------
/// Why there is no tally, if there is none: the database says so, or the round has no proposals
/// there.
pub open spec fn tally_refusal(round_id: i64, found: Result<Vec<ProposalRow>, String>) -> Option<
    AppErrorView,
> {
    match found {
        Err(e) => Some(AppErrorView::Db(e@)),
        Ok(proposals) => if proposals@.len() == 0 {
            Some(AppErrorView::NotFound(round_name(round_id)))
        } else {
            None
        },
    }
}

/// The proposals whose votes are to be read from the chain.
pub fn get_tally(round_id: i64, found: Result<Vec<ProposalRow>, String>) -> (r: Result<
    Vec<ProposalRow>,
    AppError,
>)
    ensures
        match r {
            Ok(proposals) => tally_refusal(round_id, found) is None && found == Ok::<
                Vec<ProposalRow>,
                String,
            >(proposals),
            Err(e) => tally_refusal(round_id, found) == Some(e@),
        },
{
    let proposals = fetch_proposals(found)?;
    if proposals.len() == 0 {
        return Err(AppError::NotFound(name_round(round_id)));
    }
    Ok(proposals)
}

/// The votes of a round, from what the system returned of the call that reads them.
pub fn tally_read(state: &AppStateInner, output: Result<ProcessOutput, String>) -> (r: Result<
    Vec<u64>,
    AppError,
>)
    ensures
        list_output_is_read(state.soroban@.cli_path, output),
        match read_votes(state.soroban@.cli_path, output) {
            Ok(votes) => r matches Ok(v) && v@ == votes,
            Err(e) => r matches Err(f) && f@ == AppErrorView::Soroban(e),
        },
{
    match state.soroban.read_list(output) {
        Err(e) => Err(AppError::Soroban(e)),
        Ok(votes) => Ok(votes),
    }
}

/// What became of the call that reads the votes.
pub open spec fn read_votes(cli: Seq<char>, output: Result<ProcessOutput, String>) -> Result<
    Seq<u64>,
    SorobanErrorView,
> {
    match run_result(cli, output) {
        Err(e) => Err(e),
        Ok((stdout, stderr)) => decoding(
            json_u64_list(trimmed(stdout)),
            "read result"@,
            trimmed(stdout),
        ),
    }
}

/// The live tally.
pub fn live_tally(
    round_id: i64,
    onchain: &OnChainRound,
    proposals: &Vec<ProposalRow>,
    votes: &Vec<u64>,
) -> (r: TallyResponse)
    requires
        countable(proposals@, votes@),
    ensures
        is_tally_of(
            r,
            round_id,
            onchain.phase@,
            onchain.registered_count,
            proposals@,
            votes@,
        ),
{
    tally_of(round_id, onchain.phase.clone(), onchain.registered_count, proposals, votes)
}

} // verus!
