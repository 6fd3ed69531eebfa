//! `POST /votes`.
use crate::decimal::{i64_text, integer_text};
use crate::error::{AppError, AppErrorView};
use crate::field::{
    digits_of_number, hex_encoded_is_plain, hex_number, hex_text, number, number_reading, FieldError,
};
use crate::hexadecimal::{
    hex_decoded, hex_encoded, hex_round_trip, hex_value, is_hex_byte, padded_32,
};
use crate::json::json_unit;
use crate::models::{
    BallotRow, CastVoteRequest, CastVoteResponse, OnChainRound, ProofDto, ProveWitnessRequest,
    RoundRow,
};
use crate::proof_service::{
    field_refusal, hashable, is_hashable, nullifier_hash, nullifier_of, prover_toml_text,
    solver_args, witness_nullifier, ProofJob, ProofService,
};
use crate::routes::rounds::{chain_id, fetch_round, missing_round, round_args, voting_phase};
use crate::soroban_client::{
    args_view, hex_bytes, invoked, json, proof_json, run_result, spells_hex, u32_, u64_,
    unit_output_is_read, Arg, CliCall, CliCallView, ProcessOutput, SorobanClientView,
};
use crate::state::AppStateInner;
use crate::text::{
    ascii_lower, ascii_lowercase, copy_or_empty, eq_ignoring_case, has_hex_prefix, lowercase,
    optional_text, same_ignoring_case, same_text, text_or_empty, trim_hex_prefix,
    without_any_hex_prefix, without_hex_prefix,
};
use vstd::prelude::*;
use vstd::string::*;
use vstd::utf8::{encode_utf8, is_ascii_chars, is_ascii_chars_encode_utf8};

verus! {

// ---------------------------------------------------------------------
// Whether a ballot is taken
// ---------------------------------------------------------------------
/// Why a ballot is not taken, if it is not: there is no such round, it is not open for voting, it
/// has no such choice, or the ballot does not hold exactly one of a proof and a witness.
pub open spec fn vote_refusal(
    found: Result<Option<RoundRow>, String>,
    req: CastVoteRequest,
) -> Option<AppErrorView> {
    match found {
        Ok(Some(round)) => if round.phase@ != voting_phase() {
            Some(
                AppErrorView::Conflict(
                    "round "@ + integer_text(req.round_id as int)
                        + " is not open for voting (phase = "@ + round.phase@ + ")"@,
                ),
            )
        } else if req.choice < 0 || req.choice >= round.num_choices {
            Some(
                AppErrorView::BadRequest(
                    "choice must be in 0.."@ + integer_text(round.num_choices as int),
                ),
            )
        } else if req.proof is Some && req.witness is Some {
            Some(
                AppErrorView::BadRequest("provide only one of `proof` or `witness`, not both"@),
            )
        } else if req.proof is None && req.witness is None {
            Some(AppErrorView::BadRequest("one of `proof` or `witness` is required"@))
        } else {
            None
        },
        _ => missing_round(req.round_id, found),
    }
}

/// Whether a ballot is taken for a round.
pub open spec fn is_taken(round: RoundRow, req: CastVoteRequest) -> bool {
    vote_refusal(Ok(Some(round)), req) is None
}

/// A ballot that is taken, by what backs it.
pub enum Ballot<'a> {
    /// An already-built proof.
    Proved(ProvedBallot<'a>),
    /// A witness that is yet to be checked and proved.
    Unproved(UnprovedBallot<'a>),
}

/// A ballot that is taken with a witness.
pub struct UnprovedBallot<'a> {
    round: Ghost<RoundRow>,
    req: &'a CastVoteRequest,
    witness: &'a ProveWitnessRequest,
}

/// A ballot that is taken with a witness whose nullifier is the ballot's.
pub struct CheckedBallot<'a> {
    round: Ghost<RoundRow>,
    req: &'a CastVoteRequest,
    witness: &'a ProveWitnessRequest,
}

/// A ballot that is taken and has a proof.
pub struct ProvedBallot<'a> {
    round: Ghost<RoundRow>,
    req: &'a CastVoteRequest,
    proof: ProofDto,
}

impl<'a> UnprovedBallot<'a> {
    #[verifier::type_invariant]
    spec fn inv(self) -> bool {
        is_taken(self.round@, *self.req) && self.req.witness == Some(*self.witness)
    }

    /// The round that the ballot is for.
    pub closed spec fn round(self) -> RoundRow {
        self.round@
    }

    /// The request.
    pub closed spec fn req(self) -> CastVoteRequest {
        *self.req
    }

    /// The witness.
    pub closed spec fn witness(self) -> ProveWitnessRequest {
        *self.witness
    }
}

impl<'a> CheckedBallot<'a> {
    #[verifier::type_invariant]
    spec fn inv(self) -> bool {
        is_taken(self.round@, *self.req) && self.req.witness == Some(*self.witness) && nullifier_is_right(
            *self.req,
        )
    }

    /// The round that the ballot is for.
    pub closed spec fn round(self) -> RoundRow {
        self.round@
    }

    /// The request.
    pub closed spec fn req(self) -> CastVoteRequest {
        *self.req
    }

    /// The witness.
    pub closed spec fn witness(self) -> ProveWitnessRequest {
        *self.witness
    }
}

impl<'a> ProvedBallot<'a> {
    #[verifier::type_invariant]
    spec fn inv(self) -> bool {
        is_taken(self.round@, *self.req) && nullifier_is_right(*self.req)
    }

    /// The round that the ballot is for.
    pub closed spec fn round(self) -> RoundRow {
        self.round@
    }

    /// The request.
    pub closed spec fn req(self) -> CastVoteRequest {
        *self.req
    }

    /// The proof.
    pub closed spec fn dto(self) -> ProofDto {
        self.proof
    }
}

/// A copy of a proof.
fn copy_proof(p: &ProofDto) -> (r: ProofDto)
    ensures
        r == *p,
{
    ProofDto { a: p.a.clone(), b: p.b.clone(), c: p.c.clone() }
}

/// Takes an anonymous ballot, from what the database returned for its round. The request must
/// contain exactly one of `proof` and `witness`.
pub fn cast_vote<'a>(found: Result<Option<RoundRow>, String>, req: &'a CastVoteRequest) -> (r:
    Result<Ballot<'a>, AppError>)
    ensures
        match r {
            Ok(Ballot::Proved(b)) => {
                &&& vote_refusal(found, *req) is None
                &&& found == Ok::<Option<RoundRow>, String>(Some(b.round()))
                &&& b.req() == *req
                &&& req.proof == Some(b.dto())
            },
            Ok(Ballot::Unproved(b)) => {
                &&& vote_refusal(found, *req) is None
                &&& found == Ok::<Option<RoundRow>, String>(Some(b.round()))
                &&& b.req() == *req
                &&& req.witness == Some(b.witness())
            },
            Err(e) => vote_refusal(found, *req) == Some(e@),
        },
{
    let round = fetch_round(req.round_id, found)?;
    if !same_text(round.phase.as_str(), "voting") {
        let mut out = "round ".to_owned();
        out.append(i64_text(req.round_id).as_str());
        out.append(" is not open for voting (phase = ");
        out.append(round.phase.as_str());
        out.append(")");
        return Err(AppError::Conflict(out));
    }
    if req.choice < 0 || req.choice >= round.num_choices {
        let mut out = "choice must be in 0..".to_owned();
        out.append(i64_text(round.num_choices as i64).as_str());
        return Err(AppError::BadRequest(out));
    }
    match (&req.proof, &req.witness) {
        (Some(p), None) => Ok(
            Ballot::Proved(ProvedBallot { round: Ghost(round), req, proof: copy_proof(p) }),
        ),
        (None, Some(witness)) => Ok(
            Ballot::Unproved(UnprovedBallot { round: Ghost(round), req, witness }),
        ),
        (Some(_), Some(_)) => Err(
            AppError::BadRequest("provide only one of `proof` or `witness`, not both".to_owned()),
        ),
        (None, None) => Err(
            AppError::BadRequest("one of `proof` or `witness` is required".to_owned()),
        ),
    }
}

/// A ballot that is taken is for an open round and one of its choices, and holds exactly one of a
/// proof and a witness.
pub proof fn taken_ballot_is_sound(found: Result<Option<RoundRow>, String>, req: CastVoteRequest)
    requires
        vote_refusal(found, req) is None,
    ensures
        found matches Ok(Some(round)) && round.phase@ == voting_phase() && 0 <= req.choice
            < round.num_choices,
        req.choice as u32 == req.choice,
        req.proof is Some <==> req.witness is None,
{
}

// ---------------------------------------------------------------------
// The nullifier
// ---------------------------------------------------------------------
/// Whether two texts are the same hexadecimal digits, whatever their case and with or without a
/// `0x` at their start.
pub open spec fn hex_matches(a: Seq<char>, b: Seq<char>) -> bool {
    same_ignoring_case(without_hex_prefix(a), without_hex_prefix(b))
}

/// Whether two texts are the same hexadecimal digits, whatever their case and with or without a
/// `0x` at their start.
pub fn hex_eq(a: &str, b: &str) -> (r: bool)
    ensures
        r == hex_matches(a@, b@),
{
    eq_ignoring_case(trim_hex_prefix(a).as_str(), trim_hex_prefix(b).as_str())
}

/// What a nullifier that is not the witness's is refused with.
pub open spec fn nullifier_refusal() -> AppErrorView {
    AppErrorView::BadRequest(
        "nullifier_hex does not match Poseidon2(secret, round_id) for the given witness"@,
    )
}

/// Checks the nullifier of a ballot against the one that its witness gives.
pub fn check_nullifier(expected: &str, nullifier_hex: &str) -> (r: Result<(), AppError>)
    ensures
        match r {
            Ok(_) => hex_matches(expected@, nullifier_hex@),
            Err(e) => !hex_matches(expected@, nullifier_hex@) && e@ == nullifier_refusal(),
        },
{
    if hex_eq(expected, nullifier_hex) {
        Ok(())
    } else {
        Err(
            AppError::BadRequest(
                "nullifier_hex does not match Poseidon2(secret, round_id) for the given witness".to_owned(),
            ),
        )
    }
}

/// Whether the nullifier of a ballot with a witness is the one that the witness gives for the
/// ballot's round. A ballot without a witness shows nothing to hold its nullifier against.
pub open spec fn nullifier_is_right(req: CastVoteRequest) -> bool {
    req.witness matches Some(witness) ==> (number(witness.secret@) matches Some(secret)
        && hex_matches(nullifier_of(secret, chain_id(req.round_id)), req.nullifier_hex@))
}

impl<'a> UnprovedBallot<'a> {
    /// Whether the secret of the witness, if it stands for anything, is an element of the field.
    pub fn is_hashable(&self) -> (r: bool)
        ensures
            r == hashable(self.witness().secret@),
    {
        is_hashable(self.witness.secret.as_str())
    }

    /// Checks that the nullifier of the ballot is the one that its witness gives for its round,
    /// before a proving attempt is spent on it.
    pub fn check_witness(self) -> (r: Result<CheckedBallot<'a>, AppError>)
        requires
            hashable(self.witness().secret@),
        ensures
            match number(self.witness().secret@) {
                Some(secret) => {
                    let hash = nullifier_hash(secret, chain_id(self.req().round_id));
                    let expected = hex_text(hash);
                    &&& hash.len() == 32
                    &&& match r {
                        Ok(b) => {
                            &&& hex_matches(expected, self.req().nullifier_hex@)
                            &&& b.round() == self.round()
                            &&& b.req() == self.req()
                            &&& b.witness() == self.witness()
                        },
                        Err(e) => !hex_matches(expected, self.req().nullifier_hex@) && e@
                            == nullifier_refusal(),
                    }
                },
                None => r matches Err(e) && exists|f: FieldError|
                    #[trigger] number_reading(self.witness().secret@, Err(f)) && e@
                        == AppErrorView::Proof(field_refusal(f)),
            },
    {
        proof {
            use_type_invariant(&self);
        }
        let id: u64 = #[verifier::truncate] (self.req.round_id as u64);
        match witness_nullifier(self.witness.secret.as_str(), id) {
            Ok(expected) => match check_nullifier(
                expected.as_str(),
                self.req.nullifier_hex.as_str(),
            ) {
                Ok(_) => Ok(
                    CheckedBallot { round: self.round, req: self.req, witness: self.witness },
                ),
                Err(e) => Err(e),
            },
            Err(e) => {
                assert(exists|f: FieldError|
                    #[trigger] number_reading(self.witness.secret@, Err(f)) && e@ == field_refusal(
                        f,
                    ));
                Err(AppError::Proof(e))
            },
        }
    }
}

/// Comparing hexadecimal digits is an equivalence.
pub proof fn hex_matches_is_equivalence(a: Seq<char>, b: Seq<char>, c: Seq<char>)
    ensures
        hex_matches(a, a),
        hex_matches(a, b) ==> hex_matches(b, a),
        hex_matches(a, b) && hex_matches(b, c) ==> hex_matches(a, c),
{
}

/// A `0x` at the start makes no difference.
pub proof fn prefix_makes_no_difference(a: Seq<char>, b: Seq<char>)
    ensures
        hex_matches("0x"@ + a, b) == hex_matches(a, b),
        hex_matches(a, "0x"@ + b) == hex_matches(a, b),
{
    reveal_strlit("0x");
    assert(has_hex_prefix("0x"@ + a));
    assert(("0x"@ + a).skip(2) =~= a);
    assert(has_hex_prefix("0x"@ + b));
    assert(("0x"@ + b).skip(2) =~= b);
}

/// A nullifier of 64 digits is accepted just where it stands for the number that is expected.
pub proof fn accepted_nullifier_is_expected(expected: Seq<u8>, given: Seq<char>)
    requires
        expected.len() == 32,
        without_hex_prefix(given).len() == 64,
    ensures
        hex_matches(hex_text(expected), given) <==> hex_number(given) == Some(expected),
{
    let want = hex_encoded(expected);
    let have = without_hex_prefix(given);
    hex_encoded_is_plain(expected);
    reveal_strlit("0x");
    assert(has_hex_prefix(hex_text(expected)));
    assert(hex_text(expected).skip(2) =~= want);
    assert forall|i: int| 0 <= i < 64 implies ascii_lower(#[trigger] want[i]) == want[i] by {
        let b = expected[i / 2] as int;
        assert(0 <= b / 16 < 16 && 0 <= b % 16 < 16);
    }
    assert(ascii_lowercase(want) =~= want);
    if hex_matches(hex_text(expected), given) {
        assert forall|i: int| 0 <= i < 64 implies is_hex_byte((#[trigger] have[i]) as u8)
            && hex_value(have[i] as u8) == hex_value(want[i] as u8) && (have[i] as u32)
            < 128 by {
            assert(ascii_lowercase(have)[i] == want[i]);
            assert(is_hex_byte(want[i] as u8));
            let b = expected[i / 2] as int;
            assert(0 <= b / 16 < 16 && 0 <= b % 16 < 16);
        }
        is_ascii_chars_encode_utf8(have);
        is_ascii_chars_encode_utf8(want);
        let x = encode_utf8(have);
        let y = encode_utf8(want);
        assert forall|i: int| 0 <= i < y.len() implies (#[trigger] y[i]) as char == want[i] by {}
        hex_round_trip(expected, y);
        assert forall|i: int| 0 <= i < 64 implies hex_value(#[trigger] x[i]) == hex_value(
            y[i],
        ) && is_hex_byte(x[i]) by {
            assert(x[i] == have[i] as u8);
            assert(y[i] == want[i] as u8);
        }
        assert forall|i: int| 0 <= i < 32 implies hex_decoded(x)[i] == hex_decoded(y)[i] by {
            assert(hex_value(x[2 * i]) == hex_value(y[2 * i]));
            assert(hex_value(x[2 * i + 1]) == hex_value(y[2 * i + 1]));
        }
        assert(hex_decoded(x) =~= hex_decoded(y));
        assert(padded_32(expected) =~= expected);
    }
    if hex_number(given) == Some(expected) {
        digits_of_number(given, expected);
    }
}

// ---------------------------------------------------------------------
// The proof of a witness
// ---------------------------------------------------------------------
impl<'a> CheckedBallot<'a> {
    /// Prepares the proof of the witness against the round on the chain. `bb_found` tells whether
    /// the configured prover resolves to a binary.
    pub fn prove(&self, state: &AppStateInner, bb_found: bool, onchain: &OnChainRound) -> (r:
        Result<ProofJob, AppError>)
        ensures
            match r {
                Err(e) => ProofService::refusal(
                    state.proof_service@,
                    bb_found,
                    self.witness(),
                ) matches Some(refusal) && e@ == AppErrorView::Proof(refusal),
                Ok(job) => {
                    &&& ProofService::refusal(
                        state.proof_service@,
                        bb_found,
                        self.witness(),
                    ) is None
                    &&& job.circuit_dir@ == state.proof_service@.circuit_dir
                    &&& job.prover_toml@ == prover_toml_text(
                        self.witness(),
                        onchain.merkle_root@,
                        self.req().nullifier_hex@,
                        chain_id(self.req().round_id),
                        self.req().choice as u32,
                    )
                    &&& job.solver@ == (CliCallView {
                        program: state.proof_service@.nargo_path,
                        args: solver_args(),
                        input: None,
                    })
                    &&& Some(job.bb_path@) == state.proof_service@.bb_path
                },
            },
    {
        let id: u64 = #[verifier::truncate] (self.req.round_id as u64);
        let choice: u32 = #[verifier::truncate] (self.req.choice as u32);
        match state.proof_service.prove(
            bb_found,
            self.witness,
            onchain.merkle_root.as_str(),
            self.req.nullifier_hex.as_str(),
            id,
            choice,
        ) {
            Ok(job) => Ok(job),
            Err(e) => Err(AppError::Proof(e)),
        }
    }

    /// The ballot with the proof that was made of its witness.
    pub fn proved(self, proof: ProofDto) -> (r: ProvedBallot<'a>)
        ensures
            r.round() == self.round(),
            r.req() == self.req(),
            r.dto() == proof,
    {
        proof {
            use_type_invariant(&self);
        }
        ProvedBallot { round: self.round, req: self.req, proof }
    }
}

// ---------------------------------------------------------------------
// The submission
// ---------------------------------------------------------------------
/// The call that submits a ballot.
pub open spec fn vote_call(
    client: SorobanClientView,
    req: CastVoteRequest,
    proof: ProofDto,
) -> CliCallView {
    client.invoke_call(
        "cast_vote"@,
        round_args(req.round_id) + seq![
            ("choice"@, integer_text(req.choice as u32 as int)),
            ("nullifier"@, lowercase(without_any_hex_prefix(req.nullifier_hex@))),
            ("proof"@, proof_json(proof)),
        ],
    )
}

impl<'a> ProvedBallot<'a> {
    /// Submits the ballot. The operator is only the fee-paying relayer of it. There is no ballot
    /// to submit that was not taken, or whose witness gives another nullifier.
    pub fn submit(&self, state: &AppStateInner) -> (r: CliCall)
        ensures
            is_taken(self.round(), self.req()),
            nullifier_is_right(self.req()),
            r@ == vote_call(state.soroban@, self.req(), self.dto()),
            forall|digits: Seq<char>| #[trigger]
                spells_hex(self.req().nullifier_hex@, digits) ==> lowercase(
                    without_any_hex_prefix(self.req().nullifier_hex@),
                ) == ascii_lowercase(digits),
            is_ascii_chars(self.req().nullifier_hex@) ==> lowercase(
                without_any_hex_prefix(self.req().nullifier_hex@),
            ) == ascii_lowercase(without_any_hex_prefix(self.req().nullifier_hex@)),
    {
        proof {
            use_type_invariant(self);
        }
        let req = self.req;
        let id: u64 = #[verifier::truncate] (req.round_id as u64);
        let choice: u32 = #[verifier::truncate] (req.choice as u32);
        let mut args: Vec<Arg> = Vec::new();
        args.push(u64_("round_id", id));
        args.push(u32_("choice", choice));
        args.push(hex_bytes("nullifier", req.nullifier_hex.as_str()));
        args.push(json("proof", &self.proof));
        assert(args_view(args@) =~= round_args(req.round_id) + seq![
            ("choice"@, integer_text(req.choice as u32 as int)),
            ("nullifier"@, lowercase(without_any_hex_prefix(req.nullifier_hex@))),
            ("proof"@, proof_json(self.proof)),
        ]);
        state.soroban.invoke_as_operator("cast_vote", args.as_slice())
    }

    /// What is recorded of the ballot and the hash of its transaction, from what the system
    /// returned of the call that submitted it.
    pub fn submitted(&self, state: &AppStateInner, output: Result<ProcessOutput, String>) -> (r:
        Result<(NewBallot, Option<String>), AppError>)
        ensures
            unit_output_is_read(state.soroban@.cli_path, output),
            match invoked(run_result(state.soroban@.cli_path, output), |s: Seq<char>| json_unit(s)) {
                Ok((unit, tx_hash)) => r matches Ok((ballot, hash)) && records_ballot(
                    ballot,
                    self.req(),
                    tx_hash,
                ) && optional_text(hash) == tx_hash,
                Err(e) => r matches Err(f) && f@ == AppErrorView::Soroban(e),
            },
    {
        match state.soroban.invoked_unit(output) {
            Err(e) => Err(AppError::Soroban(e)),
            Ok(cast) => Ok((ballot_record(self.req, &cast.tx_hash), cast.tx_hash)),
        }
    }
}

/// A ballot to record: only what is public on the chain.
#[derive(Debug)]
pub struct NewBallot {
    pub round_id: i64,
    pub nullifier_hex: String,
    pub choice_index: i32,
    pub cast_vote_tx_hash: String,
}

/// Whether a ballot is recorded as it was cast.
pub open spec fn records_ballot(
    b: NewBallot,
    req: CastVoteRequest,
    tx_hash: Option<Seq<char>>,
) -> bool {
    &&& b.round_id == req.round_id
    &&& b.nullifier_hex@ == req.nullifier_hex@
    &&& b.choice_index == req.choice
    &&& b.cast_vote_tx_hash@ == text_or_empty(tx_hash)
}

/// What is recorded of a ballot.
pub fn ballot_record(req: &CastVoteRequest, tx_hash: &Option<String>) -> (r: NewBallot)
    ensures
        records_ballot(r, *req, optional_text(*tx_hash)),
{
    NewBallot {
        round_id: req.round_id,
        nullifier_hex: req.nullifier_hex.clone(),
        choice_index: req.choice,
        cast_vote_tx_hash: copy_or_empty(tx_hash),
    }
}

/// The answer to a ballot, from the row that was recorded.
pub fn vote_response(req: &CastVoteRequest, row: BallotRow, tx_hash: Option<String>) -> (r:
    CastVoteResponse)
    ensures
        r.round_id == req.round_id,
        r.choice == row.choice_index,
        r.nullifier_hex == row.nullifier_hex,
        r.tx_hash == tx_hash,
{
    CastVoteResponse {
        round_id: req.round_id,
        choice: row.choice_index,
        nullifier_hex: row.nullifier_hex,
        tx_hash,
    }
}

/// Of a ballot nothing is submitted or recorded but its round, its choice, its nullifier and its
/// proof: two ballots that agree on these are submitted and recorded alike, whatever witness was
/// behind them.
pub proof fn ballot_keeps_the_witness(
    client: SorobanClientView,
    a: CastVoteRequest,
    b: CastVoteRequest,
    proof: ProofDto,
    row: NewBallot,
    tx_hash: Option<Seq<char>>,
)
    requires
        a.round_id == b.round_id,
        a.choice == b.choice,
        a.nullifier_hex@ == b.nullifier_hex@,
    ensures
        vote_call(client, a, proof) == vote_call(client, b, proof),
        records_ballot(row, a, tx_hash) == records_ballot(row, b, tx_hash),
{
}

/// Without a prover no witness is proved, and the answer is 503.
pub proof fn no_prover_is_503(
    service: crate::proof_service::ProofServiceView,
    bb_found: bool,
    witness: ProveWitnessRequest,
)
    requires
        service.bb_path is None || !bb_found,
    ensures
        ProofService::refusal(service, bb_found, witness) matches Some(refusal)
            && AppErrorView::Proof(refusal).status() == 503,
{
}

} // verus!
