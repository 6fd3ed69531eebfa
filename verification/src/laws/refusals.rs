//! What refused requests are told.
use crate::error::AppError;
use crate::laws::answers::{is_signed, signed_is_text};
use crate::laws::is_number;
use crate::models::{
    CastVoteRequest, CreateRoundRequest, ExecutePayoutsRequest, ProofDto, ProposalRow,
    RegisterVoterRequest, RoundRow,
};
use crate::proof_service::{groth16_proof, ProofServiceError};
use crate::routes::payouts::{execute_payouts, PayableRound, UnpaidRound};
use crate::routes::rounds::{create_round, fetch_round, get_tally, name_round};
use crate::routes::voters::register;
use crate::routes::votes::{cast_vote, check_nullifier, Ballot};
use crate::soroban_client::CliCall;
use crate::state::AppStateInner;
use vstd::prelude::*;
use vstd::string::*;

verus! {

/// A round that is not there is told by its number.
pub proof fn missing_round_is_told(
    round_id: i64,
    word: Seq<char>,
    name: String,
    r: Result<RoundRow, AppError>,
)
    requires
        is_signed(word, round_id as int),
        call_ensures(name_round, (round_id,), name),
        call_ensures(fetch_round, (round_id, Ok::<Option<RoundRow>, String>(None)), r),
    ensures
        name@ == "round "@ + word,
        r matches Err(AppError::NotFound(m)) && m@ == "round "@ + word,
{
    signed_is_text(word, round_id as int);
}

/// A tally without proposals is told by the round's number.
pub proof fn missing_tally_is_told(
    round_id: i64,
    word: Seq<char>,
    proposals: Vec<ProposalRow>,
    r: Result<Vec<ProposalRow>, AppError>,
)
    requires
        is_signed(word, round_id as int),
        proposals@.len() == 0,
        call_ensures(get_tally, (round_id, Ok::<Vec<ProposalRow>, String>(proposals)), r),
    ensures
        r matches Err(AppError::NotFound(m)) && m@ == "round "@ + word,
{
    signed_is_text(word, round_id as int);
}

/// Why a round is not created is told.
pub proof fn refused_round_is_told(state: &AppStateInner, req: &CreateRoundRequest, e: AppError)
    requires
        call_ensures(create_round, (state, req), Err::<CliCall, AppError>(e)),
    ensures
        e matches AppError::BadRequest(m) && m@ == (if req.proposals@.len() == 0 {
            "at least one proposal is required"@
        } else {
            "payout_pool_stroops must not be negative"@
        }),
{
}

/// Why a registration is not relayed is told, with the round and its phase.
pub proof fn refused_registration_is_told(
    state: &AppStateInner,
    found: Result<Option<RoundRow>, String>,
    req: &RegisterVoterRequest,
    word: Seq<char>,
    e: AppError,
)
    requires
        is_signed(word, req.round_id as int),
        call_ensures(register, (state, found, req), Err::<CliCall, AppError>(e)),
    ensures
        match found {
            Ok(Some(round)) => e matches AppError::Conflict(m) && m@ == "round "@ + word
                + " is not accepting registrations (phase = "@ + round.phase@ + ")"@,
            Ok(None) => e matches AppError::NotFound(m) && m@ == "round "@ + word,
            Err(s) => e matches AppError::Db(m) && m@ == s@,
        },
{
    signed_is_text(word, req.round_id as int);
}

/// Why a ballot is not taken is told, with the round and its phase, or with how many choices the
/// round has.
pub proof fn refused_ballot_is_told(
    found: Result<Option<RoundRow>, String>,
    req: &CastVoteRequest,
    word: Seq<char>,
    choices: Seq<char>,
    e: AppError,
)
    requires
        is_signed(word, req.round_id as int),
        found matches Ok(Some(round)) ==> is_signed(choices, round.num_choices as int),
        call_ensures(cast_vote, (found, req), Err::<Ballot, AppError>(e)),
    ensures
        match found {
            Ok(Some(round)) => if round.phase@ != "voting"@ {
                e matches AppError::Conflict(m) && m@ == "round "@ + word
                    + " is not open for voting (phase = "@ + round.phase@ + ")"@
            } else if req.choice < 0 || req.choice >= round.num_choices {
                e matches AppError::BadRequest(m) && m@ == "choice must be in 0.."@ + choices
            } else if req.proof is Some {
                e matches AppError::BadRequest(m) && m@
                    == "provide only one of `proof` or `witness`, not both"@
            } else {
                e matches AppError::BadRequest(m) && m@
                    == "one of `proof` or `witness` is required"@
            },
            Ok(None) => e matches AppError::NotFound(m) && m@ == "round "@ + word,
            Err(s) => e matches AppError::Db(m) && m@ == s@,
        },
{
    signed_is_text(word, req.round_id as int);
    if let Ok(Some(round)) = found {
        signed_is_text(choices, round.num_choices as int);
    }
}

/// A nullifier that is not the witness's is told.
pub proof fn wrong_nullifier_is_told(expected: &str, given: &str, e: AppError)
    requires
        call_ensures(check_nullifier, (expected, given), Err::<(), AppError>(e)),
    ensures
        e matches AppError::BadRequest(m) && m@
            == "nullifier_hex does not match Poseidon2(secret, round_id) for the given witness"@,
{
}

/// Why payouts are not executed is told, with the round and its phase.
pub proof fn refused_payouts_are_told(
    found: Result<Option<RoundRow>, String>,
    req: &ExecutePayoutsRequest,
    word: Seq<char>,
    e: AppError,
)
    requires
        is_signed(word, req.round_id as int),
        call_ensures(execute_payouts, (found, req), Err::<PayableRound, AppError>(e)),
    ensures
        match found {
            Ok(Some(round)) => if round.phase@ != "finalized"@ {
                e matches AppError::Conflict(m) && m@ == "round "@ + word
                    + " must be finalized before payouts can execute (phase = "@ + round.phase@
                    + ")"@
            } else {
                e matches AppError::BadRequest(m) && m@
                    == "round has no payout_pool_stroops configured"@
            },
            Ok(None) => e matches AppError::NotFound(m) && m@ == "round "@ + word,
            Err(s) => e matches AppError::Db(m) && m@ == s@,
        },
{
    signed_is_text(word, req.round_id as int);
}

/// That payouts were executed before is told, with the round.
pub proof fn repeated_payouts_are_told(
    payable: PayableRound,
    already: Result<i64, String>,
    word: Seq<char>,
    e: AppError,
)
    requires
        is_signed(word, payable.id() as int),
        call_ensures(
            PayableRound::check_unpaid,
            (payable, already),
            Err::<UnpaidRound, AppError>(e),
        ),
    ensures
        match already {
            Ok(_) => e matches AppError::Conflict(m) && m@
                == "payouts have already been executed for round "@ + word,
            Err(s) => e matches AppError::Db(m) && m@ == s@,
        },
{
    signed_is_text(word, payable.id() as int);
}

/// How many field elements there are is told, where there are not eight.
pub proof fn wrong_number_of_elements_is_told(
    fields_path: &str,
    fields: &Vec<String>,
    word: Seq<char>,
    e: ProofServiceError,
)
    requires
        is_number(word, fields@.len() as int),
        call_ensures(
            groth16_proof,
            (fields_path, fields),
            Err::<ProofDto, ProofServiceError>(e),
        ),
    ensures
        e matches ProofServiceError::InvalidInput(m) && m@ == "expected 8 field elements in "@
            + fields_path@ + ", found "@ + word,
{
    signed_is_text(word, fields@.len() as int);
}

} // verus!
