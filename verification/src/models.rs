//! Rows of the database, and what requests and responses hold.
//!
//! A point in time is a number of microseconds since 1970 in UTC, and an identifier of a row is
//! its UUID as a number.
use vstd::prelude::*;

verus! {

// ---------------------------------------------------------------------
// Rows
// ---------------------------------------------------------------------
#[derive(Clone, Debug)]
pub struct RoundRow {
    pub id: i64,
    pub contract_id: String,
    pub admin: String,
    pub title: String,
    pub num_choices: i32,
    pub phase: String,
    pub payout_pool_stroops: i64,
    pub create_round_tx_hash: Option<String>,
    pub created_at: i64,
    pub voting_opened_at: Option<i64>,
    pub finalized_at: Option<i64>,
}

#[derive(Clone, Debug)]
pub struct ProposalRow {
    pub id: u128,
    pub round_id: i64,
    pub choice_index: i32,
    pub title: String,
    pub description: Option<String>,
    pub payout_address: String,
    pub created_at: i64,
}

#[derive(Clone, Debug)]
pub struct VoterRegistrationRow {
    pub id: u128,
    pub round_id: i64,
    pub voter_address: String,
    pub leaf_index: i32,
    pub commitment_hex: String,
    pub register_tx_hash: String,
    pub registered_at: i64,
}

#[derive(Clone, Debug)]
pub struct BallotRow {
    pub id: u128,
    pub round_id: i64,
    pub nullifier_hex: String,
    pub choice_index: i32,
    pub cast_vote_tx_hash: String,
    pub cast_at: i64,
}

#[derive(Clone, Debug)]
pub struct PayoutRow {
    pub id: u128,
    pub round_id: i64,
    pub proposal_id: u128,
    pub amount_stroops: i64,
    pub vote_share_bps: i32,
    pub status: String,
    pub payout_tx_hash: Option<String>,
    pub error: Option<String>,
    pub created_at: i64,
    pub executed_at: Option<i64>,
}

// ---------------------------------------------------------------------
// What the contract returns
// ---------------------------------------------------------------------
/// A round as the contract knows it.
#[derive(Clone, Debug)]
pub struct OnChainRound {
    pub admin: String,
    pub ballot_count: u32,
    pub id: u64,
    pub merkle_root: String,
    pub num_choices: u32,
    pub phase: String,
    pub registered_count: u32,
    pub title: String,
}

// ---------------------------------------------------------------------
// POST /rounds
// ---------------------------------------------------------------------
#[derive(Debug)]
pub struct CreateRoundRequest {
    pub title: String,
    pub payout_pool_stroops: i64,
    pub proposals: Vec<CreateProposalRequest>,
}

#[derive(Debug)]
pub struct CreateProposalRequest {
    pub title: String,
    pub description: Option<String>,
    pub payout_address: String,
}

#[derive(Debug)]
pub struct CreateRoundResponse {
    pub round: RoundRow,
    pub proposals: Vec<ProposalRow>,
}

#[derive(Debug)]
pub struct SetEligibilityRequest {
    pub voters: Vec<String>,
    pub eligible: bool,
}

/// What `eligible` is where a request does not say.
pub fn default_true() -> (r: bool)
    ensures
        r,
{
    true
}

#[derive(Debug)]
pub struct SetEligibilityResponse {
    pub round_id: i64,
    pub updated: Vec<String>,
    pub failed: Vec<EligibilityFailure>,
}

#[derive(Debug)]
pub struct EligibilityFailure {
    pub voter: String,
    pub error: String,
}

// ---------------------------------------------------------------------
// POST /voters/register
// ---------------------------------------------------------------------
/// A registration whose transaction the voter's wallet has already built and signed.
#[derive(Debug)]
pub struct RegisterVoterRequest {
    pub round_id: i64,
    pub voter: String,
    pub commitment_hex: String,
    pub signed_xdr: String,
}

#[derive(Debug)]
pub struct RegisterVoterResponse {
    pub round_id: i64,
    pub voter: String,
    pub leaf_index: i32,
    pub commitment_hex: String,
    pub tx_hash: Option<String>,
}

// ---------------------------------------------------------------------
// POST /votes
// ---------------------------------------------------------------------
/// A Groth16 proof, its three points in hexadecimal.
#[derive(Clone, Debug)]
pub struct ProofDto {
    pub a: String,
    pub b: String,
    pub c: String,
}

/// The private witness for "I'm a registered voter and this is my first vote in this round".
/// Field elements are decimal or `0x`-prefixed hex strings.
#[derive(Clone, Debug)]
pub struct ProveWitnessRequest {
    pub secret: String,
    pub merkle_path: Vec<String>,
    pub path_indices: Vec<bool>,
}

/// A ballot with exactly one of `proof` and `witness`.
#[derive(Debug)]
pub struct CastVoteRequest {
    pub round_id: i64,
    pub choice: i32,
    pub nullifier_hex: String,
    pub proof: Option<ProofDto>,
    pub witness: Option<ProveWitnessRequest>,
}

#[derive(Debug)]
pub struct CastVoteResponse {
    pub round_id: i64,
    pub choice: i32,
    pub nullifier_hex: String,
    pub tx_hash: Option<String>,
}

// ---------------------------------------------------------------------
// GET /rounds/{id}/tally
// ---------------------------------------------------------------------
#[derive(Debug)]
pub struct TallyResponse {
    pub round_id: i64,
    pub phase: String,
    pub registered_count: u32,
    pub choices: Vec<ChoiceTally>,
    pub total_votes: u64,
}

#[derive(Debug)]
pub struct ChoiceTally {
    pub choice_index: i32,
    pub proposal_title: String,
    pub payout_address: String,
    pub votes: u64,
}

// ---------------------------------------------------------------------
// POST /payouts/execute
// ---------------------------------------------------------------------
#[derive(Debug)]
pub struct ExecutePayoutsRequest {
    pub round_id: i64,
}

#[derive(Debug)]
pub struct ExecutePayoutsResponse {
    pub round_id: i64,
    pub payout_pool_stroops: i64,
    pub payouts: Vec<PayoutResult>,
}

#[derive(Debug)]
pub struct PayoutResult {
    pub proposal_id: u128,
    pub choice_index: i32,
    pub payout_address: String,
    pub votes: u64,
    pub vote_share_bps: i32,
    pub amount_stroops: i64,
    pub status: String,
    pub tx_hash: Option<String>,
    pub error: Option<String>,
}

} // verus!
