//! `POST /voters/register`.
use crate::decimal::{i64_text, integer_text};
use crate::error::{AppError, AppErrorView};
use crate::models::{
    OnChainRound, RegisterVoterRequest, RegisterVoterResponse, RoundRow, VoterRegistrationRow,
};
use crate::routes::rounds::{fetch_round, missing_round, registration_phase};
use crate::soroban_client::{hash_is_read, is_read, relay_result, CliCall, ProcessOutput, Relayed};
use crate::state::AppStateInner;
use crate::text::{copy_or_empty, optional_text, same_text, text_or_empty, utf8_lossy};
use vstd::prelude::*;
use vstd::string::*;

verus! {

/// Why a registration is not relayed, if it is not: there is no such round, or it is not accepting
/// registrations.
pub open spec fn registration_refusal(
    found: Result<Option<RoundRow>, String>,
    round_id: i64,
) -> Option<AppErrorView> {
    match found {
        Ok(Some(round)) => if round.phase@ != registration_phase() {
            Some(
                AppErrorView::Conflict(
                    "round "@ + integer_text(round_id as int)
                        + " is not accepting registrations (phase = "@ + round.phase@ + ")"@,
                ),
            )
        } else {
            None
        },
        _ => missing_round(round_id, found),
    }
}

/// Relays a voter's already-signed `register` transaction, from what the database returned for its
/// round. This backend never builds or signs it.
pub fn register(
    state: &AppStateInner,
    found: Result<Option<RoundRow>, String>,
    req: &RegisterVoterRequest,
) -> (r: Result<CliCall, AppError>)
    ensures
        match r {
            Ok(call) => registration_refusal(found, req.round_id) is None && call@
                == state.soroban@.relay_call(req.signed_xdr@),
            Err(e) => registration_refusal(found, req.round_id) == Some(e@),
        },
{
    let round = fetch_round(req.round_id, found)?;
    if !same_text(round.phase.as_str(), "registration") {
        let mut out = "round ".to_owned();
        out.append(i64_text(req.round_id).as_str());
        out.append(" is not accepting registrations (phase = ");
        out.append(round.phase.as_str());
        out.append(")");
        return Err(AppError::Conflict(out));
    }
    Ok(state.soroban.relay_signed_xdr(req.signed_xdr.as_str()))
}

/// What became of a relayed registration, from what the system returned of the call.
pub fn registration_relayed(
    state: &AppStateInner,
    output: Result<ProcessOutput, String>,
) -> (r: Result<Relayed, AppError>)
    ensures
        is_read(output),
        output matches Ok(o) ==> hash_is_read(utf8_lossy(o.stderr@)) && hash_is_read(
            utf8_lossy(o.stdout@),
        ),
        match relay_result(state.soroban@.cli_path, output) {
            Ok(tx_hash) => r matches Ok(relayed) && optional_text(relayed.tx_hash) == tx_hash,
            Err(e) => r matches Err(f) && f@ == AppErrorView::Soroban(e),
        },
{
    match state.soroban.relayed(output) {
        Err(e) => Err(AppError::Soroban(e)),
        Ok(relayed) => Ok(relayed),
    }
}

/// The leaf of the voter who registered last, of `registered_count`, in 32 bits.
pub open spec fn last_leaf(registered_count: u32) -> i32 {
    (if registered_count == 0 {
        0u32
    } else {
        (registered_count - 1) as u32
    }) as i32
}

/// The leaf of the voter who registered last.
pub fn leaf_index(registered_count: u32) -> (r: i32)
    ensures
        r == last_leaf(registered_count),
{
    let last: u32 = if registered_count == 0 {
        0
    } else {
        registered_count - 1
    };
    #[verifier::truncate] (last as i32)
}

/// The leaf of the voter who registered last is the last of the tree's leaves.
pub proof fn last_leaf_is_in_the_tree(registered_count: u32)
    requires
        1 <= registered_count <= i32::MAX,
    ensures
        last_leaf(registered_count) == registered_count - 1,
        0 <= last_leaf(registered_count) < registered_count,
{
}

/// A registration to record.
#[derive(Debug)]
pub struct NewRegistration {
    pub round_id: i64,
    pub voter_address: String,
    pub leaf_index: i32,
    pub commitment_hex: String,
    pub register_tx_hash: String,
}

/// What is recorded of a registration, from the round on the chain after it.
pub fn registration_record(
    req: &RegisterVoterRequest,
    onchain: &OnChainRound,
    tx_hash: &Option<String>,
) -> (r: NewRegistration)
    ensures
        r.round_id == req.round_id,
        r.voter_address@ == req.voter@,
        r.leaf_index == last_leaf(onchain.registered_count),
        r.commitment_hex@ == req.commitment_hex@,
        r.register_tx_hash@ == text_or_empty(optional_text(*tx_hash)),
{
    NewRegistration {
        round_id: req.round_id,
        voter_address: req.voter.clone(),
        leaf_index: leaf_index(onchain.registered_count),
        commitment_hex: req.commitment_hex.clone(),
        register_tx_hash: copy_or_empty(tx_hash),
    }
}

/// The answer to a registration, from the row that was recorded.
pub fn registration_response(
    req: RegisterVoterRequest,
    row: VoterRegistrationRow,
    tx_hash: Option<String>,
) -> (r: RegisterVoterResponse)
    ensures
        r.round_id == req.round_id,
        r.voter == req.voter,
        r.leaf_index == row.leaf_index,
        r.commitment_hex == row.commitment_hex,
        r.tx_hash == tx_hash,
{
    RegisterVoterResponse {
        round_id: req.round_id,
        voter: req.voter,
        leaf_index: row.leaf_index,
        commitment_hex: row.commitment_hex,
        tx_hash,
    }
}

} // verus!
