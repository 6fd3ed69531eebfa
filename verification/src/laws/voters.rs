//! Registrations.
use crate::error::AppError;
use crate::laws::client::{forwards, hash_is_found, names_hash, names_no_hash, relay_words};
use crate::laws::left;
use crate::models::{
    OnChainRound, RegisterVoterRequest, RegisterVoterResponse, RoundRow, VoterRegistrationRow,
};
use crate::routes::voters::{
    leaf_index, register, registration_record, registration_relayed, registration_response,
    NewRegistration,
};
use crate::soroban_client::{CliCall, ProcessOutput, Relayed, SorobanClient, SorobanError};
use crate::state::AppStateInner;
use crate::text::optional_text;
use vstd::prelude::*;
use vstd::string::*;

verus! {

/// A registration is relayed just where its round is there and in registration; otherwise it is
/// refused with the reason.
pub proof fn registrations_are_taken_in_registration(
    state: &AppStateInner,
    found: Result<Option<RoundRow>, String>,
    req: &RegisterVoterRequest,
    r: Result<CliCall, AppError>,
)
    requires
        call_ensures(register, (state, found, req), r),
    ensures
        match found {
            Ok(Some(round)) => if round.phase@ == "registration"@ {
                r is Ok
            } else {
                r matches Err(AppError::Conflict(_))
            },
            Ok(None) => r matches Err(AppError::NotFound(_)),
            Err(m) => r matches Err(AppError::Db(s)) && s@ == m@,
        },
{
}

/// A registration is relayed as the voter signed it.
pub proof fn registration_is_forwarded(
    state: &AppStateInner,
    found: Result<Option<RoundRow>, String>,
    req: &RegisterVoterRequest,
    call: CliCall,
)
    requires
        call_ensures(register, (state, found, req), Ok::<CliCall, AppError>(call)),
    ensures
        forwards(call, state.soroban@, req.signed_xdr@),
{
    relay_words(call, state.soroban@, req.signed_xdr@);
}

/// A voter gets the last of the leaves, and the first where the tree is empty.
pub proof fn voter_gets_the_last_leaf(registered_count: u32, r: i32)
    requires
        call_ensures(leaf_index, (registered_count,), r),
    ensures
        0 < registered_count <= 0x8000_0000 ==> r == registered_count - 1,
        registered_count > 0x8000_0000 ==> r == registered_count - 1 - 0x1_0000_0000,
        registered_count == 0 ==> r == 0,
{
    if registered_count > 0 {
        let last: u32 = (registered_count - 1) as u32;
        assert(last >= 0x8000_0000 ==> (last as i32) == last - 0x1_0000_0000) by (bit_vector);
    }
}

/// A registration is recorded as it was requested, with the last leaf and with its transaction.
pub proof fn registration_is_recorded(
    req: &RegisterVoterRequest,
    onchain: &OnChainRound,
    tx_hash: &Option<String>,
    r: NewRegistration,
)
    requires
        call_ensures(registration_record, (req, onchain, tx_hash), r),
        onchain.registered_count <= 0x8000_0000,
    ensures
        r.round_id == req.round_id,
        r.voter_address@ == req.voter@,
        r.commitment_hex@ == req.commitment_hex@,
        onchain.registered_count > 0 ==> r.leaf_index == onchain.registered_count - 1,
        onchain.registered_count == 0 ==> r.leaf_index == 0,
        tx_hash matches Some(hash) ==> r.register_tx_hash@ == hash@,
        tx_hash is None ==> r.register_tx_hash@.len() == 0,
{
    reveal_strlit("");
}

/// The answer to a registration is what was requested and what was recorded.
pub proof fn registration_is_answered(
    req: RegisterVoterRequest,
    row: VoterRegistrationRow,
    tx_hash: Option<String>,
    r: RegisterVoterResponse,
)
    requires
        call_ensures(registration_response, (req, row, tx_hash), r),
    ensures
        r.round_id == req.round_id,
        r.voter@ == req.voter@,
        r.leaf_index == row.leaf_index,
        r.commitment_hex@ == row.commitment_hex@,
        r.tx_hash == tx_hash,
{
}

/// A relayed registration gives the hash that its call named.
pub proof fn relayed_registration_gives_its_hash(
    state: &AppStateInner,
    o: ProcessOutput,
    stdout: Seq<char>,
    stderr: Seq<char>,
    before: Seq<char>,
    hash: Seq<char>,
    after: Seq<char>,
    r: Result<Relayed, AppError>,
)
    requires
        call_ensures(registration_relayed, (state, Ok::<ProcessOutput, String>(o)), r),
        left(o, true, stdout, stderr),
    ensures
        r is Ok,
        names_hash(stderr, before, hash, after) ==> (r->Ok_0.tx_hash matches Some(h) && h@ == hash),
        names_no_hash(stderr) && names_hash(stdout, before, hash, after) ==> (
        r->Ok_0.tx_hash matches Some(h) && h@ == hash),
        names_no_hash(stderr) && names_no_hash(stdout) ==> r->Ok_0.tx_hash is None,
{
    hash_is_found(stderr, before, hash, after);
    hash_is_found(stdout, before, hash, after);
}

/// A relayed registration that failed is told.
pub proof fn failed_registration_is_told(
    state: &AppStateInner,
    output: Result<ProcessOutput, String>,
    r: Result<Relayed, AppError>,
)
    requires
        call_ensures(registration_relayed, (state, output), r),
    ensures
        output is Err ==> (r matches Err(e) && e is Soroban),
        output matches Ok(o) ==> (!o.success ==> (r matches Err(e) && e is Soroban)),
{
}

/// What the client made of the call that relays a registration decides what becomes of it, and its
/// error is told.
pub proof fn relaying_follows_the_client(
    state: &AppStateInner,
    output: Result<ProcessOutput, String>,
    read: Result<Relayed, SorobanError>,
    r: Result<Relayed, AppError>,
)
    requires
        call_ensures(SorobanClient::relayed, (&state.soroban, output), read),
        call_ensures(registration_relayed, (state, output), r),
    ensures
        match read {
            Ok(relayed) => r matches Ok(s) && optional_text(s.tx_hash) == optional_text(
                relayed.tx_hash,
            ),
            Err(e) => r matches Err(AppError::Soroban(f)) && f@ == e@,
        },
{
}

} // verus!
