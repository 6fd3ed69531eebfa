//! Ballots, from the request to the command line that submits them.
use crate::decimal::integer_text;
use crate::error::AppError;
use crate::field::{be_bytes_unique, hex_encoded_is_plain, hex_number, hex_text, poseidon2_hash};
use crate::hexadecimal::{all_hex_chars, hex_encoded, is_hex_char};
use crate::json::{json_quoted, json_unit};
use crate::laws::client::{
    gives_hash, hash_is_found, null_line, sent, sent_name, sent_value, sent_words,
};
use crate::laws::numbers::{
    begins_0x, bytes_are_worth, bytes_worth, digit_worth, hex_number_is_worth, hex_only, hex_worth,
    other_texts_are_no_number, prefix_is_taken_off, prefixed, rest_is_left, spells,
};
use crate::laws::proofs::{nullifier_of_witness_text, solves};
use crate::laws::rounds::{
    round_is_asked_for_by_its_number, round_is_the_first_argument, sends_round, unsigned,
};
use crate::laws::texts::{alike_is_same_letters, any_prefixed, any_rest_is_left, same_letter};
use crate::laws::{
    decimal_is_number, digits_only, in_quotes, is_number, left, plain, plain_is_quoted, value,
};
use crate::models::{
    BallotRow, CastVoteRequest, CastVoteResponse, OnChainRound, ProofDto, ProveWitnessRequest,
    RoundRow,
};
use crate::proof_service::{nullifier_hash, write_prover_toml, ProofJob};
use crate::routes::rounds::{chain_id, round_args};
use crate::routes::votes::{
    accepted_nullifier_is_expected, ballot_record, cast_vote, check_nullifier, hex_eq, hex_matches,
    vote_response, Ballot, CheckedBallot, NewBallot, ProvedBallot, UnprovedBallot,
};
use crate::soroban_client::{
    hex_bytes, proof_json, spells_hex, Arg, CliCall, Invoked, ProcessOutput, SorobanClient,
    SorobanError,
};
use crate::state::AppStateInner;
use crate::text::{
    ascii_lower, ascii_lowercase, lowercase, optional_text, without_any_hex_prefix,
    without_hex_prefix,
};
use vstd::prelude::*;
use vstd::string::*;
use vstd::utf8::is_ascii_chars;

verus! {

// ---------------------------------------------------------------------
// Whether a ballot is taken
// ---------------------------------------------------------------------
/// A ballot is taken just where its round is there and open for voting, its choice is one of the
/// round's, and it holds exactly one of a proof and a witness. It is taken as it was cast.
pub proof fn ballots_are_taken_as_cast(
    found: Result<Option<RoundRow>, String>,
    req: &CastVoteRequest,
    r: Result<Ballot, AppError>,
)
    requires
        call_ensures(cast_vote, (found, req), r),
    ensures
        match found {
            Ok(Some(round)) => if round.phase@ != "voting"@ {
                r matches Err(AppError::Conflict(_))
            } else if req.choice < 0 || req.choice >= round.num_choices {
                r matches Err(AppError::BadRequest(_))
            } else if req.proof is Some && req.witness is None {
                r matches Ok(Ballot::Proved(b)) && b.req() == *req && Some(b.dto()) == req.proof
            } else if req.proof is None && req.witness is Some {
                r matches Ok(Ballot::Unproved(b)) && b.req() == *req && Some(b.witness())
                    == req.witness
            } else {
                r matches Err(AppError::BadRequest(_))
            },
            Ok(None) => r matches Err(AppError::NotFound(_)),
            Err(m) => r matches Err(AppError::Db(s)) && s@ == m@,
        },
{
}

// ---------------------------------------------------------------------
// The submission
// ---------------------------------------------------------------------
/// Whether a text is hexadecimal digits, as they are or with `0x` or `0X` before them.
pub open spec fn names_digits(text: Seq<char>, digits: Seq<char>) -> bool {
    &&& hex_only(digits)
    &&& text == digits || text == seq!['0', 'x'] + digits || text == seq!['0', 'X'] + digits
}

/// Whether a word is hexadecimal digits in lowercase.
pub open spec fn lowers(word: Seq<char>, digits: Seq<char>) -> bool {
    &&& word.len() == digits.len()
    &&& forall|i: int|
        0 <= i < word.len() ==> digit_worth(#[trigger] word[i]) == digit_worth(digits[i]) && ('0'
            <= word[i] <= '9' || 'a' <= word[i] <= 'f')
}

/// Bytes in hexadecimal are an argument of their digits in lowercase, without a `0x`.
pub proof fn hexadecimal_argument_is_its_digits(
    name: &str,
    text: &str,
    digits: Seq<char>,
    arg: Arg,
)
    requires
        call_ensures(hex_bytes, (name, text), arg),
        names_digits(text@, digits),
    ensures
        arg.0@ == name@,
        lowers(arg.1@, digits),
{
    lowered(digits);
    assert(all_hex_chars(digits)) by {
        assert forall|i: int| 0 <= i < digits.len() implies is_hex_char(#[trigger] digits[i]) by {}
    }
    assert(spells_hex(text@, digits));
    assert(arg@.1 == ascii_lowercase(digits));
}

proof fn lowered(digits: Seq<char>)
    requires
        hex_only(digits),
    ensures
        lowers(ascii_lowercase(digits), digits),
{
    let word = ascii_lowercase(digits);
    assert forall|i: int| 0 <= i < word.len() implies digit_worth(#[trigger] word[i])
        == digit_worth(digits[i]) && ('0' <= word[i] <= '9' || 'a' <= word[i] <= 'f') by {
        assert(word[i] == ascii_lower(digits[i]));
        let c = digits[i];
        assert('0' <= c <= '9' || 'a' <= c <= 'f' || 'A' <= c <= 'F');
    }
}

/// Whether a word is a text in lowercase.
pub open spec fn lowers_text(word: Seq<char>, text: Seq<char>) -> bool {
    &&& word.len() == text.len()
    &&& forall|i: int|
        0 <= i < word.len() ==> same_letter(#[trigger] word[i], text[i]) && !('A' <= word[i]
            <= 'Z')
}

/// Whether a text begins with `0x` or `0X`.
pub open spec fn begins_any_0x(s: Seq<char>) -> bool {
    s.len() >= 2 && s[0] == '0' && (s[1] == 'x' || s[1] == 'X')
}

/// A proof as an object of its three points.
pub open spec fn object(p: ProofDto) -> Seq<char> {
    "{\"a\":"@ + in_quotes(p.a@) + ",\"b\":"@ + in_quotes(p.b@) + ",\"c\":"@ + in_quotes(p.c@)
        + "}"@
}

/// A ballot is submitted by a call that names its round, its choice in decimal, the digits of its
/// nullifier and its proof, and nothing else.
pub proof fn ballot_is_submitted_as_cast(
    ballot: &ProvedBallot,
    state: &AppStateInner,
    digits: Seq<char>,
    call: CliCall,
)
    requires
        call_ensures(ProvedBallot::submit, (ballot, state), call),
    ensures
        sent(call, state.soroban@, "cast_vote"@, 4),
        sends_round(call, *state, 0, ballot.req().round_id),
        sent_name(call, state.soroban@, 1) == "--"@ + "choice"@,
        is_number(sent_value(call, state.soroban@, 1), ballot.req().choice as int),
        sent_name(call, state.soroban@, 2) == "--"@ + "nullifier"@,
        names_digits(ballot.req().nullifier_hex@, digits) ==> lowers(
            sent_value(call, state.soroban@, 2),
            digits,
        ),
        is_ascii_chars(ballot.req().nullifier_hex@) && any_prefixed(
            ballot.req().nullifier_hex@,
            digits,
        ) && !begins_any_0x(digits) ==> lowers_text(sent_value(call, state.soroban@, 2), digits),
        sent_name(call, state.soroban@, 3) == "--"@ + "proof"@,
        sent_value(call, state.soroban@, 3) == "{\"a\":"@ + json_quoted(ballot.dto().a@)
            + ",\"b\":"@ + json_quoted(ballot.dto().b@) + ",\"c\":"@ + json_quoted(ballot.dto().c@)
            + "}"@,
        plain(ballot.dto().a@) && plain(ballot.dto().b@) && plain(ballot.dto().c@) ==> sent_value(
            call,
            state.soroban@,
            3,
        ) == object(ballot.dto()),
{
    let req = ballot.req();
    let nullifier = lowercase(without_any_hex_prefix(req.nullifier_hex@));
    let args = round_args(req.round_id) + seq![
        ("choice"@, integer_text(req.choice as u32 as int)),
        ("nullifier"@, nullifier),
        ("proof"@, proof_json(ballot.dto())),
    ];
    sent_words(call, state.soroban@, "cast_vote"@, args);
    round_is_the_first_argument(args, req.round_id);
    assert(req.choice as u32 == req.choice);
    decimal_is_number(req.choice as nat);
    assert(args[1] == ("choice"@, integer_text(req.choice as u32 as int)));
    assert(args[2] == ("nullifier"@, nullifier));
    assert(args[3] == ("proof"@, proof_json(ballot.dto())));
    if names_digits(req.nullifier_hex@, digits) {
        assert forall|i: int| 0 <= i < digits.len() implies is_hex_char(#[trigger] digits[i]) by {}
        assert(all_hex_chars(digits));
        assert(spells_hex(req.nullifier_hex@, digits));
        assert(nullifier == ascii_lowercase(digits));
        lowered(digits);
    }
    if is_ascii_chars(req.nullifier_hex@) && any_prefixed(req.nullifier_hex@, digits)
        && !begins_any_0x(digits) {
        any_rest_is_left(req.nullifier_hex@, digits);
        assert(nullifier == ascii_lowercase(digits));
        assert forall|i: int| 0 <= i < nullifier.len() implies same_letter(
            #[trigger] nullifier[i],
            digits[i],
        ) && !('A' <= nullifier[i] <= 'Z') by {
            assert(nullifier[i] == ascii_lower(digits[i]));
        }
    }
    if plain(ballot.dto().a@) && plain(ballot.dto().b@) && plain(ballot.dto().c@) {
        plain_is_quoted(ballot.dto().a@);
        plain_is_quoted(ballot.dto().b@);
        plain_is_quoted(ballot.dto().c@);
    }
}

/// The choice that is submitted is the choice that was cast, from the request with its proof to the
/// command line.
pub proof fn cast_choice_is_submitted(
    found: Result<Option<RoundRow>, String>,
    req: &CastVoteRequest,
    ballot: ProvedBallot,
    state: &AppStateInner,
    call: CliCall,
)
    requires
        call_ensures(
            cast_vote,
            (found, req),
            Ok::<Ballot, AppError>(Ballot::Proved(ballot)),
        ),
        call_ensures(ProvedBallot::submit, (&ballot, state), call),
    ensures
        is_number(sent_value(call, state.soroban@, 1), req.choice as int),
        value(sent_value(call, state.soroban@, 1)) == req.choice,
        sends_round(call, *state, 0, req.round_id),
{
    ballots_are_taken_as_cast(found, req, Ok(Ballot::Proved(ballot)));
    ballot_is_submitted_as_cast(&ballot, state, Seq::empty(), call);
}

/// The choice that is submitted is the choice that was cast, from the request with its witness to
/// the command line.
pub proof fn witnessed_choice_is_submitted(
    found: Result<Option<RoundRow>, String>,
    req: &CastVoteRequest,
    unproved: UnprovedBallot,
    checked: CheckedBallot,
    dto: ProofDto,
    ballot: ProvedBallot,
    state: &AppStateInner,
    call: CliCall,
)
    requires
        call_ensures(
            cast_vote,
            (found, req),
            Ok::<Ballot, AppError>(Ballot::Unproved(unproved)),
        ),
        call_ensures(
            UnprovedBallot::check_witness,
            (unproved,),
            Ok::<CheckedBallot, AppError>(checked),
        ),
        call_ensures(CheckedBallot::proved, (checked, dto), ballot),
        call_ensures(ProvedBallot::submit, (&ballot, state), call),
    ensures
        ballot.req() == *req,
        ballot.dto() == dto,
        Some(checked.witness()) == req.witness,
        is_number(sent_value(call, state.soroban@, 1), req.choice as int),
        sends_round(call, *state, 0, req.round_id),
{
    ballots_are_taken_as_cast(found, req, Ok(Ballot::Unproved(unproved)));
    ballot_is_submitted_as_cast(&ballot, state, Seq::empty(), call);
}

/// Ballots for different choices are submitted by different calls, and so are ballots for different
/// rounds.
pub proof fn different_ballots_are_submitted_differently(
    a: &ProvedBallot,
    b: &ProvedBallot,
    state: &AppStateInner,
    x: CliCall,
    y: CliCall,
)
    requires
        call_ensures(ProvedBallot::submit, (a, state), x),
        call_ensures(ProvedBallot::submit, (b, state), y),
    ensures
        a.req().choice != b.req().choice ==> sent_value(x, state.soroban@, 1) != sent_value(
            y,
            state.soroban@,
            1,
        ) && x.args@ != y.args@,
        a.req().round_id != b.req().round_id ==> sent_value(x, state.soroban@, 0) != sent_value(
            y,
            state.soroban@,
            0,
        ) && x.args@ != y.args@,
{
    ballot_is_submitted_as_cast(a, state, Seq::empty(), x);
    ballot_is_submitted_as_cast(b, state, Seq::empty(), y);
}

/// A ballot that was submitted is recorded as it was cast, with the transaction that its call
/// named, and one whose call failed is not.
pub proof fn submitted_ballot_is_recorded(
    ballot: &ProvedBallot,
    state: &AppStateInner,
    o: ProcessOutput,
    stderr: Seq<char>,
    before: Seq<char>,
    hash: Seq<char>,
    after: Seq<char>,
    r: Result<(NewBallot, Option<String>), AppError>,
)
    requires
        call_ensures(
            ProvedBallot::submitted,
            (ballot, state, Ok::<ProcessOutput, String>(o)),
            r,
        ),
    ensures
        left(o, true, "null\n"@, stderr) ==> {
            &&& r is Ok
            &&& r->Ok_0.0.round_id == ballot.req().round_id
            &&& r->Ok_0.0.nullifier_hex@ == ballot.req().nullifier_hex@
            &&& r->Ok_0.0.choice_index == ballot.req().choice
            &&& gives_hash(r->Ok_0.1, stderr, before, hash, after)
            &&& r->Ok_0.1 matches Some(h) ==> r->Ok_0.0.cast_vote_tx_hash@ == h@
            &&& r->Ok_0.1 is None ==> r->Ok_0.0.cast_vote_tx_hash@.len() == 0
        },
        !o.success ==> (r matches Err(e) && e is Soroban),
{
    null_line();
    reveal_strlit("");
    let parsed = |s: Seq<char>| json_unit(s);
    assert(parsed("null"@) == json_unit("null"@));
    if left(o, true, "null\n"@, stderr) {
        hash_is_found(stderr, before, hash, after);
    }
}

/// What the client made of the call that submits a ballot decides what becomes of the ballot, and
/// its error is told.
pub proof fn submission_follows_the_client(
    ballot: &ProvedBallot,
    state: &AppStateInner,
    output: Result<ProcessOutput, String>,
    read: Result<Invoked<()>, SorobanError>,
    r: Result<(NewBallot, Option<String>), AppError>,
)
    requires
        call_ensures(SorobanClient::invoked_unit, (&state.soroban, output), read),
        call_ensures(ProvedBallot::submitted, (ballot, state, output), r),
    ensures
        match read {
            Ok(i) => r is Ok && r->Ok_0.0.choice_index == ballot.req().choice && optional_text(
                r->Ok_0.1,
            ) == optional_text(i.tx_hash),
            Err(e) => r matches Err(AppError::Soroban(f)) && f@ == e@,
        },
{
}

/// What is recorded of a ballot is its round, its nullifier, its choice and its transaction.
pub proof fn record_is_the_ballot(req: &CastVoteRequest, tx_hash: &Option<String>, r: NewBallot)
    requires
        call_ensures(ballot_record, (req, tx_hash), r),
    ensures
        r.round_id == req.round_id,
        r.nullifier_hex@ == req.nullifier_hex@,
        r.choice_index == req.choice,
        tx_hash matches Some(hash) ==> r.cast_vote_tx_hash@ == hash@,
        tx_hash is None ==> r.cast_vote_tx_hash@.len() == 0,
{
    reveal_strlit("");
}

/// The answer to a ballot is what was recorded of it.
pub proof fn ballot_is_answered(
    req: &CastVoteRequest,
    row: BallotRow,
    tx_hash: Option<String>,
    r: CastVoteResponse,
)
    requires
        call_ensures(vote_response, (req, row, tx_hash), r),
    ensures
        r.round_id == req.round_id,
        r.choice == row.choice_index,
        r.nullifier_hex@ == row.nullifier_hex@,
        r.tx_hash == tx_hash,
{
}

// ---------------------------------------------------------------------
// The witness
// ---------------------------------------------------------------------
proof fn matching_digits(a: Seq<char>, b: Seq<char>, x: Seq<char>, y: Seq<char>)
    requires
        spells(a, x),
        spells(b, y),
    ensures
        hex_matches(a, b) <==> x.len() == y.len() && forall|i: int|
            0 <= i < x.len() ==> digit_worth(#[trigger] x[i]) == digit_worth(y[i]),
{
    prefix_is_taken_off(a, x);
    prefix_is_taken_off(b, y);
    let (u, v) = (ascii_lowercase(x), ascii_lowercase(y));
    if u == v {
        assert(u.len() == x.len() && v.len() == y.len());
        assert forall|i: int| 0 <= i < x.len() implies digit_worth(#[trigger] x[i]) == digit_worth(
            y[i],
        ) by {
            assert(u[i] == v[i]);
            assert(ascii_lower(x[i]) == ascii_lower(y[i]));
            let c = y[i];
            assert('0' <= c <= '9' || 'a' <= c <= 'f' || 'A' <= c <= 'F');
        }
    }
    if x.len() == y.len() && forall|i: int|
        0 <= i < x.len() ==> digit_worth(#[trigger] x[i]) == digit_worth(y[i]) {
        assert forall|i: int| 0 <= i < u.len() implies u[i] == v[i] by {
            assert(digit_worth(x[i]) == digit_worth(y[i]));
            let c = y[i];
            assert('0' <= c <= '9' || 'a' <= c <= 'f' || 'A' <= c <= 'F');
            assert(ascii_lower(x[i]) == ascii_lower(y[i]));
        }
        assert(u =~= v);
    }
}

/// Hexadecimal digits are the same just where they are as many and each is worth the same, whatever
/// their case and with or without a `0x` before them; a nullifier is accepted just where it is the
/// same.
pub proof fn digits_are_compared_by_worth(
    a: &str,
    b: &str,
    x: Seq<char>,
    y: Seq<char>,
    r: bool,
    checked: Result<(), AppError>,
)
    requires
        call_ensures(hex_eq, (a, b), r),
        call_ensures(check_nullifier, (a, b), checked),
        spells(a@, x),
        spells(b@, y),
    ensures
        r <==> x.len() == y.len() && forall|i: int|
            0 <= i < x.len() ==> digit_worth(#[trigger] x[i]) == digit_worth(y[i]),
        checked is Ok <==> r,
        checked matches Err(e) ==> e is BadRequest,
{
    matching_digits(a@, b@, x, y);
}

/// Texts are the same just where they are so character by character after their `0x`, up to the
/// case of their letters.
pub proof fn texts_are_compared_by_character(
    a: &str,
    b: &str,
    x: Seq<char>,
    y: Seq<char>,
    r: bool,
)
    requires
        call_ensures(hex_eq, (a, b), r),
        prefixed(a@, x),
        prefixed(b@, y),
        !begins_0x(x),
        !begins_0x(y),
    ensures
        r <==> x.len() == y.len() && forall|i: int|
            0 <= i < x.len() ==> same_letter(#[trigger] x[i], y[i]),
{
    rest_is_left(a@, x);
    rest_is_left(b@, y);
    alike_is_same_letters(x, y);
}

/// A witness is accepted just where the nullifier of the ballot is worth the hash of the witness's
/// secret and the ballot's round, in 64 digits; the ballot goes on as it was cast.
pub proof fn right_nullifiers_are_accepted(
    ballot: UnprovedBallot,
    digits: Seq<char>,
    secret: Seq<u8>,
    round: Seq<u8>,
    given: Seq<char>,
    r: Result<CheckedBallot, AppError>,
)
    requires
        call_ensures(UnprovedBallot::check_witness, (ballot,), r),
        secret.len() == 32,
        ({
            let text = ballot.witness().secret@;
            text.len() > 0 && digits_only(text) && bytes_worth(secret) == value(text) || spells(
                text,
                digits,
            ) && text != digits && digits.len() <= 64 && bytes_worth(secret) == hex_worth(digits)
        }),
        round.len() == 32,
        bytes_worth(round) == unsigned(ballot.req().round_id),
        prefixed(ballot.req().nullifier_hex@, given),
        !begins_0x(given),
    ensures
        r is Ok <==> hex_only(given) && given.len() == 64 && hex_worth(given) == bytes_worth(
            poseidon2_hash(seq![secret, round]),
        ),
        r matches Ok(checked) ==> checked.req() == ballot.req() && checked.witness()
            == ballot.witness() && checked.round() == ballot.round(),
        r matches Err(e) ==> e is BadRequest,
{
    let id = chain_id(ballot.req().round_id);
    let text = ballot.req().nullifier_hex@;
    round_is_asked_for_by_its_number(ballot.req().round_id);
    nullifier_of_witness_text(ballot.witness().secret@, id, digits, secret, round);
    let hash = nullifier_hash(secret, id);
    assert(hash.len() == 32);
    rest_is_left(text, given);
    let expected = hex_text(hash);
    let want = hex_encoded(hash);
    hex_encoded_is_plain(hash);
    reveal_strlit("0x");
    assert(expected.skip(2) =~= want);
    assert(without_hex_prefix(expected) == want);
    assert(ascii_lowercase(want).len() == 64);
    assert(ascii_lowercase(given).len() == given.len());
    if hex_matches(expected, text) {
        assert forall|i: int| 0 <= i < given.len() implies '0' <= #[trigger] given[i] <= '9' || 'a'
            <= given[i] <= 'f' || 'A' <= given[i] <= 'F' by {
            assert(ascii_lowercase(given)[i] == ascii_lowercase(want)[i]);
            assert(ascii_lower(given[i]) == ascii_lower(want[i]));
            let b = hash[i / 2] as int;
            assert(0 <= b / 16 < 16 && 0 <= b % 16 < 16);
        }
        assert(hex_only(given));
    }
    if hex_only(given) && given.len() == 64 {
        accepted_nullifier_is_expected(hash, text);
        hex_number_is_worth(text, given);
        let b = hex_number(text)->0;
        if bytes_worth(b) == bytes_worth(hash) {
            bytes_are_worth(b);
            bytes_are_worth(hash);
            be_bytes_unique(b);
            be_bytes_unique(hash);
        }
    }
}

/// A witness whose secret cannot be read is refused.
pub proof fn unread_secrets_are_refused(
    ballot: UnprovedBallot,
    rest: Seq<char>,
    r: Result<CheckedBallot, AppError>,
)
    requires
        call_ensures(UnprovedBallot::check_witness, (ballot,), r),
        prefixed(ballot.witness().secret@, rest),
        !begins_0x(rest),
        !hex_only(rest),
    ensures
        r matches Err(e) && e is Proof,
{
    other_texts_are_no_number(ballot.witness().secret@, rest);
}

/// The proof of a ballot is of its own witness, nullifier, round and choice against the root that
/// the chain holds, with the tools that are configured.
pub proof fn ballot_is_proved_as_cast(
    ballot: &CheckedBallot,
    state: &AppStateInner,
    bb_found: bool,
    onchain: &OnChainRound,
    witness: &ProveWitnessRequest,
    root: &str,
    nullifier: &str,
    round_id: u64,
    choice: u32,
    written: String,
    r: Result<ProofJob, AppError>,
)
    requires
        call_ensures(CheckedBallot::prove, (ballot, state, bb_found, onchain), r),
        *witness == ballot.witness(),
        root@ == onchain.merkle_root@,
        nullifier@ == ballot.req().nullifier_hex@,
        round_id == unsigned(ballot.req().round_id),
        choice == ballot.req().choice,
        call_ensures(write_prover_toml, (witness, root, nullifier, round_id, choice), written),
    ensures
        r is Ok <==> state.proof_service@.bb_path is Some && bb_found && witness.merkle_path@.len()
            == 8 && witness.path_indices@.len() == 8,
        r matches Ok(job) ==> job.prover_toml@ == written@ && job.circuit_dir@
            == state.proof_service@.circuit_dir && Some(job.bb_path@)
            == state.proof_service@.bb_path && solves(job.solver, state.proof_service@.nargo_path),
        r matches Err(e) ==> e is Proof,
{
    round_is_asked_for_by_its_number(ballot.req().round_id);
    if let Ok(job) = r {
        let w = job.solver@.args;
        assert(w.len() == job.solver.args@.len());
        assert(forall|j: int| 0 <= j < w.len() ==> w[j] == (#[trigger] job.solver.args@[j])@);
    }
}

} // verus!
