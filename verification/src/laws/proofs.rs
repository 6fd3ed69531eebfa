//! Proofs, from the inputs of the solver to the points that are submitted, and the hashes.
use crate::decimal::integer_text;
use crate::field::{be_bytes_unique, hex_number, number, poseidon2_hash, FieldError};
use crate::hexadecimal::HexError;
use crate::json::{json_string_list, json_text_items, json_texts};
use crate::laws::numbers::{
    begins_0x, beyond_256_bits, bytes_are_worth, bytes_worth, hex_bytes_are_of_digits,
    hex_number_is_worth, hex_only, hex_text_writes, hex_worth, modulus_is_the_order,
    number_is_worth, order, other_texts_are_no_number, prefixed, rest_is_left,
    small_bytes_are_worth, spells, writes, zeros_are_worth_nothing,
};
use crate::laws::texts::{
    first_occurrence_is_replaced, is_word, nothing_else_is_replaced, spaced, spaced_words,
    starts_nowhere_before,
};
use crate::laws::{
    digits_only, encodes, in_quotes, is_number, number_is_decimal, plain, plain_is_quoted, value,
};
use crate::models::{ProofDto, ProveWitnessRequest};
use crate::proof_service::{
    bb_prove_args, field_digits, filled, groth16_proof, hex_to_u256, is_hashable, is_hashable_hex,
    joined, nullifier, read_groth16_proof, refuse_field, witness_nullifier, workspace_files,
    write_prover_toml, ProofJob, ProofService, ProofServiceError, WorkspaceFiles,
};
use crate::soroban_client::{CliCall, ProcessOutput};
use crate::text::{begins_with, replaced, texts, words};
use vstd::prelude::*;
use vstd::string::*;

verus! {

// ---------------------------------------------------------------------
// The points of a proof
// ---------------------------------------------------------------------
/// How many digits of a point a field element takes: 64, and more only where it has more.
pub open spec fn width(digits: Seq<char>) -> int {
    if digits.len() > 64 {
        digits.len() as int
    } else {
        64
    }
}

/// Whether the digits of a point from `from` on stand for a field element: they are worth as much,
/// and they end in its very digits, with nothing but zeros before. An element of 64 digits stands
/// there digit for digit.
pub open spec fn stands_at(point: Seq<char>, from: int, digits: Seq<char>) -> bool {
    let group = point.subrange(from, from + width(digits));
    let zeros = width(digits) - digits.len();
    &&& 0 <= from && from + width(digits) <= point.len()
    &&& hex_worth(group) == hex_worth(digits)
    &&& group.skip(zeros) == digits
    &&& forall|i: int| 0 <= i < zeros ==> (#[trigger] group[i]) == '0'
}

/// Whether a point holds just two field elements.
pub open spec fn holds_two(point: Seq<char>, x: Seq<char>, y: Seq<char>) -> bool {
    &&& point.len() == width(x) + width(y)
    &&& stands_at(point, 0, x)
    &&& stands_at(point, width(x), y)
}

/// Whether a proof holds eight field elements: the two coordinates of `a`, of `b` in two parts each
/// with the second part first, and of `c`.
pub open spec fn holds(p: ProofDto, f: Seq<Seq<char>>) -> bool {
    &&& holds_two(p.a@, f[0], f[1])
    &&& p.b@.len() == width(f[3]) + width(f[2]) + width(f[5]) + width(f[4])
    &&& stands_at(p.b@, 0, f[3])
    &&& stands_at(p.b@, width(f[3]), f[2])
    &&& stands_at(p.b@, width(f[3]) + width(f[2]), f[5])
    &&& stands_at(p.b@, width(f[3]) + width(f[2]) + width(f[5]), f[4])
    &&& holds_two(p.c@, f[6], f[7])
}

/// Whether a text is a field element, as it is or with `0x` before it, however often.
pub open spec fn is_element(text: Seq<char>, digits: Seq<char>) -> bool {
    prefixed(text, digits) && !begins_0x(digits)
}

/// A field element stands in a text wherever it was put.
proof fn element_stands(before: Seq<char>, text: Seq<char>, digits: Seq<char>, after: Seq<char>)
    requires
        is_element(text, digits),
    ensures
        field_digits(text).len() == width(digits),
        stands_at(before + field_digits(text) + after, before.len() as int, digits),
{
    rest_is_left(text, digits);
    let group = field_digits(text);
    let zeros = width(digits) - digits.len();
    let point = before + group + after;
    assert(group =~= Seq::new(zeros as nat, |i: int| '0') + digits);
    zeros_are_worth_nothing(zeros as nat, digits);
    assert(point.subrange(before.len() as int, before.len() + width(digits)) =~= group);
    assert(group.skip(zeros) =~= digits);
}

proof fn points_hold(p: ProofDto, f: Seq<Seq<char>>, digits: Seq<Seq<char>>)
    requires
        f.len() == 8,
        digits.len() == 8,
        crate::proof_service::is_proof_of(p, f),
        forall|i: int| 0 <= i < 8 ==> is_element(#[trigger] f[i], digits[i]),
    ensures
        holds(p, digits),
{
    let none = Seq::<char>::empty();
    let e = Seq::new(8, |i: int| field_digits(f[i]));
    assert(is_element(f[0], digits[0]) && is_element(f[1], digits[1]) && is_element(f[2], digits[2]) && is_element(
        f[3],
        digits[3],
    ) && is_element(f[4], digits[4]) && is_element(f[5], digits[5]) && is_element(f[6], digits[6]) && is_element(
        f[7],
        digits[7],
    ));
    element_stands(none, f[0], digits[0], e[1]);
    element_stands(e[0], f[1], digits[1], none);
    assert(none + e[0] + e[1] =~= p.a@);
    assert(e[0] + e[1] + none =~= p.a@);
    element_stands(none, f[3], digits[3], e[2] + e[5] + e[4]);
    element_stands(e[3], f[2], digits[2], e[5] + e[4]);
    element_stands(e[3] + e[2], f[5], digits[5], e[4]);
    element_stands(e[3] + e[2] + e[5], f[4], digits[4], none);
    assert(none + e[3] + (e[2] + e[5] + e[4]) =~= p.b@);
    assert(e[3] + e[2] + (e[5] + e[4]) =~= p.b@);
    assert((e[3] + e[2]) + e[5] + e[4] =~= p.b@);
    assert((e[3] + e[2] + e[5]) + e[4] + none =~= p.b@);
    element_stands(none, f[6], digits[6], e[7]);
    element_stands(e[6], f[7], digits[7], none);
    assert(none + e[6] + e[7] =~= p.c@);
    assert(e[6] + e[7] + none =~= p.c@);
}

/// Each group of digits of a proof stands for the same number as the field element at its place, as
/// it is or with `0x` before it, and nothing of an element is cut off. There are eight elements, or
/// there is no proof.
pub proof fn proof_holds_its_elements(
    fields_path: &str,
    fields: &Vec<String>,
    digits: Seq<Seq<char>>,
    r: Result<ProofDto, ProofServiceError>,
)
    requires
        call_ensures(groth16_proof, (fields_path, fields), r),
        digits.len() == fields@.len(),
        forall|i: int| 0 <= i < digits.len() ==> is_element((#[trigger] fields@[i])@, digits[i]),
    ensures
        r is Ok <==> fields@.len() == 8,
        r matches Ok(p) ==> holds(p, digits),
        r matches Err(e) ==> e is InvalidInput,
{
    if let Ok(p) = r {
        let f = texts(fields@);
        assert forall|i: int| 0 <= i < 8 implies is_element(#[trigger] f[i], digits[i]) by {
            assert(f[i] == fields@[i]@);
        }
        points_hold(p, f, digits);
    }
}

/// A proof of elements of at most 64 digits has points of 64, 128 and 64 bytes, each of whose
/// groups of 64 digits is worth its element, and is the element where that has 64 digits.
pub proof fn groups_of_64_digits_are_the_elements(
    fields_path: &str,
    fields: &Vec<String>,
    digits: Seq<Seq<char>>,
    p: ProofDto,
    i: int,
)
    requires
        call_ensures(
            groth16_proof,
            (fields_path, fields),
            Ok::<ProofDto, ProofServiceError>(p),
        ),
        digits.len() == fields@.len(),
        forall|i: int| 0 <= i < digits.len() ==> is_element((#[trigger] fields@[i])@, digits[i]),
        forall|i: int| 0 <= i < digits.len() ==> (#[trigger] digits[i]).len() <= 64,
        0 <= i < 8,
    ensures
        p.a@.len() == 128,
        p.b@.len() == 256,
        p.c@.len() == 128,
        ({
            let group = if i < 2 {
                p.a@.subrange(64 * i, 64 * i + 64)
            } else if i == 2 {
                p.b@.subrange(64, 128)
            } else if i == 3 {
                p.b@.subrange(0, 64)
            } else if i == 4 {
                p.b@.subrange(192, 256)
            } else if i == 5 {
                p.b@.subrange(128, 192)
            } else {
                p.c@.subrange(64 * i - 384, 64 * i - 320)
            };
            &&& hex_worth(group) == hex_worth(digits[i])
            &&& digits[i].len() == 64 ==> group == digits[i]
        }),
{
    proof_holds_its_elements(fields_path, fields, digits, Ok(p));
    assert(digits[0].len() <= 64 && digits[1].len() <= 64 && digits[2].len() <= 64
        && digits[3].len() <= 64 && digits[4].len() <= 64 && digits[5].len() <= 64
        && digits[6].len() <= 64 && digits[7].len() <= 64);
    let (point, from) = if i < 2 {
        (p.a@, 64 * i)
    } else if i == 2 {
        (p.b@, 64)
    } else if i == 3 {
        (p.b@, 0)
    } else if i == 4 {
        (p.b@, 192)
    } else if i == 5 {
        (p.b@, 128)
    } else {
        (p.c@, 64 * i - 384)
    };
    assert(stands_at(point, from, digits[i]));
    let group = point.subrange(from, from + 64);
    if digits[i].len() == 64 {
        assert(group.skip(0) =~= group);
    }
}

/// The texts of a list in double quotes with a comma between each two.
pub open spec fn quoted_items(v: Seq<Seq<char>>) -> Seq<char>
    decreases v.len(),
{
    if v.len() == 0 {
        Seq::empty()
    } else if v.len() == 1 {
        in_quotes(v[0])
    } else {
        quoted_items(v.drop_last()) + seq![','] + in_quotes(v.last())
    }
}

proof fn quoted_items_are_json(v: Seq<Seq<char>>)
    requires
        forall|i: int| 0 <= i < v.len() ==> plain(#[trigger] v[i]),
    ensures
        quoted_items(v) == json_text_items(v),
    decreases v.len(),
{
    if v.len() > 0 {
        plain_is_quoted(v[v.len() - 1]);
        if v.len() > 1 {
            let init = v.drop_last();
            assert forall|i: int| 0 <= i < init.len() implies plain(#[trigger] init[i]) by {
                assert(init[i] == v[i]);
            }
            quoted_items_are_json(init);
        }
    }
}

/// The proof in the prover's output is made of all the field elements that are written there, in
/// order; there are eight, or there is no proof.
pub proof fn written_elements_make_the_proof(
    fields_path: &str,
    text: String,
    fields: Seq<Seq<char>>,
    digits: Seq<Seq<char>>,
    r: Result<ProofDto, ProofServiceError>,
)
    requires
        call_ensures(read_groth16_proof, (fields_path, Ok::<String, String>(text)), r),
        text@ == seq!['['] + quoted_items(fields) + seq![']'],
        digits.len() == fields.len(),
        forall|i: int| 0 <= i < digits.len() ==> plain(#[trigger] fields[i]),
        forall|i: int| 0 <= i < digits.len() ==> is_element(#[trigger] fields[i], digits[i]),
    ensures
        r is Ok <==> fields.len() == 8,
        r matches Ok(p) ==> holds(p, digits),
        r matches Err(e) ==> e is InvalidInput,
{
    quoted_items_are_json(fields);
    assert(text@ == json_texts(fields));
    if let Ok(p) = r {
        points_hold(p, fields, digits);
    }
}

/// The proof in the prover's output is made of what is read there, and what cannot be read is told.
pub proof fn read_elements_make_the_proof(
    fields_path: &str,
    text: String,
    fields: &Vec<String>,
    made: Result<ProofDto, ProofServiceError>,
    r: Result<ProofDto, ProofServiceError>,
)
    requires
        call_ensures(read_groth16_proof, (fields_path, Ok::<String, String>(text)), r),
        call_ensures(groth16_proof, (fields_path, fields), made),
    ensures
        json_string_list(text@) == Ok::<Seq<Seq<char>>, Seq<char>>(texts(fields@)) ==> match made {
            Ok(p) => r matches Ok(q) && q.a@ == p.a@ && q.b@ == p.b@ && q.c@ == p.c@,
            Err(e) => r matches Err(f) && f@ == e@,
        },
        json_string_list(text@) matches Err(m) ==> (r matches Err(
            ProofServiceError::InvalidInput(s),
        ) && s@ == "could not parse "@ + fields_path@ + ": "@ + m),
{
    assert(texts(fields@).len() == fields@.len());
}

/// What the system said where the prover's output could not be read is told.
pub proof fn unread_output_is_told(
    fields_path: &str,
    said: String,
    r: Result<ProofDto, ProofServiceError>,
)
    requires
        call_ensures(read_groth16_proof, (fields_path, Err::<String, String>(said)), r),
    ensures
        r matches Err(ProofServiceError::Spawn { program, source }) && program@ == "read "@
            + fields_path@ && source@ == said@,
{
}

// ---------------------------------------------------------------------
// The solver's input
// ---------------------------------------------------------------------
/// Words with a comma and a blank between each two.
pub open spec fn listed(v: Seq<Seq<char>>) -> Seq<char>
    decreases v.len(),
{
    if v.len() == 0 {
        Seq::empty()
    } else if v.len() == 1 {
        v[0]
    } else {
        listed(v.drop_last()) + ", "@ + v.last()
    }
}

proof fn listed_is_joined(v: Seq<Seq<char>>)
    ensures
        listed(v) == joined(v, ", "@),
    decreases v.len(),
{
    if v.len() > 1 {
        listed_is_joined(v.drop_last());
    }
}

/// Texts in double quotes.
pub open spec fn quoted(v: Seq<String>) -> Seq<Seq<char>> {
    Seq::new(v.len(), |i: int| in_quotes(v[i]@))
}

/// Truth values in words.
pub open spec fn in_words(v: Seq<bool>) -> Seq<Seq<char>> {
    Seq::new(
        v.len(),
        |i: int|
            if v[i] {
                "true"@
            } else {
                "false"@
            },
    )
}

/// `Prover.toml` holds the whole witness and the public inputs as they are, and the round and the
/// choice in decimal.
pub proof fn solver_gets_the_whole_witness(
    witness: &ProveWitnessRequest,
    merkle_root_hex: &str,
    nullifier_hex: &str,
    round_id: u64,
    choice: u32,
    round_word: Seq<char>,
    choice_word: Seq<char>,
    r: String,
)
    requires
        call_ensures(
            write_prover_toml,
            (witness, merkle_root_hex, nullifier_hex, round_id, choice),
            r,
        ),
        is_number(round_word, round_id as int),
        is_number(choice_word, choice as int),
    ensures
        r@ == "secret = \""@ + witness.secret@ + "\"\nmerkle_path = ["@ + listed(
            quoted(witness.merkle_path@),
        ) + "]\npath_indices = ["@ + listed(in_words(witness.path_indices@))
            + "]\nmerkle_root = \""@ + merkle_root_hex@ + "\"\nnullifier = \""@ + nullifier_hex@
            + "\"\nround_id = \""@ + round_word + "\"\nchoice = \""@ + choice_word + "\"\n"@,
{
    number_is_decimal(round_word, round_id as nat);
    number_is_decimal(choice_word, choice as nat);
    assert(integer_text(round_id as int) == round_word);
    assert(integer_text(choice as int) == choice_word);
    reveal_strlit("\"");
    let path = texts(witness.merkle_path@);
    let a = path.map_values(|s: Seq<char>| "\""@ + s + "\""@);
    assert(a.len() == quoted(witness.merkle_path@).len());
    assert forall|i: int| 0 <= i < a.len() implies a[i] == quoted(witness.merkle_path@)[i] by {
        assert(path[i] == witness.merkle_path@[i]@);
        assert(a[i] =~= in_quotes(path[i]));
    }
    assert(a =~= quoted(witness.merkle_path@));
    listed_is_joined(a);
    let b = witness.path_indices@.map_values(|b: bool| crate::soroban_client::bool_text(b));
    assert(b =~= in_words(witness.path_indices@));
    listed_is_joined(b);
}

// ---------------------------------------------------------------------
// The tools
// ---------------------------------------------------------------------
/// Whether a call is that of the solver at a path.
pub open spec fn solves(call: CliCall, nargo_path: Seq<char>) -> bool {
    let w = call.args@;
    &&& call.program@ == nargo_path
    &&& call.input is None
    &&& w.len() == 4
    &&& w[0]@ == "execute"@
    &&& w[1]@ == "witness"@
    &&& w[2]@ == "--prover-name"@
    &&& w[3]@ == "Prover"@
}

/// A proof is attempted just where a prover is configured and there, and the witness is as deep as
/// the tree; it is made with the tools that the service was given, of the witness that is written
/// for the solver.
pub proof fn proof_is_prepared_as_configured(
    circuit_dir: String,
    nargo_path: String,
    bb_path: Option<String>,
    service: &ProofService,
    bb_found: bool,
    witness: &ProveWitnessRequest,
    merkle_root_hex: &str,
    nullifier_hex: &str,
    round_id: u64,
    choice: u32,
    written: String,
    r: Result<ProofJob, ProofServiceError>,
)
    requires
        call_ensures(ProofService::new, (circuit_dir, nargo_path, bb_path), *service),
        call_ensures(
            ProofService::prove,
            (service, bb_found, witness, merkle_root_hex, nullifier_hex, round_id, choice),
            r,
        ),
        call_ensures(
            write_prover_toml,
            (witness, merkle_root_hex, nullifier_hex, round_id, choice),
            written,
        ),
    ensures
        bb_path is None ==> (r matches Err(ProofServiceError::Unavailable(m)) && m@
            == "BB_PATH is not configured on this backend"@),
        bb_path is Some && !bb_found ==> (r matches Err(ProofServiceError::Unavailable(m)) && m@
            == "BB_PATH does not name a prover binary"@),
        bb_path is Some && bb_found && (witness.merkle_path@.len() != 8
            || witness.path_indices@.len() != 8) ==> (r matches Err(
            ProofServiceError::InvalidInput(m),
        ) && m@ == "merkle_path and path_indices must both have exactly 8 entries"@),
        bb_path is Some && bb_found && witness.merkle_path@.len() == 8
            && witness.path_indices@.len() == 8 ==> (r matches Ok(job) && job.circuit_dir@
            == circuit_dir@ && job.bb_path@ == bb_path->0@ && solves(job.solver, nargo_path@)
            && job.prover_toml@ == written@),
{
    if let Ok(job) = r {
        let w = job.solver@.args;
        assert(w.len() == job.solver.args@.len());
        assert(forall|j: int| 0 <= j < w.len() ==> w[j] == (#[trigger] job.solver.args@[j])@);
    }
}

/// A service tells of its prover what it was given.
pub proof fn prover_is_as_configured(
    circuit_dir: String,
    nargo_path: String,
    bb_path: Option<String>,
    service: &ProofService,
    available: bool,
    path: Option<String>,
)
    requires
        call_ensures(ProofService::new, (circuit_dir, nargo_path, bb_path), *service),
        call_ensures(ProofService::is_proving_available, (service,), available),
        call_ensures(ProofService::prover_path, (service,), path),
    ensures
        available <==> bb_path is Some,
        path is Some <==> bb_path is Some,
        bb_path matches Some(p) ==> path->0@ == p@,
{
}

/// The files of a proof stand where the solver and the prover look for them.
pub proof fn files_stand_where_they_are_looked_for(files: WorkspaceFiles)
    requires
        call_ensures(workspace_files, (), files),
    ensures
        files.prover_toml@ == "Prover.toml"@,
        files.witness@ == "target/witness.gz"@,
        files.circuit@ == "target/anonvote.json"@,
        files.proof_dir@ == "proof"@,
        files.proof_fields@ == "proof/proof_fields.json"@,
{
    reveal_strlit("Prover");
    reveal_strlit(".toml");
    reveal_strlit("Prover.toml");
    reveal_strlit("target/");
    reveal_strlit("witness");
    reveal_strlit(".gz");
    reveal_strlit("target/witness.gz");
    reveal_strlit("proof");
    reveal_strlit("/proof_fields.json");
    reveal_strlit("proof/proof_fields.json");
    assert(files.prover_toml@ =~= "Prover.toml"@);
    assert(files.witness@ =~= "target/witness.gz"@);
    assert(files.proof_fields@ =~= "proof/proof_fields.json"@);
}

/// A tool that ended with success has done its part; one that did not is told by its standard
/// error, and one that could not be run by its path and what the system said.
pub proof fn tools_are_believed(
    job: &ProofJob,
    output: Result<ProcessOutput, String>,
    stderr: Seq<char>,
    solved: Result<(), ProofServiceError>,
    proved: Result<(), ProofServiceError>,
)
    requires
        call_ensures(ProofJob::solved, (job, output), solved),
        call_ensures(ProofJob::proved, (job, output), proved),
    ensures
        match output {
            Ok(o) => if o.success {
                solved is Ok && proved is Ok
            } else {
                encodes(o.stderr@, stderr) ==> (solved matches Err(
                    ProofServiceError::WitnessGeneration { stderr: a },
                ) && a@ == stderr) && (proved matches Err(ProofServiceError::Proving { stderr: b })
                    && b@ == stderr)
            },
            Err(said) => {
                &&& solved matches Err(ProofServiceError::Spawn { program: a, source: b }) && a@
                    == job.solver.program@ && b@ == said@
                &&& proved matches Err(ProofServiceError::Spawn { program: a, source: b }) && a@
                    == job.bb_path@ && b@ == said@
            },
        },
{
}

// ---------------------------------------------------------------------
// The prover's command line
// ---------------------------------------------------------------------
/// Without a template the prover is called for a Groth16 proof of the circuit and the witness.
pub proof fn prover_is_called_by_default(
    job: &ProofJob,
    circuit: &str,
    witness: &str,
    out: &str,
    call: CliCall,
)
    requires
        call_ensures(ProofJob::prover, (job, None::<&str>, circuit, witness, out), call),
    ensures
        call.program@ == job.bb_path@,
        call.input is None,
        call.args@.len() == 9,
        call.args@[0]@ == "prove"@,
        call.args@[1]@ == "--scheme"@,
        call.args@[2]@ == "groth16"@,
        call.args@[3]@ == "-b"@,
        call.args@[4]@ == circuit@,
        call.args@[5]@ == "-w"@,
        call.args@[6]@ == witness@,
        call.args@[7]@ == "-o"@,
        call.args@[8]@ == out@,
{
    let w = call@.args;
    assert(w.len() == call.args@.len());
    assert(forall|j: int| 0 <= j < w.len() ==> w[j] == (#[trigger] call.args@[j])@);
}

/// Whether a text holds no opening brace.
pub open spec fn braceless(s: Seq<char>) -> bool {
    forall|i: int| 0 <= i < s.len() ==> (#[trigger] s[i]) != '{'
}

proof fn not_replaced(s: Seq<char>, n: int, p: Seq<char>)
    requires
        0 <= n <= s.len(),
        p.len() >= 2,
        p[0] == '{',
        forall|i: int|
            0 <= i < n ==> (#[trigger] s[i]) != '{' || (i + 1 < s.len() && s[i + 1] != p[1]),
    ensures
        starts_nowhere_before(s, n, p),
{
    assert forall|i: int| 0 <= i < n implies !begins_with(#[trigger] s.skip(i), p) by {
        let t = s.skip(i);
        assert(t[0] == s[i]);
        if t.len() >= p.len() {
            assert(t[1] == s[i + 1]);
            if begins_with(t, p) {
                assert(t.take(p.len() as int)[0] == p[0]);
                assert(t.take(p.len() as int)[1] == p[1]);
            }
        }
    }
}

/// A place for one path is filled by that path, and everything around it stays.
proof fn one_place_is_filled(
    before: Seq<char>,
    p: Seq<char>,
    after: Seq<char>,
    w: Seq<char>,
    others: Seq<Seq<char>>,
    i: int,
)
    requires
        braceless(before),
        braceless(after),
        braceless(w),
        p.len() >= 2,
        p[0] == '{',
        forall|k: int| 1 <= k < p.len() ==> (#[trigger] p[k]) != '{',
        0 <= i < others.len(),
        others[i].len() >= 2,
        others[i][0] == '{',
    ensures
        replaced(before + p + after, p, w) == before + w + after,
        others[i][1] != p[1] ==> forall|v: Seq<char>|
            #[trigger] replaced(before + p + after, others[i], v) == before + p + after,
        forall|v: Seq<char>|
            #[trigger] replaced(before + w + after, others[i], v) == before + w + after,
{
    let s = before + p + after;
    let n = before.len() as int;
    assert forall|k: int| 0 <= k < n implies (#[trigger] s[k]) != '{' by {
        assert(s[k] == before[k]);
    }
    not_replaced(s, n, p);
    first_occurrence_is_replaced(before, p, after, w);
    not_replaced(after, after.len() as int, p);
    nothing_else_is_replaced(after, p, w);
    let q = others[i];
    if q[1] != p[1] {
        assert forall|k: int| 0 <= k < s.len() implies (#[trigger] s[k]) != '{' || (k + 1 < s.len()
            && s[k + 1] != q[1]) by {
            if k < n {
                assert(s[k] == before[k]);
            } else if k < n + p.len() {
                assert(s[k] == p[k - n]);
                if k == n {
                    assert(s[k + 1] == p[1]);
                }
            } else {
                assert(s[k] == after[k - n - p.len()]);
            }
        }
        not_replaced(s, s.len() as int, q);
        assert forall|v: Seq<char>| #[trigger] replaced(s, q, v) == s by {
            nothing_else_is_replaced(s, q, v);
        }
    }
    let t = before + w + after;
    assert forall|k: int| 0 <= k < t.len() implies (#[trigger] t[k]) != '{' by {
        if k < n {
            assert(t[k] == before[k]);
        } else if k < n + w.len() {
            assert(t[k] == w[k - n]);
        } else {
            assert(t[k] == after[k - n - w.len()]);
        }
    }
    not_replaced(t, t.len() as int, q);
    assert forall|v: Seq<char>| #[trigger] replaced(t, q, v) == t by {
        nothing_else_is_replaced(t, q, v);
    }
}

/// With a template the prover is called with its words, in order, in which the places for the three
/// paths are filled and everything else stays.
pub proof fn template_is_filled_in(
    job: &ProofJob,
    template: &str,
    ws: Seq<Seq<char>>,
    circuit: &str,
    witness: &str,
    out: &str,
    before: Seq<char>,
    after: Seq<char>,
    i: int,
    call: CliCall,
)
    requires
        call_ensures(ProofJob::prover, (job, Some(template), circuit, witness, out), call),
        template@ == spaced(ws),
        forall|i: int| 0 <= i < ws.len() ==> is_word(#[trigger] ws[i]),
        braceless(circuit@),
        braceless(witness@),
        braceless(out@),
        braceless(before),
        braceless(after),
        0 <= i < ws.len(),
    ensures
        call.program@ == job.bb_path@,
        call.input is None,
        call.args@.len() == ws.len(),
        ws[i] == before + "{circuit}"@ + after ==> call.args@[i]@ == before + circuit@ + after,
        ws[i] == before + "{witness}"@ + after ==> call.args@[i]@ == before + witness@ + after,
        ws[i] == before + "{out}"@ + after ==> call.args@[i]@ == before + out@ + after,
        braceless(ws[i]) ==> call.args@[i]@ == ws[i],
{
    spaced_words(ws);
    let w = call@.args;
    assert(w.len() == call.args@.len());
    assert(w[i] == call.args@[i]@);
    assert(w[i] == filled(ws[i], circuit@, witness@, out@));
    reveal_strlit("{circuit}");
    reveal_strlit("{witness}");
    reveal_strlit("{out}");
    let others = seq!["{circuit}"@, "{witness}"@, "{out}"@];
    assert(others[0] == "{circuit}"@ && others[1] == "{witness}"@ && others[2] == "{out}"@);
    if ws[i] == before + "{circuit}"@ + after {
        one_place_is_filled(before, "{circuit}"@, after, circuit@, others, 1);
        one_place_is_filled(before, "{circuit}"@, after, circuit@, others, 2);
    }
    if ws[i] == before + "{witness}"@ + after {
        one_place_is_filled(before, "{witness}"@, after, witness@, others, 0);
        one_place_is_filled(before, "{witness}"@, after, witness@, others, 2);
    }
    if ws[i] == before + "{out}"@ + after {
        one_place_is_filled(before, "{out}"@, after, out@, others, 0);
        one_place_is_filled(before, "{out}"@, after, out@, others, 1);
    }
    if braceless(ws[i]) {
        not_replaced(ws[i], ws[i].len() as int, "{circuit}"@);
        not_replaced(ws[i], ws[i].len() as int, "{witness}"@);
        not_replaced(ws[i], ws[i].len() as int, "{out}"@);
        nothing_else_is_replaced(ws[i], "{circuit}"@, circuit@);
        nothing_else_is_replaced(ws[i], "{witness}"@, witness@);
        nothing_else_is_replaced(ws[i], "{out}"@, out@);
    }
}

// ---------------------------------------------------------------------
// Leaves and nullifiers
// ---------------------------------------------------------------------
/// Bytes that are worth the same are the same.
proof fn worth_is_unique(a: Seq<u8>, b: Seq<u8>)
    requires
        a.len() == b.len(),
        bytes_worth(a) == bytes_worth(b),
    ensures
        a == b,
{
    bytes_are_worth(a);
    bytes_are_worth(b);
    be_bytes_unique(a);
    be_bytes_unique(b);
}

/// A leaf is the hash of the one element that the secret's digits are worth, in hexadecimal. There
/// is one just where the digits are whole bytes, and no more than 32 of them.
pub proof fn leaf_is_the_hash_of_the_secret(
    service: &ProofService,
    secret_hex: &str,
    digits: Seq<char>,
    secret: Seq<u8>,
    r: Result<String, ProofServiceError>,
)
    requires
        call_ensures(ProofService::compute_leaf, (service, secret_hex), r),
        spells(secret_hex@, digits),
        secret.len() == 32,
        bytes_worth(secret) == hex_worth(digits),
    ensures
        r is Ok <==> digits.len() % 2 == 0 && digits.len() <= 64,
        r matches Ok(s) ==> writes(s@, poseidon2_hash(seq![secret])),
        r matches Err(e) ==> e is InvalidInput,
{
    hex_number_is_worth(secret_hex@, digits);
    if let Some(b) = hex_number(secret_hex@) {
        worth_is_unique(b, secret);
        hex_text_writes(poseidon2_hash(seq![secret]));
    }
}

/// A nullifier is the hash of the two elements that the secret's digits and the round's number are
/// worth, in hexadecimal.
pub proof fn nullifier_is_the_hash_of_secret_and_round(
    service: &ProofService,
    secret_hex: &str,
    round_id: u64,
    digits: Seq<char>,
    secret: Seq<u8>,
    round: Seq<u8>,
    r: Result<String, ProofServiceError>,
)
    requires
        call_ensures(ProofService::compute_nullifier, (service, secret_hex, round_id), r),
        spells(secret_hex@, digits),
        secret.len() == 32,
        bytes_worth(secret) == hex_worth(digits),
        round.len() == 32,
        bytes_worth(round) == round_id,
    ensures
        r is Ok <==> digits.len() % 2 == 0 && digits.len() <= 64,
        r matches Ok(s) ==> writes(s@, poseidon2_hash(seq![secret, round])),
        r matches Err(e) ==> e is InvalidInput,
{
    hex_number_is_worth(secret_hex@, digits);
    small_bytes_are_worth(round_id);
    worth_is_unique(crate::field::be_bytes(round_id as nat, 32), round);
    if let Some(b) = hex_number(secret_hex@) {
        worth_is_unique(b, secret);
        hex_text_writes(poseidon2_hash(seq![secret, round]));
    }
}

/// The nullifier of a witness is the hash of the two elements that the secret, in decimal or in
/// hexadecimal after a `0x`, and the round's number are worth.
pub proof fn witness_gives_the_same_nullifier(
    secret_text: &str,
    round_id: u64,
    digits: Seq<char>,
    secret: Seq<u8>,
    round: Seq<u8>,
    r: Result<String, ProofServiceError>,
)
    requires
        call_ensures(witness_nullifier, (secret_text, round_id), r),
        secret.len() == 32,
        secret_text@.len() > 0 && digits_only(secret_text@) && bytes_worth(secret) == value(
            secret_text@,
        ) || spells(secret_text@, digits) && secret_text@ != digits && digits.len() <= 64
            && bytes_worth(secret) == hex_worth(digits),
        round.len() == 32,
        bytes_worth(round) == round_id,
    ensures
        r matches Ok(s) && writes(s@, poseidon2_hash(seq![secret, round])),
{
    nullifier_of_witness_text(secret_text@, round_id, digits, secret, round);
    hex_text_writes(crate::proof_service::nullifier_hash(secret, round_id));
}

/// What a secret and a round are hashed as.
pub proof fn nullifier_of_witness_text(
    secret_text: Seq<char>,
    round_id: u64,
    digits: Seq<char>,
    secret: Seq<u8>,
    round: Seq<u8>,
)
    requires
        secret.len() == 32,
        secret_text.len() > 0 && digits_only(secret_text) && bytes_worth(secret) == value(
            secret_text,
        ) || spells(secret_text, digits) && secret_text != digits && digits.len() <= 64
            && bytes_worth(secret) == hex_worth(digits),
        round.len() == 32,
        bytes_worth(round) == round_id,
    ensures
        number(secret_text) == Some(secret),
        crate::proof_service::nullifier_hash(secret, round_id) == poseidon2_hash(
            seq![secret, round],
        ),
{
    number_is_worth(secret_text, digits);
    small_bytes_are_worth(round_id);
    worth_is_unique(crate::field::be_bytes(round_id as nat, 32), round);
    bytes_are_worth(secret);
    crate::field::be_value_bound(secret);
    crate::laws::numbers::bytes_of_256_bits();
    if let Some(b) = number(secret_text) {
        worth_is_unique(b, secret);
    }
}

/// A secret may be hashed just where what it is worth, if it is read at all, is below the order of
/// the field.
pub proof fn secrets_in_the_field_are_hashed(
    text: &str,
    digits: Seq<char>,
    r: bool,
    hex: bool,
)
    requires
        call_ensures(is_hashable, (text,), r),
        call_ensures(is_hashable_hex, (text,), hex),
    ensures
        text@.len() > 0 && digits_only(text@) && value(text@) < beyond_256_bits() ==> (r <==> value(
            text@,
        ) < order()),
        spells(text@, digits) && text@ != digits && digits.len() <= 64 ==> (r
            <==> hex_worth(digits) < order()),
        spells(text@, digits) && digits.len() % 2 == 0 && digits.len() <= 64 ==> (hex
            <==> hex_worth(digits) < order()),
        text@.len() > 0 && digits_only(text@) && value(text@) >= beyond_256_bits() ==> r,
        spells(text@, digits) && text@ != digits && digits.len() > 64 ==> r,
        spells(text@, digits) && (digits.len() % 2 == 1 || digits.len() > 64) ==> hex,
{
    number_is_worth(text@, digits);
    modulus_is_the_order();
    if let Some(b) = number(text@) {
        bytes_are_worth(b);
    }
    if spells(text@, digits) {
        hex_number_is_worth(text@, digits);
        if let Some(b) = hex_number(text@) {
            bytes_are_worth(b);
        }
    }
}

/// A number of 256 bits is read from an even number of at most 64 hexadecimal digits, and any other
/// text is an invalid input.
pub proof fn elements_are_read(
    text: &str,
    rest: Seq<char>,
    r: Result<[u8; 32], ProofServiceError>,
)
    requires
        call_ensures(hex_to_u256, (text,), r),
        prefixed(text@, rest),
        !begins_0x(rest),
    ensures
        r is Ok <==> hex_only(rest) && rest.len() % 2 == 0 && rest.len() <= 64,
        r matches Ok(b) ==> bytes_worth(b@) == hex_worth(rest),
        r matches Err(e) ==> e is InvalidInput,
{
    rest_is_left(text@, rest);
    hex_bytes_are_of_digits(rest);
    if hex_only(rest) {
        hex_number_is_worth(text@, rest);
    }
}

/// There is no leaf and no nullifier of a secret that holds anything but hexadecimal digits after
/// its `0x`.
pub proof fn other_secrets_are_refused(
    service: &ProofService,
    text: &str,
    round_id: u64,
    rest: Seq<char>,
    a: Result<String, ProofServiceError>,
    b: Result<String, ProofServiceError>,
    c: Result<String, ProofServiceError>,
)
    requires
        call_ensures(ProofService::compute_leaf, (service, text), a),
        call_ensures(ProofService::compute_nullifier, (service, text, round_id), b),
        call_ensures(witness_nullifier, (text, round_id), c),
        is_element(text@, rest),
        !hex_only(rest),
    ensures
        a matches Err(e) && e is InvalidInput,
        b matches Err(e) && e is InvalidInput,
        c matches Err(e) && e is InvalidInput,
{
    rest_is_left(text@, rest);
    hex_bytes_are_of_digits(rest);
    other_texts_are_no_number(text@, rest);
}

/// What is wrong with a text that is no element is told.
pub proof fn refused_elements_are_told(e: FieldError, said: String, r: ProofServiceError)
    requires
        call_ensures(refuse_field, (e,), r),
        e matches FieldError::NotHex(h) ==> call_ensures(HexError::message, (&h,), said),
    ensures
        r matches ProofServiceError::InvalidInput(m) && m@ == (match e {
            FieldError::NotHex(_) => "invalid hex field element: "@ + said@,
            FieldError::TooLong => "field element must be at most 32 bytes"@,
        }),
{
}

/// The nullifier of an element is the hash of the element and of the round's number.
pub proof fn nullifier_of_an_element(
    secret: [u8; 32],
    round_id: u64,
    round: Seq<u8>,
    r: String,
)
    requires
        call_ensures(nullifier, (secret, round_id), r),
        round.len() == 32,
        bytes_worth(round) == round_id,
    ensures
        writes(r@, poseidon2_hash(seq![secret@, round])),
{
    small_bytes_are_worth(round_id);
    worth_is_unique(crate::field::be_bytes(round_id as nat, 32), round);
    hex_text_writes(poseidon2_hash(seq![secret@, round]));
}

/// The prover is called with the arguments that are made for it.
pub proof fn prover_gets_its_arguments(
    job: &ProofJob,
    template: Option<&str>,
    circuit: &str,
    witness: &str,
    out: &str,
    call: CliCall,
    args: Vec<String>,
    i: int,
)
    requires
        call_ensures(ProofJob::prover, (job, template, circuit, witness, out), call),
        call_ensures(bb_prove_args, (template, circuit, witness, out), args),
    ensures
        args@.len() == call.args@.len(),
        0 <= i < args@.len() ==> args@[i]@ == call.args@[i]@,
{
    let v = texts(args@);
    let w = call@.args;
    assert(v.len() == args@.len());
    assert(w.len() == call.args@.len());
    if 0 <= i < args@.len() {
        assert(v[i] == args@[i]@);
        assert(w[i] == call.args@[i]@);
    }
}

} // verus!
