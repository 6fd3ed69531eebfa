//! Zero-knowledge proof generation for the circuit "I'm a registered voter and this is my first
//! vote in this round".
//!
//! Two independently useful pieces live here:
//!
//! - **Poseidon2 hashing** (`compute_leaf`, `compute_nullifier`), the same hash construction that
//!   the deployed contract and the circuit use.
//! - **Witness generation + proving** (`prove`): what is handed to `nargo execute`, which solves
//!   the circuit, and to a Barretenberg-compatible `bb` binary, which turns the witness into a
//!   Groth16 proof, and what becomes of their output. The `bb` step is disabled unless its path is
//!   configured and resolves to a binary.
use crate::decimal::{integer_text, u64_text};
use crate::field::{
    be_bytes, elements, hex_number, hex_reading, hex_text, in_field, is_in_field, number,
    number_reading, poseidon2, poseidon2_hash, read_hex, read_number, u256_to_hex,
    u64_bytes, FieldError,
};
use crate::json::{json_string_list, parse_json_string_list, texts_are_read};
use crate::models::{ProofDto, ProveWitnessRequest};
use crate::soroban_client::{bool_text, text_is_read, CliCall, CliCallView, ProcessOutput};
use crate::text::{
    chars_of, from_utf8_lossy, optional_text, replace_all, replaced, split_words, texts,
    trim_hex_prefix, utf8_lossy, without_hex_prefix, words,
};
use vstd::prelude::*;
use vstd::string::*;

verus! {

/// How deep the tree of registered voters is.
pub const MERKLE_DEPTH: usize = 8;

// ---------------------------------------------------------------------
// Errors
// ---------------------------------------------------------------------
/// Why there is no proof.
#[derive(Debug)]
pub enum ProofServiceError {
    InvalidInput(String),
    Unavailable(String),
    /// A program did not run, or its output could not be read. `source` is what the system says
    /// of it.
    Spawn { program: String, source: String },
    WitnessGeneration { stderr: String },
    Proving { stderr: String },
    /// The circuit workspace could not be prepared, and what the system says of it.
    Io(String),
}

/// A `ProofServiceError` with its texts as characters.
pub enum ProofServiceErrorView {
    InvalidInput(Seq<char>),
    Unavailable(Seq<char>),
    Spawn { program: Seq<char>, source: Seq<char> },
    WitnessGeneration { stderr: Seq<char> },
    Proving { stderr: Seq<char> },
    Io(Seq<char>),
}

impl View for ProofServiceError {
    type V = ProofServiceErrorView;

    open spec fn view(&self) -> ProofServiceErrorView {
        match self {
            ProofServiceError::InvalidInput(m) => ProofServiceErrorView::InvalidInput(m@),
            ProofServiceError::Unavailable(m) => ProofServiceErrorView::Unavailable(m@),
            ProofServiceError::Spawn { program, source } => ProofServiceErrorView::Spawn {
                program: program@,
                source: source@,
            },
            ProofServiceError::WitnessGeneration { stderr } =>
                ProofServiceErrorView::WitnessGeneration { stderr: stderr@ },
            ProofServiceError::Proving { stderr } => ProofServiceErrorView::Proving {
                stderr: stderr@,
            },
            ProofServiceError::Io(m) => ProofServiceErrorView::Io(m@),
        }
    }
}

impl ProofServiceErrorView {
    /// What the error says.
    pub open spec fn text(self) -> Seq<char> {
        match self {
            ProofServiceErrorView::InvalidInput(m) => m,
            ProofServiceErrorView::Unavailable(_) =>
                "server-side proof generation is not configured on this backend (no BB_PATH); submit an already-built `proof` instead"@,
            ProofServiceErrorView::Spawn { program, source } => "failed to run `"@ + program + "`: "@
                + source,
            ProofServiceErrorView::WitnessGeneration { stderr } => "witness generation failed:\n"@
                + stderr,
            ProofServiceErrorView::Proving { stderr } => "proving failed:\n"@ + stderr,
            ProofServiceErrorView::Io(m) =>
                "filesystem error while preparing the circuit workspace: "@ + m,
        }
    }
}

impl ProofServiceError {
    /// What the error says.
    pub fn message(&self) -> (r: String)
        ensures
            r@ == self@.text(),
    {
        match self {
            ProofServiceError::InvalidInput(m) => m.as_str().to_owned(),
            ProofServiceError::Unavailable(_) =>
                "server-side proof generation is not configured on this backend (no BB_PATH); submit an already-built `proof` instead".to_owned(),
            ProofServiceError::Spawn { program, source } => {
                let mut out = "failed to run `".to_owned();
                out.append(program.as_str());
                out.append("`: ");
                out.append(source.as_str());
                out
            },
            ProofServiceError::WitnessGeneration { stderr } => {
                let mut out = "witness generation failed:\n".to_owned();
                out.append(stderr.as_str());
                out
            },
            ProofServiceError::Proving { stderr } => {
                let mut out = "proving failed:\n".to_owned();
                out.append(stderr.as_str());
                out
            },
            ProofServiceError::Io(m) => {
                let mut out = "filesystem error while preparing the circuit workspace: ".to_owned();
                out.append(m.as_str());
                out
            },
        }
    }
}

/// How a text that is no number of 256 bits is refused.
pub open spec fn field_refusal(e: FieldError) -> ProofServiceErrorView {
    ProofServiceErrorView::InvalidInput(
        match e {
            FieldError::NotHex(h) => "invalid hex field element: "@ + h.text(),
            FieldError::TooLong => "field element must be at most 32 bytes"@,
        },
    )
}

/// Refuses a text that is no number of 256 bits.
pub fn refuse_field(e: FieldError) -> (r: ProofServiceError)
    ensures
        r@ == field_refusal(e),
{
    match e {
        FieldError::NotHex(h) => {
            let mut out = "invalid hex field element: ".to_owned();
            out.append(h.message().as_str());
            ProofServiceError::InvalidInput(out)
        },
        FieldError::TooLong => ProofServiceError::InvalidInput(
            "field element must be at most 32 bytes".to_owned(),
        ),
    }
}

/// Reads a number of 256 bits in hexadecimal.
pub fn hex_to_u256(hex: &str) -> (r: Result<[u8; 32], ProofServiceError>)
    ensures
        r is Ok <==> hex_number(hex@) is Some,
        match r {
            Ok(b) => hex_number(hex@) == Some(b@),
            Err(e) => exists|f: FieldError|
                #[trigger] hex_reading(hex@, Err(f)) && e@ == field_refusal(f),
        },
{
    match read_hex(hex) {
        Ok(b) => Ok(b),
        Err(f) => {
            assert(hex_reading(hex@, Err(f)));
            Err(refuse_field(f))
        },
    }
}

// ---------------------------------------------------------------------
// Hashing
// ---------------------------------------------------------------------
/// The hash that a voter with a given secret registers.
pub open spec fn leaf_hash(secret: Seq<u8>) -> Seq<u8> {
    poseidon2_hash(seq![secret])
}

/// What a voter with a given secret registers.
pub open spec fn leaf_of(secret: Seq<u8>) -> Seq<char> {
    hex_text(leaf_hash(secret))
}

/// The hash that marks the one vote of a voter with a given secret in a round.
pub open spec fn nullifier_hash(secret: Seq<u8>, round_id: u64) -> Seq<u8> {
    poseidon2_hash(seq![secret, be_bytes(round_id as nat, 32)])
}

/// What marks the one vote of a voter with a given secret in a round.
pub open spec fn nullifier_of(secret: Seq<u8>, round_id: u64) -> Seq<char> {
    hex_text(nullifier_hash(secret, round_id))
}

/// Whether what a text in hexadecimal stands for, if anything, is an element of the field.
pub open spec fn hashable_hex(text: Seq<char>) -> bool {
    hex_number(text) matches Some(b) ==> in_field(b)
}

/// Whether what a text stands for, if anything, is an element of the field.
pub open spec fn hashable(text: Seq<char>) -> bool {
    number(text) matches Some(b) ==> in_field(b)
}

/// Whether what a text in hexadecimal stands for, if anything, is an element of the field.
pub fn is_hashable_hex(text: &str) -> (r: bool)
    ensures
        r == hashable_hex(text@),
{
    match read_hex(text) {
        Ok(b) => is_in_field(&b),
        Err(_) => true,
    }
}

/// Whether what a text stands for, if anything, is an element of the field.
pub fn is_hashable(text: &str) -> (r: bool)
    ensures
        r == hashable(text@),
{
    match read_number(text) {
        Ok(b) => is_in_field(&b),
        Err(_) => true,
    }
}

/// The nullifier of a secret in a round.
pub fn nullifier(secret: [u8; 32], round_id: u64) -> (r: String)
    requires
        in_field(secret@),
    ensures
        r@ == nullifier_of(secret@, round_id),
        nullifier_hash(secret@, round_id).len() == 32,
        r@.len() == 66,
{
    proof {
        reveal_strlit("0x");
    }
    let mut inputs: Vec<[u8; 32]> = Vec::new();
    inputs.push(secret);
    inputs.push(u64_bytes(round_id));
    assert(elements(inputs@) =~= seq![secret@, be_bytes(round_id as nat, 32)]);
    u256_to_hex(&poseidon2(&inputs))
}

/// The nullifier that belongs to a witness: its secret is in decimal, or in hexadecimal.
pub fn witness_nullifier(secret: &str, round_id: u64) -> (r: Result<String, ProofServiceError>)
    requires
        hashable(secret@),
    ensures
        r is Ok <==> number(secret@) is Some,
        match r {
            Ok(s) => number(secret@) matches Some(b) && s@ == nullifier_of(b, round_id)
                && nullifier_hash(b, round_id).len() == 32 && s@.len() == 66,
            Err(e) => exists|f: FieldError|
                #[trigger] number_reading(secret@, Err(f)) && e@ == field_refusal(f),
        },
{
    match read_number(secret) {
        Ok(b) => Ok(nullifier(b, round_id)),
        Err(f) => {
            assert(number_reading(secret@, Err(f)));
            Err(refuse_field(f))
        },
    }
}

// ---------------------------------------------------------------------
// The service
// ---------------------------------------------------------------------
/// Where the tools of the proof generation are.
#[derive(Debug)]
pub struct ProofService {
    circuit_dir: String,
    nargo_path: String,
    bb_path: Option<String>,
}

/// A `ProofService` with its texts as characters.
pub struct ProofServiceView {
    pub circuit_dir: Seq<char>,
    pub nargo_path: Seq<char>,
    pub bb_path: Option<Seq<char>>,
}

impl View for ProofService {
    type V = ProofServiceView;

    closed spec fn view(&self) -> ProofServiceView {
        ProofServiceView {
            circuit_dir: self.circuit_dir@,
            nargo_path: self.nargo_path@,
            bb_path: optional_text(self.bb_path),
        }
    }
}

/// What one proof takes: the circuit package to copy into a workspace, the inputs to write there
/// as `Prover.toml`, the call that solves the circuit, and the prover to run afterwards.
#[derive(Debug)]
pub struct ProofJob {
    pub circuit_dir: String,
    pub prover_toml: String,
    pub solver: CliCall,
    pub bb_path: String,
}

/// Where the files of a proof stand in its workspace.
#[derive(Debug)]
pub struct WorkspaceFiles {
    /// The inputs that the solver reads.
    pub prover_toml: String,
    /// The witness that the solver writes.
    pub witness: String,
    /// The circuit that the solver compiles.
    pub circuit: String,
    /// The directory that the prover writes to.
    pub proof_dir: String,
    /// The field elements that the prover writes there.
    pub proof_fields: String,
}

/// Where the files of a proof stand in its workspace: the inputs and the witness under the names
/// that the solver is told.
pub fn workspace_files() -> (r: WorkspaceFiles)
    ensures
        r.prover_toml@ == solver_args()[3] + ".toml"@,
        r.witness@ == "target/"@ + solver_args()[1] + ".gz"@,
        r.circuit@ == "target/anonvote.json"@,
        r.proof_dir@ == "proof"@,
        r.proof_fields@ == r.proof_dir@ + "/proof_fields.json"@,
{
    let mut prover_toml = "Prover".to_owned();
    prover_toml.append(".toml");
    let mut witness = "target/".to_owned();
    witness.append("witness");
    witness.append(".gz");
    let proof_dir = "proof".to_owned();
    let mut proof_fields = proof_dir.clone();
    proof_fields.append("/proof_fields.json");
    WorkspaceFiles {
        prover_toml,
        witness,
        circuit: "target/anonvote.json".to_owned(),
        proof_dir,
        proof_fields,
    }
}

/// What the solver is asked to do.
pub open spec fn solver_args() -> Seq<Seq<char>> {
    seq!["execute"@, "witness"@, "--prover-name"@, "Prover"@]
}

impl ProofService {
    /// A service with its tools at the given paths.
    pub fn new(circuit_dir: String, nargo_path: String, bb_path: Option<String>) -> (r: ProofService)
        ensures
            r@ == (ProofServiceView {
                circuit_dir: circuit_dir@,
                nargo_path: nargo_path@,
                bb_path: optional_text(bb_path),
            }),
    {
        ProofService { circuit_dir, nargo_path, bb_path }
    }

    /// Whether a prover is configured.
    pub fn is_proving_available(&self) -> (r: bool)
        ensures
            r == (self@.bb_path is Some),
    {
        self.bb_path.is_some()
    }

    /// The configured prover, if there is one.
    pub fn prover_path(&self) -> (r: Option<String>)
        ensures
            optional_text(r) == self@.bb_path,
    {
        match &self.bb_path {
            Some(p) => Some(p.clone()),
            None => None,
        }
    }

    /// `Poseidon2::hash([secret], 1)` — the leaf that a registered commitment must equal.
    pub fn compute_leaf(&self, secret_hex: &str) -> (r: Result<String, ProofServiceError>)
        requires
            hashable_hex(secret_hex@),
        ensures
            r is Ok <==> hex_number(secret_hex@) is Some,
            match r {
                Ok(s) => hex_number(secret_hex@) matches Some(b) && s@ == leaf_of(b)
                    && leaf_hash(b).len() == 32 && s@.len() == 66,
                Err(e) => exists|f: FieldError|
                    #[trigger] hex_reading(secret_hex@, Err(f)) && e@ == field_refusal(f),
            },
    {
        let secret = hex_to_u256(secret_hex)?;
        let mut inputs: Vec<[u8; 32]> = Vec::new();
        inputs.push(secret);
        assert(elements(inputs@) =~= seq![secret@]);
        proof {
            reveal_strlit("0x");
        }
        Ok(u256_to_hex(&poseidon2(&inputs)))
    }

    /// `Poseidon2::hash([secret, round_id], 2)` — what `cast_vote`'s `nullifier` argument must
    /// equal for a given `secret` and round.
    pub fn compute_nullifier(&self, secret_hex: &str, round_id: u64) -> (r: Result<
        String,
        ProofServiceError,
    >)
        requires
            hashable_hex(secret_hex@),
        ensures
            r is Ok <==> hex_number(secret_hex@) is Some,
            match r {
                Ok(s) => hex_number(secret_hex@) matches Some(b) && s@ == nullifier_of(b, round_id)
                    && nullifier_hash(b, round_id).len() == 32 && s@.len() == 66,
                Err(e) => exists|f: FieldError|
                    #[trigger] hex_reading(secret_hex@, Err(f)) && e@ == field_refusal(f),
            },
    {
        let secret = hex_to_u256(secret_hex)?;
        Ok(nullifier(secret, round_id))
    }

    /// Why no proof is attempted, if none is: no prover is configured, the configured one is not
    /// there, or the witness is not of the tree's depth.
    pub open spec fn refusal(
        view: ProofServiceView,
        bb_found: bool,
        witness: ProveWitnessRequest,
    ) -> Option<ProofServiceErrorView> {
        if view.bb_path is None {
            Some(ProofServiceErrorView::Unavailable("BB_PATH is not configured on this backend"@))
        } else if !bb_found {
            Some(ProofServiceErrorView::Unavailable("BB_PATH does not name a prover binary"@))
        } else if witness.merkle_path@.len() != MERKLE_DEPTH || witness.path_indices@.len()
            != MERKLE_DEPTH {
            Some(
                ProofServiceErrorView::InvalidInput(
                    "merkle_path and path_indices must both have exactly 8 entries"@,
                ),
            )
        } else {
            None
        }
    }

    /// Prepares the proof of a witness. `bb_found` tells whether the configured prover resolves to
    /// a binary.
    pub fn prove(
        &self,
        bb_found: bool,
        witness: &ProveWitnessRequest,
        merkle_root_hex: &str,
        nullifier_hex: &str,
        round_id: u64,
        choice: u32,
    ) -> (r: Result<ProofJob, ProofServiceError>)
        ensures
            match r {
                Err(e) => ProofService::refusal(self@, bb_found, *witness) == Some(e@),
                Ok(job) => {
                    &&& ProofService::refusal(self@, bb_found, *witness) is None
                    &&& job.circuit_dir@ == self@.circuit_dir
                    &&& job.prover_toml@ == prover_toml_text(
                        *witness,
                        merkle_root_hex@,
                        nullifier_hex@,
                        round_id,
                        choice,
                    )
                    &&& job.solver@ == (CliCallView {
                        program: self@.nargo_path,
                        args: solver_args(),
                        input: None,
                    })
                    &&& Some(job.bb_path@) == self@.bb_path
                },
            },
    {
        let bb_path = match &self.bb_path {
            Some(p) => p.clone(),
            None => return Err(
                ProofServiceError::Unavailable(
                    "BB_PATH is not configured on this backend".to_owned(),
                ),
            ),
        };
        if !bb_found {
            return Err(
                ProofServiceError::Unavailable("BB_PATH does not name a prover binary".to_owned()),
            );
        }
        if witness.merkle_path.len() != MERKLE_DEPTH || witness.path_indices.len() != MERKLE_DEPTH {
            return Err(
                ProofServiceError::InvalidInput(
                    "merkle_path and path_indices must both have exactly 8 entries".to_owned(),
                ),
            );
        }
        let prover_toml = write_prover_toml(
            witness,
            merkle_root_hex,
            nullifier_hex,
            round_id,
            choice,
        );
        let mut args: Vec<String> = Vec::new();
        args.push("execute".to_owned());
        args.push("witness".to_owned());
        args.push("--prover-name".to_owned());
        args.push("Prover".to_owned());
        assert(texts(args@) =~= solver_args());
        Ok(
            ProofJob {
                circuit_dir: self.circuit_dir.clone(),
                prover_toml,
                solver: CliCall { program: self.nargo_path.clone(), args, input: None },
                bb_path,
            },
        )
    }
}

impl ProofJob {
    /// Whether the solver found a witness. `output` is what the system returned of its run, or
    /// what it said where the solver could not be run.
    pub fn solved(&self, output: Result<ProcessOutput, String>) -> (r: Result<
        (),
        ProofServiceError,
    >)
        ensures
            match output {
                Err(source) => r matches Err(e) && e@ == (ProofServiceErrorView::Spawn {
                    program: self.solver@.program,
                    source: source@,
                }),
                Ok(o) => if o.success {
                    r is Ok
                } else {
                    &&& r matches Err(e) && e@ == (ProofServiceErrorView::WitnessGeneration {
                        stderr: utf8_lossy(o.stderr@),
                    })
                    &&& text_is_read(o.stderr@)
                },
            },
    {
        match output {
            Err(source) => Err(
                ProofServiceError::Spawn { program: self.solver.program.clone(), source },
            ),
            Ok(o) => if o.success {
                Ok(())
            } else {
                Err(ProofServiceError::WitnessGeneration { stderr: from_utf8_lossy(&o.stderr) })
            },
        }
    }

    /// The call that proves the witness. `template` is the configured form of its arguments, if
    /// there is one.
    pub fn prover(
        &self,
        template: Option<&str>,
        circuit_path: &str,
        witness_path: &str,
        out_dir: &str,
    ) -> (r: CliCall)
        ensures
            r@ == (CliCallView {
                program: self.bb_path@,
                args: prover_args(
                    match template {
                        Some(t) => Some(t@),
                        None => None,
                    },
                    circuit_path@,
                    witness_path@,
                    out_dir@,
                ),
                input: None,
            }),
    {
        CliCall {
            program: self.bb_path.clone(),
            args: bb_prove_args(template, circuit_path, witness_path, out_dir),
            input: None,
        }
    }

    /// Whether the prover made a proof. `output` is what the system returned of its run, or what
    /// it said where the prover could not be run.
    pub fn proved(&self, output: Result<ProcessOutput, String>) -> (r: Result<
        (),
        ProofServiceError,
    >)
        ensures
            match output {
                Err(source) => r matches Err(e) && e@ == (ProofServiceErrorView::Spawn {
                    program: self.bb_path@,
                    source: source@,
                }),
                Ok(o) => if o.success {
                    r is Ok
                } else {
                    &&& r matches Err(e) && e@ == (ProofServiceErrorView::Proving {
                        stderr: utf8_lossy(o.stderr@),
                    })
                    &&& text_is_read(o.stderr@)
                },
            },
    {
        match output {
            Err(source) => Err(ProofServiceError::Spawn { program: self.bb_path.clone(), source }),
            Ok(o) => if o.success {
                Ok(())
            } else {
                Err(ProofServiceError::Proving { stderr: from_utf8_lossy(&o.stderr) })
            },
        }
    }
}

// ---------------------------------------------------------------------
// The prover's arguments
// ---------------------------------------------------------------------
/// A word of the template with the three paths filled in.
pub open spec fn filled(
    word: Seq<char>,
    circuit: Seq<char>,
    witness: Seq<char>,
    out: Seq<char>,
) -> Seq<char> {
    replaced(
        replaced(replaced(word, "{circuit}"@, circuit), "{witness}"@, witness),
        "{out}"@,
        out,
    )
}

/// The arguments of the prover: the words of the template with the paths filled in, or else the
/// usual ones.
pub open spec fn prover_args(
    template: Option<Seq<char>>,
    circuit: Seq<char>,
    witness: Seq<char>,
    out: Seq<char>,
) -> Seq<Seq<char>> {
    match template {
        Some(t) => words(t).map_values(|w: Seq<char>| filled(w, circuit, witness, out)),
        None => seq![
            "prove"@,
            "--scheme"@,
            "groth16"@,
            "-b"@,
            circuit,
            "-w"@,
            witness,
            "-o"@,
            out,
        ],
    }
}

/// A word of the template with the three paths filled in.
fn fill(word: &str, circuit: &str, witness: &str, out: &str) -> (r: String)
    ensures
        r@ == filled(word@, circuit@, witness@, out@),
{
    proof {
        reveal_strlit("{circuit}");
        reveal_strlit("{witness}");
        reveal_strlit("{out}");
    }
    let a = replace_all(word, "{circuit}", circuit);
    let b = replace_all(a.as_str(), "{witness}", witness);
    replace_all(b.as_str(), "{out}", out)
}

/// The arguments of the prover. The command line of `bb` varies by version, so it may be given as
/// a template: words in which `{circuit}`, `{witness}` and `{out}` stand for the paths.
pub fn bb_prove_args(
    template: Option<&str>,
    circuit_path: &str,
    witness_path: &str,
    out_dir: &str,
) -> (r: Vec<String>)
    ensures
        texts(r@) == prover_args(
            match template {
                Some(t) => Some(t@),
                None => None,
            },
            circuit_path@,
            witness_path@,
            out_dir@,
        ),
{
    let mut args: Vec<String> = Vec::new();
    match template {
        Some(t) => {
            let ghost fill_in = |w: Seq<char>| filled(w, circuit_path@, witness_path@, out_dir@);
            let parts = split_words(t);
            let mut i: usize = 0;
            while i < parts.len()
                invariant
                    i <= parts@.len(),
                    args@.len() == i,
                    texts(parts@) == words(t@),
                    fill_in == (|w: Seq<char>|
                        filled(w, circuit_path@, witness_path@, out_dir@)),
                    forall|j: int|
                        0 <= j < i ==> (#[trigger] args@[j])@ == fill_in(parts@[j]@),
                decreases parts@.len() - i,
            {
                args.push(fill(parts[i].as_str(), circuit_path, witness_path, out_dir));
                i = i + 1;
            }
            assert forall|j: int| 0 <= j < args@.len() implies texts(args@)[j] == words(
                t@,
            ).map_values(fill_in)[j] by {
                assert(texts(parts@)[j] == parts@[j]@);
            }
            assert(texts(args@).len() == args@.len());
            assert(texts(parts@).len() == parts@.len());
            assert(texts(args@) =~= words(t@).map_values(fill_in));
        },
        None => {
            args.push("prove".to_owned());
            args.push("--scheme".to_owned());
            args.push("groth16".to_owned());
            args.push("-b".to_owned());
            args.push(circuit_path.to_owned());
            args.push("-w".to_owned());
            args.push(witness_path.to_owned());
            args.push("-o".to_owned());
            args.push(out_dir.to_owned());
            assert(texts(args@) =~= prover_args(None, circuit_path@, witness_path@, out_dir@));
        },
    }
    args
}

// ---------------------------------------------------------------------
// The prover's output
// ---------------------------------------------------------------------
/// A text with zeros before it to make it 64 characters, where it is shorter.
pub open spec fn padded_64(s: Seq<char>) -> Seq<char> {
    if s.len() < 64 {
        Seq::new((64 - s.len()) as nat, |i: int| '0') + s
    } else {
        s
    }
}

/// A field element of the prover's output as it stands in a proof.
pub open spec fn field_digits(s: Seq<char>) -> Seq<char> {
    padded_64(without_hex_prefix(s))
}

/// The proof that eight field elements make: the two coordinates of `a`, of `b` in two parts each
/// with the second part first, and of `c`.
pub open spec fn is_proof_of(p: ProofDto, f: Seq<Seq<char>>) -> bool {
    &&& p.a@ == field_digits(f[0]) + field_digits(f[1])
    &&& p.b@ == field_digits(f[3]) + field_digits(f[2]) + field_digits(f[5]) + field_digits(f[4])
    &&& p.c@ == field_digits(f[6]) + field_digits(f[7])
}

/// A field element of the prover's output as it stands in a proof.
fn field_hex(s: &str) -> (r: String)
    ensures
        r@ == field_digits(s@),
{
    let digits = trim_hex_prefix(s);
    let cs = chars_of(digits.as_str());
    let mut out = String::new();
    let mut n: usize = cs.len();
    assert(Seq::new(0, |i: int| '0') =~= Seq::empty());
    while n < 64
        invariant
            cs@.len() <= n,
            n <= 64 || n == cs@.len(),
            out@ == Seq::new((n - cs@.len()) as nat, |i: int| '0'),
        decreases 64 - n,
    {
        out.push('0');
        n = n + 1;
        assert(out@ =~= Seq::new((n - cs@.len()) as nat, |i: int| '0'));
    }
    out.append(digits.as_str());
    assert(out@ =~= field_digits(s@));
    out
}

/// The proof that the field elements of the prover's output make. There have to be eight.
pub fn groth16_proof(fields_path: &str, fields: &Vec<String>) -> (r: Result<
    ProofDto,
    ProofServiceError,
>)
    ensures
        match r {
            Ok(p) => fields@.len() == 8 && is_proof_of(p, texts(fields@)),
            Err(e) => fields@.len() != 8 && e@ == ProofServiceErrorView::InvalidInput(
                "expected 8 field elements in "@ + fields_path@ + ", found "@ + integer_text(
                    fields@.len() as int,
                ),
            ),
        },
{
    if fields.len() != 8 {
        let mut out = "expected 8 field elements in ".to_owned();
        out.append(fields_path);
        out.append(", found ");
        out.append(u64_text(fields.len() as u64).as_str());
        return Err(ProofServiceError::InvalidInput(out));
    }
    let mut a = field_hex(fields[0].as_str());
    a.append(field_hex(fields[1].as_str()).as_str());
    let mut b = field_hex(fields[3].as_str());
    b.append(field_hex(fields[2].as_str()).as_str());
    b.append(field_hex(fields[5].as_str()).as_str());
    b.append(field_hex(fields[4].as_str()).as_str());
    let mut c = field_hex(fields[6].as_str());
    c.append(field_hex(fields[7].as_str()).as_str());
    Ok(ProofDto { a, b, c })
}

/// Reads the prover's output: a JSON array of the hex field elements `[a.x, a.y, b.x.c0, b.x.c1,
/// b.y.c0, b.y.c1, c.x, c.y]`. `raw` is what the file at `fields_path` holds, or what the system
/// said where it could not be read.
pub fn read_groth16_proof(fields_path: &str, raw: Result<String, String>) -> (r: Result<
    ProofDto,
    ProofServiceError,
>)
    ensures
        raw matches Ok(text) ==> texts_are_read(text@),
        match raw {
            Err(source) => r matches Err(e) && e@ == (ProofServiceErrorView::Spawn {
                program: "read "@ + fields_path@,
                source: source@,
            }),
            Ok(text) => match json_string_list(text@) {
                Err(m) => r matches Err(e) && e@ == ProofServiceErrorView::InvalidInput(
                    "could not parse "@ + fields_path@ + ": "@ + m,
                ),
                Ok(fields) => if fields.len() == 8 {
                    r matches Ok(p) && is_proof_of(p, fields)
                } else {
                    r matches Err(e) && e@ == ProofServiceErrorView::InvalidInput(
                        "expected 8 field elements in "@ + fields_path@ + ", found "@
                            + integer_text(fields.len() as int),
                    )
                },
            },
        },
{
    let text = match raw {
        Ok(t) => t,
        Err(source) => {
            let mut program = "read ".to_owned();
            program.append(fields_path);
            return Err(ProofServiceError::Spawn { program, source });
        },
    };
    match parse_json_string_list(text.as_str()) {
        Ok(fields) => {
            assert(texts(fields@).len() == fields@.len());
            groth16_proof(fields_path, &fields)
        },
        Err(m) => {
            let mut out = "could not parse ".to_owned();
            out.append(fields_path);
            out.append(": ");
            out.append(m.as_str());
            Err(ProofServiceError::InvalidInput(out))
        },
    }
}

// ---------------------------------------------------------------------
// The solver's input
// ---------------------------------------------------------------------
/// The inputs of the circuit.
pub struct ProverToml<'a> {
    pub secret: &'a str,
    pub merkle_path: &'a Vec<String>,
    pub path_indices: &'a Vec<bool>,
    pub merkle_root: &'a str,
    pub nullifier: &'a str,
    pub round_id: String,
    pub choice: String,
}

/// Texts with a separator between each two.
pub open spec fn joined(parts: Seq<Seq<char>>, sep: Seq<char>) -> Seq<char>
    decreases parts.len(),
{
    if parts.len() == 0 {
        Seq::empty()
    } else if parts.len() == 1 {
        parts[0]
    } else {
        joined(parts.drop_last(), sep) + sep + parts.last()
    }
}

/// Texts with a separator between each two.
fn join(parts: &Vec<String>, sep: &str) -> (r: String)
    ensures
        r@ == joined(texts(parts@), sep@),
{
    let ghost all = texts(parts@);
    let mut out = String::new();
    let mut i: usize = 0;
    assert(all.take(0) =~= Seq::empty());
    while i < parts.len()
        invariant
            i <= parts@.len(),
            all == texts(parts@),
            out@ == joined(all.take(i as int), sep@),
        decreases parts@.len() - i,
    {
        proof {
            assert(all.take(i + 1).drop_last() =~= all.take(i as int));
            assert(all.take(i + 1).last() == parts@[i as int]@);
        }
        if i > 0 {
            out.append(sep);
            out.append(parts[i].as_str());
        } else {
            out = parts[i].clone();
            assert(all.take(1)[0] == parts@[0]@);
        }
        i = i + 1;
    }
    assert(all.take(parts@.len() as int) =~= all);
    out
}

/// The inputs of the circuit in TOML.
pub open spec fn toml_text(
    secret: Seq<char>,
    merkle_path: Seq<Seq<char>>,
    path_indices: Seq<bool>,
    merkle_root: Seq<char>,
    nullifier: Seq<char>,
    round_id: Seq<char>,
    choice: Seq<char>,
) -> Seq<char> {
    "secret = \""@ + secret + "\"\nmerkle_path = ["@ + joined(
        merkle_path.map_values(|s: Seq<char>| "\""@ + s + "\""@),
        ", "@,
    ) + "]\npath_indices = ["@ + joined(
        path_indices.map_values(|b: bool| bool_text(b)),
        ", "@,
    ) + "]\nmerkle_root = \""@ + merkle_root + "\"\nnullifier = \""@ + nullifier
        + "\"\nround_id = \""@ + round_id + "\"\nchoice = \""@ + choice + "\"\n"@
}

/// The inputs of the circuit in TOML: flat strings, and arrays of strings and truth values.
pub fn toml_string(doc: &ProverToml) -> (r: String)
    ensures
        r@ == toml_text(
            doc.secret@,
            texts(doc.merkle_path@),
            doc.path_indices@,
            doc.merkle_root@,
            doc.nullifier@,
            doc.round_id@,
            doc.choice@,
        ),
{
    let ghost quote = |s: Seq<char>| "\""@ + s + "\""@;
    let mut quoted: Vec<String> = Vec::new();
    let mut i: usize = 0;
    while i < doc.merkle_path.len()
        invariant
            i <= doc.merkle_path@.len(),
            quoted@.len() == i,
            quote == (|s: Seq<char>| "\""@ + s + "\""@),
            forall|j: int|
                0 <= j < i ==> (#[trigger] quoted@[j])@ == quote(doc.merkle_path@[j]@),
        decreases doc.merkle_path@.len() - i,
    {
        let mut s = "\"".to_owned();
        s.append(doc.merkle_path[i].as_str());
        s.append("\"");
        quoted.push(s);
        i = i + 1;
    }
    assert(texts(quoted@) =~= texts(doc.merkle_path@).map_values(quote));
    let ghost say = |b: bool| bool_text(b);
    let mut indices: Vec<String> = Vec::new();
    let mut k: usize = 0;
    while k < doc.path_indices.len()
        invariant
            k <= doc.path_indices@.len(),
            indices@.len() == k,
            say == (|b: bool| bool_text(b)),
            forall|j: int| 0 <= j < k ==> (#[trigger] indices@[j])@ == say(doc.path_indices@[j]),
        decreases doc.path_indices@.len() - k,
    {
        indices.push(
            if doc.path_indices[k] {
                "true".to_owned()
            } else {
                "false".to_owned()
            },
        );
        k = k + 1;
    }
    assert(texts(indices@) =~= doc.path_indices@.map_values(say));
    let mut out = "secret = \"".to_owned();
    out.append(doc.secret);
    out.append("\"\nmerkle_path = [");
    out.append(join(&quoted, ", ").as_str());
    out.append("]\npath_indices = [");
    out.append(join(&indices, ", ").as_str());
    out.append("]\nmerkle_root = \"");
    out.append(doc.merkle_root);
    out.append("\"\nnullifier = \"");
    out.append(doc.nullifier);
    out.append("\"\nround_id = \"");
    out.append(doc.round_id.as_str());
    out.append("\"\nchoice = \"");
    out.append(doc.choice.as_str());
    out.append("\"\n");
    out
}

/// What `Prover.toml` holds for a witness and the public inputs of its proof.
pub open spec fn prover_toml_text(
    witness: ProveWitnessRequest,
    merkle_root_hex: Seq<char>,
    nullifier_hex: Seq<char>,
    round_id: u64,
    choice: u32,
) -> Seq<char> {
    toml_text(
        witness.secret@,
        texts(witness.merkle_path@),
        witness.path_indices@,
        merkle_root_hex,
        nullifier_hex,
        integer_text(round_id as int),
        integer_text(choice as int),
    )
}

/// What `Prover.toml` holds for a witness and the public inputs of its proof.
pub fn write_prover_toml(
    witness: &ProveWitnessRequest,
    merkle_root_hex: &str,
    nullifier_hex: &str,
    round_id: u64,
    choice: u32,
) -> (r: String)
    ensures
        r@ == prover_toml_text(*witness, merkle_root_hex@, nullifier_hex@, round_id, choice),
{
    let doc = ProverToml {
        secret: witness.secret.as_str(),
        merkle_path: &witness.merkle_path,
        path_indices: &witness.path_indices,
        merkle_root: merkle_root_hex,
        nullifier: nullifier_hex,
        round_id: u64_text(round_id),
        choice: u64_text(choice as u64),
    };
    toml_string(&doc)
}

/// The points of a proof have the lengths that the contract expects: 64, 128 and 64 bytes, wherever
/// no field element is longer than 32 bytes.
pub proof fn proof_has_its_layout(p: ProofDto, f: Seq<Seq<char>>)
    requires
        is_proof_of(p, f),
        f.len() == 8,
        forall|i: int| 0 <= i < 8 ==> without_hex_prefix(#[trigger] f[i]).len() <= 64,
    ensures
        p.a@.len() == 128,
        p.b@.len() == 256,
        p.c@.len() == 128,
{
    assert forall|i: int| 0 <= i < 8 implies field_digits(#[trigger] f[i]).len() == 64 by {}
    assert(field_digits(f[0]).len() + field_digits(f[1]).len() == 128);
    assert(field_digits(f[2]).len() + field_digits(f[3]).len() == 128);
    assert(field_digits(f[4]).len() + field_digits(f[5]).len() == 128);
    assert(field_digits(f[6]).len() + field_digits(f[7]).len() == 128);
}

} // verus!
