use anonvote_backend::field::read_hex;
use anonvote_backend::models::ProveWitnessRequest;
use anonvote_backend::proof_service::{
    bb_prove_args, groth16_proof, is_hashable, is_hashable_hex, read_groth16_proof,
    witness_nullifier, workspace_files, write_prover_toml, ProofService, ProofServiceError,
};
use anonvote_backend::soroban_client::ProcessOutput;
use soroban_poseidon::Poseidon2Sponge;
use soroban_sdk::crypto::bn254::Bn254Fr;
use soroban_sdk::{Bytes, Env, Vec as SdkVec, U256};

fn service(bb: Option<&str>) -> ProofService {
    ProofService::new(
        "/circuit".to_string(),
        "/bin/nargo".to_string(),
        bb.map(|p| p.to_string()),
    )
}

fn witness(path: usize, indices: usize) -> ProveWitnessRequest {
    ProveWitnessRequest {
        secret: "0x2a".to_string(),
        merkle_path: (0..path).map(|i| i.to_string()).collect(),
        path_indices: (0..indices).map(|i| i % 2 == 0).collect(),
    }
}

fn sponge(inputs: &[u128]) -> String {
    let env = Env::default();
    let mut v: SdkVec<U256> = SdkVec::new(&env);
    for i in inputs {
        v.push_back(U256::from_u128(&env, *i));
    }
    let hash = Poseidon2Sponge::<4, Bn254Fr>::new(&env).compute_hash(&v);
    let bytes: Bytes = hash.to_be_bytes();
    let mut out = String::from("0x");
    for b in bytes.iter() {
        out.push_str(&format!("{:02x}", b));
    }
    out
}

#[test]
fn leaves_and_nullifiers_are_poseidon2_hashes() {
    let s = service(None);
    assert_eq!(s.compute_leaf("0x2a").unwrap(), sponge(&[42]));
    assert_eq!(s.compute_leaf("2a").unwrap(), sponge(&[42]));
    assert_eq!(s.compute_nullifier("0x2a", 7).unwrap(), sponge(&[42, 7]));
    assert_eq!(s.compute_nullifier("2A", u64::MAX).unwrap(), sponge(&[42, u64::MAX as u128]));
    assert_ne!(s.compute_nullifier("2a", 7).unwrap(), s.compute_nullifier("2a", 8).unwrap());
    assert_ne!(s.compute_leaf("2a").unwrap(), s.compute_nullifier("2a", 0).unwrap());
}

#[test]
fn hashes_are_written_in_full() {
    let leaf = service(None).compute_leaf("01").unwrap();
    assert_eq!(leaf, "0x168758332d5b3e2d13be8048c8011b454590e06c44bce7f702f09103eef5a373");
    assert_eq!(leaf.len(), 66);
    assert!(read_hex(&leaf).is_ok());
}

#[test]
fn secrets_of_a_witness_are_decimal_or_hex() {
    assert_eq!(witness_nullifier("42", 7).unwrap(), sponge(&[42, 7]));
    assert_eq!(witness_nullifier("0x2a", 7).unwrap(), sponge(&[42, 7]));
    assert_eq!(witness_nullifier("2a", 7).unwrap(), sponge(&[42, 7]));
    assert_eq!(witness_nullifier("0x5", 7).unwrap(), sponge(&[5, 7]));
    assert_eq!(witness_nullifier("0x02a", 7).unwrap(), sponge(&[42, 7]));
    assert!(witness_nullifier(&"9".repeat(90), 7).is_err());
}

#[test]
fn secrets_that_are_no_number_are_refused() {
    let s = service(None);
    let says = |r: Result<String, ProofServiceError>| match r {
        Err(ProofServiceError::InvalidInput(m)) => m,
        _ => panic!("accepted"),
    };
    assert_eq!(says(s.compute_leaf("0x1")), "invalid hex field element: Odd number of digits");
    assert_eq!(
        says(s.compute_nullifier("zz", 1)),
        "invalid hex field element: Invalid character 'z' at position 0"
    );
    assert_eq!(says(s.compute_leaf(&"00".repeat(33))), "field element must be at most 32 bytes");
}

#[test]
fn secrets_have_to_be_in_the_field() {
    let order = "30644e72e131a029b85045b68181585d2833e84879b9709143e1f593f0000001";
    let below = "30644e72e131a029b85045b68181585d2833e84879b9709143e1f593f0000000";
    assert!(!is_hashable_hex(order));
    assert!(is_hashable_hex(below));
    assert!(is_hashable_hex("no number"));
    assert!(!is_hashable(&format!("0x{}", order)));
    assert!(is_hashable("21888242871839275222246405745257275088548364400416034343698204186575808495616"));
    assert!(!is_hashable("21888242871839275222246405745257275088548364400416034343698204186575808495617"));
    assert!(service(None).compute_leaf(below).is_ok());
}

#[test]
fn proving_needs_a_prover() {
    assert!(!service(None).is_proving_available());
    assert!(service(Some("/bin/bb")).is_proving_available());
    assert_eq!(service(None).prover_path(), None);
    assert_eq!(service(Some("/bin/bb")).prover_path().as_deref(), Some("/bin/bb"));
    assert!(matches!(
        service(None).prove(true, &witness(8, 8), "r", "n", 1, 0),
        Err(ProofServiceError::Unavailable(m)) if m == "BB_PATH is not configured on this backend"
    ));
    assert!(matches!(
        service(Some("/bin/bb")).prove(false, &witness(8, 8), "r", "n", 1, 0),
        Err(ProofServiceError::Unavailable(_))
    ));
}

#[test]
fn witnesses_are_of_the_depth_of_the_tree() {
    for (path, indices) in [(7, 8), (8, 9), (0, 0)] {
        assert!(matches!(
            service(Some("/bin/bb")).prove(true, &witness(path, indices), "r", "n", 1, 0),
            Err(ProofServiceError::InvalidInput(m))
                if m == "merkle_path and path_indices must both have exactly 8 entries"
        ));
    }
}

#[test]
fn a_proof_is_solved_and_then_proved() {
    let job = service(Some("/bin/bb")).prove(true, &witness(8, 8), "0xroot", "0xnull", 3, 1).unwrap();
    assert_eq!(job.circuit_dir, "/circuit");
    assert_eq!(job.solver.program, "/bin/nargo");
    assert_eq!(job.solver.args, vec!["execute", "witness", "--prover-name", "Prover"]);
    assert_eq!(job.bb_path, "/bin/bb");
    assert_eq!(
        job.prover_toml,
        "secret = \"0x2a\"\nmerkle_path = [\"0\", \"1\", \"2\", \"3\", \"4\", \"5\", \"6\", \"7\"]\npath_indices = [true, false, true, false, true, false, true, false]\nmerkle_root = \"0xroot\"\nnullifier = \"0xnull\"\nround_id = \"3\"\nchoice = \"1\"\n"
    );
    let call = job.prover(None, "c.json", "w.gz", "out");
    assert_eq!(call.program, "/bin/bb");
    assert_eq!(
        call.args,
        vec!["prove", "--scheme", "groth16", "-b", "c.json", "-w", "w.gz", "-o", "out"]
    );
    let ended = |success: bool| {
        Ok(ProcessOutput { success, code: Some(1), stdout: vec![], stderr: b"bad".to_vec() })
    };
    assert!(job.solved(ended(true)).is_ok());
    assert!(matches!(
        job.solved(ended(false)),
        Err(ProofServiceError::WitnessGeneration { stderr }) if stderr == "bad"
    ));
    assert!(matches!(
        job.solved(Err("gone".to_string())),
        Err(ProofServiceError::Spawn { program, source }) if program == "/bin/nargo" && source == "gone"
    ));
    assert!(job.proved(ended(true)).is_ok());
    assert!(matches!(
        job.proved(ended(false)),
        Err(ProofServiceError::Proving { stderr }) if stderr == "bad"
    ));
    assert!(matches!(
        job.proved(Err("gone".to_string())),
        Err(ProofServiceError::Spawn { program, .. }) if program == "/bin/bb"
    ));
}

#[test]
fn the_files_of_a_proof_have_the_names_that_the_solver_is_told() {
    let files = workspace_files();
    assert_eq!(files.prover_toml, "Prover.toml");
    assert_eq!(files.witness, "target/witness.gz");
    assert_eq!(files.circuit, "target/anonvote.json");
    assert_eq!(files.proof_dir, "proof");
    assert_eq!(files.proof_fields, "proof/proof_fields.json");
}

#[test]
fn the_prover_can_be_called_by_a_template() {
    assert_eq!(
        bb_prove_args(Some(" -c {circuit}  --w={witness} {out}/{out} x\n"), "C", "W", "O"),
        vec!["-c", "C", "--w=W", "O/O", "x"]
    );
    assert_eq!(bb_prove_args(Some(""), "C", "W", "O"), Vec::<String>::new());
    // a path that holds a later placeholder is filled in again
    assert_eq!(bb_prove_args(Some("{circuit}"), "{out}", "W", "O"), vec!["O"]);
}

#[test]
fn inputs_without_a_path_are_empty_arrays() {
    let w = ProveWitnessRequest {
        secret: "s".to_string(),
        merkle_path: vec![],
        path_indices: vec![],
    };
    assert_eq!(
        write_prover_toml(&w, "r", "n", u64::MAX, 0),
        "secret = \"s\"\nmerkle_path = []\npath_indices = []\nmerkle_root = \"r\"\nnullifier = \"n\"\nround_id = \"18446744073709551615\"\nchoice = \"0\"\n"
    );
}

fn pad(s: &str) -> String {
    format!("{:0>64}", s)
}

#[test]
fn eight_field_elements_make_a_proof() {
    let raw = "[\"0x1\",\"2\",\"0x3\",\"4\",\"5\",\"6\",\"0x7\",\"8\"]";
    let p = read_groth16_proof("p.json", Ok(raw.to_string())).unwrap();
    assert_eq!(p.a, format!("{}{}", pad("1"), pad("2")));
    assert_eq!(p.b, format!("{}{}{}{}", pad("4"), pad("3"), pad("6"), pad("5")));
    assert_eq!(p.c, format!("{}{}", pad("7"), pad("8")));
    assert_eq!((p.a.len(), p.b.len(), p.c.len()), (128, 256, 128));
}

#[test]
fn long_field_elements_are_not_cut() {
    let fields: Vec<String> = (0..8).map(|i| format!("0x{}", i.to_string().repeat(70))).collect();
    let p = groth16_proof("p.json", &fields).unwrap();
    assert_eq!(p.a, format!("{}{}", "0".repeat(70), "1".repeat(70)));
}

#[test]
fn output_that_is_no_proof_is_refused() {
    assert!(matches!(
        read_groth16_proof("p.json", Err("gone".to_string())),
        Err(ProofServiceError::Spawn { program, source }) if program == "read p.json" && source == "gone"
    ));
    let says = |raw: &str| match read_groth16_proof("p.json", Ok(raw.to_string())) {
        Err(ProofServiceError::InvalidInput(m)) => m,
        _ => panic!("accepted"),
    };
    assert_eq!(says("[\"1\"]"), "expected 8 field elements in p.json, found 1");
    assert_eq!(
        says("[1]"),
        format!(
            "could not parse p.json: {}",
            serde_json::from_str::<Vec<String>>("[1]").unwrap_err()
        )
    );
}

#[test]
fn escaped_texts_are_read() {
    let fields = ["a\"b", "\\", "\n", "\u{1}", "\u{e4}", "", "/", "x"];
    let mut raw = String::from("[");
    for (i, f) in fields.iter().enumerate() {
        if i > 0 {
            raw.push(',');
        }
        raw.push_str(&serde_json::to_string(f).unwrap());
    }
    raw.push(']');
    let p = read_groth16_proof("p.json", Ok(raw)).unwrap();
    assert!(p.a.starts_with(&pad("a\"b")));
    assert!(p.c.ends_with(&pad("x")));
}
