use anonvote_backend::config::Config;
use anonvote_backend::models::ProofDto;
use anonvote_backend::soroban_client::{
    addr, bool_, contract_error_name, decode_u64, decode_u64_list, decode_unit,
    find_contract_error, find_tx_hash, hex_bytes, json, rejection, text, u32_, u64_,
    ProcessOutput, SorobanClient, SorobanError,
};

fn client() -> SorobanClient {
    let vars: Vec<(String, String)> = [
        ("DATABASE_URL", "postgres://x"),
        ("ANONVOTE_CONTRACT_ID", "CABC"),
        ("STELLAR_OPERATOR_IDENTITY", "operator"),
        ("STELLAR_NETWORK", "testnet"),
    ]
    .iter()
    .map(|(k, v)| (k.to_string(), v.to_string()))
    .collect();
    SorobanClient::new(&Config::from_env(&vars).unwrap())
}

fn output(success: bool, stdout: &str, stderr: &str) -> Result<ProcessOutput, String> {
    Ok(ProcessOutput {
        success,
        code: if success { Some(0) } else { Some(1) },
        stdout: stdout.as_bytes().to_vec(),
        stderr: stderr.as_bytes().to_vec(),
    })
}

fn hash() -> String {
    "0123456789abcdefABCDEF0123456789".repeat(2)
}

#[test]
fn error_codes_have_names() {
    let names = [
        "AlreadyInitialized",
        "NotInitialized",
        "NotAdmin",
        "RoundNotFound",
        "RegistrationSetFull",
        "AlreadyRegistered",
        "RegistrationClosed",
        "VotingNotOpen",
        "VotingClosed",
        "InvalidChoice",
        "InvalidProof",
        "NullifierAlreadyUsed",
        "InvalidPhaseTransition",
        "RoundAlreadyFinalized",
        "InvalidVerifyingKey",
    ];
    for (i, name) in names.iter().enumerate() {
        assert_eq!(contract_error_name(i as u32 + 1), *name);
    }
    assert_eq!(contract_error_name(0), "Unknown");
    assert_eq!(contract_error_name(16), "Unknown");
}

#[test]
fn rejections_are_found_in_the_output() {
    let code = |s: &str| match find_contract_error(s) {
        Some(SorobanError::Contract { code, name }) => Some((code, name)),
        Some(_) => panic!("not a rejection"),
        None => None,
    };
    assert_eq!(code("host: Error(Contract, #12) at"), Some((12, "NullifierAlreadyUsed")));
    assert_eq!(code("Error(Contract,#3)"), Some((3, "NotAdmin")));
    assert_eq!(code("Error(Contract,\n  #3)"), Some((3, "NotAdmin")));
    assert_eq!(code("Error(Contract, #1) then Error(Contract, #2)"), Some((1, "AlreadyInitialized")));
    assert_eq!(code("Error(Contract, #99)"), Some((99, "Unknown")));
    // too large for a code: counts as zero
    assert_eq!(code("Error(Contract, #99999999999)"), Some((0, "Unknown")));
    assert_eq!(code("Error(Contract, #)"), None);
    assert_eq!(code("Error(Budget, #1)"), None);
    assert_eq!(code(""), None);
}

#[test]
fn rejection_reads_its_digits() {
    assert!(matches!(rejection("7"), SorobanError::Contract { code: 7, name: "RegistrationClosed" }));
    assert!(matches!(rejection("x"), SorobanError::Contract { code: 0, name: "Unknown" }));
}

#[test]
fn transaction_hashes_are_found_in_the_output() {
    let h = hash();
    assert_eq!(find_tx_hash(&format!("Signing transaction: {}\n", h)), Some(h.clone()));
    assert_eq!(find_tx_hash(&format!("x Signing transaction:{}", h)), Some(h.clone()));
    assert_eq!(
        find_tx_hash(&format!("https://stellar.expert/explorer/testnet/tx/{}", h)),
        Some(h.clone())
    );
    assert_eq!(find_tx_hash(&format!("transaction {}", h)), None);
    assert_eq!(find_tx_hash("Signing transaction: 1234"), None);
}

#[test]
fn arguments_are_encoded_by_their_kind() {
    let a = addr("voter", "GABC");
    assert_eq!((a.0.as_str(), a.1.as_str()), ("voter", "GABC"));
    assert_eq!(u64_("n", u64::MAX).1, "18446744073709551615");
    assert_eq!(u32_("n", 0).1, "0");
    assert_eq!(bool_("b", true).1, "true");
    assert_eq!(bool_("b", false).1, "false");
    assert_eq!(text("t", " as it is ").1, " as it is ");
    assert_eq!(hex_bytes("h", "0xABcd").1, "abcd");
    assert_eq!(hex_bytes("h", "ABcd").1, "abcd");
    assert_eq!(hex_bytes("h", "0XABcd").1, "abcd");
    assert_eq!(hex_bytes("h", "0X12").1, "12");
    assert_eq!(hex_bytes("h", "0x0X0x12").1, "12");
    assert_eq!(hex_bytes("h", "0X").1, "");
    assert_eq!(hex_bytes("h", "x12").1, "x12");
    assert_eq!(hex_bytes("h", "0x\u{3a3}").1, "\u{3c3}");
    assert_eq!(hex_bytes("h", "\u{c4}").1, "\u{e4}");
}

#[test]
fn proofs_are_json_objects() {
    let p = ProofDto { a: "1".to_string(), b: "2\"".to_string(), c: "".to_string() };
    assert_eq!(json("proof", &p).1, "{\"a\":\"1\",\"b\":\"2\\\"\",\"c\":\"\"}");
}

#[test]
fn reads_are_simulated_only() {
    let call = client().read("tally", &[u64_("round_id", 5)]);
    assert_eq!(call.program, "stellar");
    assert_eq!(
        call.args,
        vec![
            "contract", "invoke", "--id", "CABC", "--source-account", "operator", "--network",
            "testnet", "--send", "no", "--", "tally", "--round_id", "5"
        ]
    );
    assert_eq!(call.input, None);
}

#[test]
fn operator_calls_are_sent() {
    let call = client().invoke_as_operator("f", &[text("a", "x"), bool_("b", true)]);
    assert_eq!(
        call.args,
        vec![
            "contract", "invoke", "--id", "CABC", "--source-account", "operator", "--network",
            "testnet", "--", "f", "--a", "x", "--b", "true"
        ]
    );
}

#[test]
fn signed_transactions_are_relayed_on_standard_input() {
    let call = client().relay_signed_xdr("  AAAA\n");
    assert_eq!(call.args, vec!["tx", "send", "--network", "testnet"]);
    assert_eq!(call.input.as_deref(), Some("AAAA"));
}

#[test]
fn payments_name_source_destination_and_amount() {
    let call = client().send_payment("treasury", "GDEF", 42);
    assert_eq!(
        call.args,
        vec![
            "tx", "new", "payment", "--source-account", "treasury", "--destination", "GDEF",
            "--amount", "42", "--network", "testnet"
        ]
    );
}

#[test]
fn identities_are_resolved_by_the_cli() {
    let call = SorobanClient::resolve_address("/bin/stellar", "operator");
    assert_eq!(call.program, "/bin/stellar");
    assert_eq!(call.args, vec!["keys", "address", "operator"]);
    assert_eq!(
        SorobanClient::resolved_address("s", output(true, " GABC \n", "")).unwrap(),
        "GABC"
    );
    assert!(matches!(
        SorobanClient::resolved_address("s", output(false, "", "no key")),
        Err(SorobanError::Cli { status: 1, stderr }) if stderr == "no key"
    ));
    assert!(matches!(
        SorobanClient::resolved_address("s", Err("gone".to_string())),
        Err(SorobanError::Spawn { cli, source }) if cli == "s" && source == "gone"
    ));
}

#[test]
fn a_run_gives_its_outputs_or_why_not() {
    let c = client();
    let raw = c.run(output(true, "out", "err")).unwrap();
    assert_eq!((raw.stdout.as_str(), raw.stderr.as_str()), ("out", "err"));
    assert!(matches!(
        c.run(output(false, "", "Error(Contract, #4)")),
        Err(SorobanError::Contract { code: 4, name: "RoundNotFound" })
    ));
    assert!(matches!(
        c.run(output(false, "", "boom")),
        Err(SorobanError::Cli { status: 1, stderr }) if stderr == "boom"
    ));
    let killed = ProcessOutput { success: false, code: None, stdout: vec![], stderr: vec![0xff] };
    assert!(matches!(
        c.run(Ok(killed)),
        Err(SorobanError::Cli { status: -1, stderr }) if stderr == "\u{fffd}"
    ));
    assert!(matches!(c.run(Err("gone".to_string())), Err(SorobanError::Spawn { .. })));
}

#[test]
fn a_successful_run_is_no_rejection() {
    assert!(client().run(output(true, "", "Error(Contract, #4)")).is_ok());
}

#[test]
fn return_values_are_read_from_json() {
    assert_eq!(decode_u64(" 7\n", "x").unwrap(), 7);
    assert_eq!(decode_u64("18446744073709551615", "x").unwrap(), u64::MAX);
    for s in ["", "07", "-1", "1.0", "1e3", "\"7\"", "18446744073709551616", "7 8"] {
        assert!(decode_u64(s, "x").is_err(), "{:?}", s);
    }
    assert!(decode_unit("null\n", "x").is_ok());
    for s in ["", "nul", "0", "()", "null null"] {
        assert!(decode_unit(s, "x").is_err());
    }
    assert_eq!(decode_u64_list("[1,2,3]", "x").unwrap(), vec![1, 2, 3]);
    assert_eq!(decode_u64_list("[]", "x").unwrap(), Vec::<u64>::new());
    assert_eq!(decode_u64_list("[ 1 ,\n2 ]", "x").unwrap(), vec![1, 2]);
    assert!(decode_u64_list("[1,]", "x").is_err());
    assert!(decode_u64_list("[-1]", "x").is_err());
}

#[test]
fn what_cannot_be_read_is_told() {
    match decode_u64(" seven ", "read result") {
        Err(SorobanError::Decode { expected, output, source }) => {
            assert_eq!(expected, "read result");
            assert_eq!(output, "seven");
            assert_eq!(source, serde_json::from_str::<u64>("seven").unwrap_err().to_string());
        },
        _ => panic!("read"),
    }
}

#[test]
fn calls_return_their_value_and_hash() {
    let c = client();
    let signed = format!("Signing transaction: {}\n", hash());
    let i = c.invoked_u64(output(true, "9\n", &signed)).unwrap();
    assert_eq!((i.value, i.tx_hash), (9, Some(hash())));
    let i = c.invoked_unit(output(true, "null", "")).unwrap();
    assert_eq!(i.tx_hash, None);
    let i = c.invoked_list(output(true, "[4,0]", &signed)).unwrap();
    assert_eq!((i.value, i.tx_hash), (vec![4, 0], Some(hash())));
    assert!(matches!(
        c.invoked_u64(output(true, "x", "")),
        Err(SorobanError::Decode { expected: "invoke result", .. })
    ));
    assert_eq!(c.read_list(output(true, "[1]\n", "")).unwrap(), vec![1]);
    assert!(matches!(
        c.read_list(output(true, "x", "")),
        Err(SorobanError::Decode { expected: "read result", .. })
    ));
    assert_eq!(c.read_json(output(true, " {} \n", "")).unwrap(), "{}");
    assert_eq!(c.payment_sent(output(true, "", &signed)).unwrap(), Some(hash()));
    assert!(c.payment_sent(output(false, "", "boom")).is_err());
}

#[test]
fn relayed_transactions_succeed_or_fail() {
    let c = client();
    let signed = format!("Signing transaction: {}\n", hash());
    assert_eq!(c.relayed(output(true, "", &signed)).unwrap().tx_hash, Some(hash()));
    assert_eq!(c.relayed(output(true, &signed, "")).unwrap().tx_hash, Some(hash()));
    assert_eq!(c.relayed(output(true, "", "")).unwrap().tx_hash, None);
    assert!(matches!(
        c.relayed(output(false, "", "Error(Contract, #6)")),
        Err(SorobanError::Contract { code: 6, name: "AlreadyRegistered" })
    ));
    match c.relayed(output(false, "", &signed)) {
        Err(SorobanError::TransactionFailed { tx_hash, detail }) => {
            assert_eq!(tx_hash, hash());
            assert_eq!(detail, signed);
        },
        _ => panic!("relayed"),
    }
    assert!(matches!(
        c.relayed(output(false, "", "boom")),
        Err(SorobanError::TransactionFailed { tx_hash, .. }) if tx_hash.is_empty()
    ));
    assert!(matches!(c.relayed(Err("gone".to_string())), Err(SorobanError::Spawn { .. })));
}
