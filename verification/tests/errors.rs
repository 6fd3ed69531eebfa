use anonvote_backend::error::AppError;
use anonvote_backend::proof_service::ProofServiceError;
use anonvote_backend::soroban_client::{contract_error_name, SorobanError};

fn answer(e: AppError) -> (u16, String) {
    let r = e.into_response();
    (r.status, r.body)
}

#[test]
fn requests_are_refused_with_their_reason() {
    assert_eq!(
        answer(AppError::BadRequest("a \"b\"\n".to_string())),
        (400, "{\"error\":\"a \\\"b\\\"\\n\"}".to_string())
    );
    assert_eq!(
        answer(AppError::NotFound("round 7".to_string())),
        (404, "{\"error\":\"round 7\"}".to_string())
    );
    assert_eq!(
        answer(AppError::Conflict("no".to_string())),
        (409, "{\"error\":\"no\"}".to_string())
    );
}

#[test]
fn rejections_of_the_contract_are_named() {
    let e = SorobanError::Contract { code: 12, name: contract_error_name(12) };
    assert_eq!(
        answer(AppError::Soroban(e)),
        (
            422,
            "{\"error\":\"on-chain call rejected: NullifierAlreadyUsed (contract error #12)\"}".to_string()
        )
    );
}

#[test]
fn failures_of_the_network_stay_inside() {
    for e in [
        SorobanError::Spawn { cli: "stellar".to_string(), source: "gone".to_string() },
        SorobanError::Cli { status: 1, stderr: "secret".to_string() },
        SorobanError::Decode { expected: "x", output: "y".to_string(), source: "z".to_string() },
        SorobanError::TransactionFailed { tx_hash: "h".to_string(), detail: "d".to_string() },
    ] {
        assert_eq!(
            answer(AppError::Soroban(e)),
            (502, "{\"error\":\"failed to reach the Soroban network\"}".to_string())
        );
    }
}

#[test]
fn proof_failures_are_told_apart() {
    assert_eq!(
        answer(AppError::Proof(ProofServiceError::Unavailable("not here".to_string()))),
        (503, "{\"error\":\"not here\"}".to_string())
    );
    assert_eq!(
        answer(AppError::Proof(ProofServiceError::Proving { stderr: "bad".to_string() })),
        (422, "{\"error\":\"proof generation failed: proving failed:\\nbad\"}".to_string())
    );
}

#[test]
fn internal_errors_say_nothing() {
    assert_eq!(
        answer(AppError::Db("password".to_string())),
        (500, "{\"error\":\"internal database error\"}".to_string())
    );
    assert_eq!(
        answer(AppError::Other("password".to_string())),
        (500, "{\"error\":\"internal server error\"}".to_string())
    );
}

#[test]
fn control_characters_are_escaped() {
    assert_eq!(
        answer(AppError::BadRequest("\u{1}\u{1f}\u{8}\u{c}\r\t\\\u{7f}\u{e4}".to_string())).1,
        "{\"error\":\"\\u0001\\u001f\\b\\f\\r\\t\\\\\u{7f}\u{e4}\"}"
    );
}

#[test]
fn errors_say_what_happened() {
    assert_eq!(AppError::BadRequest("x".to_string()).message(), "x");
    assert_eq!(AppError::NotFound("x".to_string()).message(), "not found: x");
    assert_eq!(AppError::Conflict("x".to_string()).message(), "conflict: x");
    assert_eq!(AppError::Db("x".to_string()).message(), "x");
    assert_eq!(AppError::Other("x".to_string()).message(), "x");
    assert_eq!(
        AppError::Soroban(SorobanError::Contract { code: 3, name: "NotAdmin" }).message(),
        "the AnonVote contract rejected this call: NotAdmin (#3)"
    );
    assert_eq!(
        SorobanError::Spawn { cli: "stellar".to_string(), source: "gone".to_string() }.message(),
        "failed to launch `stellar`: gone"
    );
    assert_eq!(
        SorobanError::Cli { status: -1, stderr: "boom".to_string() }.message(),
        "stellar CLI exited with status -1: boom"
    );
    assert_eq!(
        SorobanError::Decode { expected: "x", output: "y".to_string(), source: "z".to_string() }.message(),
        "could not parse CLI output as x: z\noutput was: y"
    );
    assert_eq!(
        SorobanError::TransactionFailed { tx_hash: "h".to_string(), detail: "d".to_string() }.message(),
        "submitted transaction h but it did not succeed: d"
    );
    assert_eq!(
        AppError::Proof(ProofServiceError::InvalidInput("x".to_string())).message(),
        "x"
    );
    assert_eq!(
        ProofServiceError::Unavailable("x".to_string()).message(),
        "server-side proof generation is not configured on this backend (no BB_PATH); submit an already-built `proof` instead"
    );
    assert_eq!(
        ProofServiceError::Spawn { program: "nargo".to_string(), source: "gone".to_string() }.message(),
        "failed to run `nargo`: gone"
    );
    assert_eq!(
        ProofServiceError::WitnessGeneration { stderr: "bad".to_string() }.message(),
        "witness generation failed:\nbad"
    );
    assert_eq!(
        ProofServiceError::Io("full".to_string()).message(),
        "filesystem error while preparing the circuit workspace: full"
    );
}
