//! What errors say and how they are answered, and what is configured.
use crate::config::{env_or, env_value, env_var, require, Config, ConfigError};
use crate::decimal::{decimal, integer_text};
use crate::error::{AppError, ErrorResponse};
use crate::hexadecimal::HexError;
use crate::laws::{
    decimal_is_number, in_quotes, is_number, number_is_decimal, plain, plain_is_quoted,
};
use crate::models::default_true;
use crate::proof_service::ProofServiceError;
use crate::routes::health;
use crate::soroban_client::{contract_error_name, SorobanError};
use vstd::prelude::*;
use vstd::string::*;

verus! {

// ---------------------------------------------------------------------
// Numbers in messages
// ---------------------------------------------------------------------
/// Whether a word is a number in decimal, with a minus sign where it is negative.
pub open spec fn is_signed(word: Seq<char>, n: int) -> bool {
    if n >= 0 {
        is_number(word, n)
    } else {
        word.len() > 1 && word[0] == '-' && is_number(word.skip(1), -n)
    }
}

/// The word for a number is that number.
pub proof fn text_is_signed(n: int)
    ensures
        is_signed(integer_text(n), n),
{
    if n >= 0 {
        decimal_is_number(n as nat);
    } else {
        decimal_is_number((-n) as nat);
        assert(integer_text(n).skip(1) =~= decimal((-n) as nat));
    }
}

/// There is one word for a number.
pub proof fn signed_is_text(word: Seq<char>, n: int)
    requires
        is_signed(word, n),
    ensures
        integer_text(n) == word,
{
    if n >= 0 {
        number_is_decimal(word, n as nat);
    } else {
        number_is_decimal(word.skip(1), (-n) as nat);
        assert(seq!['-'] + word.skip(1) =~= word);
    }
}

// ---------------------------------------------------------------------
// What errors say
// ---------------------------------------------------------------------
/// An error of the chain says all that it knows.
pub proof fn chain_errors_are_told(e: &SorobanError, word: Seq<char>, r: String)
    requires
        call_ensures(SorobanError::message, (e,), r),
        match e {
            SorobanError::Contract { code, .. } => is_number(word, *code as int),
            SorobanError::Cli { status, .. } => is_signed(word, *status as int),
            _ => true,
        },
    ensures
        match e {
            SorobanError::Spawn { cli, source } => r@ == "failed to launch `"@ + cli@ + "`: "@
                + source@,
            SorobanError::Contract { code, name } => r@
                == "the AnonVote contract rejected this call: "@ + name@ + " (#"@ + word + ")"@,
            SorobanError::Cli { status, stderr } => r@ == "stellar CLI exited with status "@ + word
                + ": "@ + stderr@,
            SorobanError::Decode { expected, output, source } => r@
                == "could not parse CLI output as "@ + expected@ + ": "@ + source@
                + "\noutput was: "@ + output@,
            SorobanError::TransactionFailed { tx_hash, detail } => r@ == "submitted transaction "@
                + tx_hash@ + " but it did not succeed: "@ + detail@,
        },
{
    match e {
        SorobanError::Contract { code, .. } => {
            signed_is_text(word, *code as int);
        },
        SorobanError::Cli { status, .. } => {
            signed_is_text(word, *status as int);
        },
        _ => {},
    }
}

/// An error of the proof generation says all that it knows.
pub proof fn proof_errors_are_told(e: &ProofServiceError, r: String)
    requires
        call_ensures(ProofServiceError::message, (e,), r),
    ensures
        match e {
            ProofServiceError::InvalidInput(m) => r@ == m@,
            ProofServiceError::Unavailable(_) => r@
                == "server-side proof generation is not configured on this backend (no BB_PATH); submit an already-built `proof` instead"@,
            ProofServiceError::Spawn { program, source } => r@ == "failed to run `"@ + program@
                + "`: "@ + source@,
            ProofServiceError::WitnessGeneration { stderr } => r@ == "witness generation failed:\n"@
                + stderr@,
            ProofServiceError::Proving { stderr } => r@ == "proving failed:\n"@ + stderr@,
            ProofServiceError::Io(m) => r@
                == "filesystem error while preparing the circuit workspace: "@ + m@,
        },
{
}

/// Every code of the contract has its name, and any other code has none.
pub proof fn codes_have_their_names(code: u32, r: &str)
    requires
        call_ensures(contract_error_name, (code,), r),
    ensures
        code == 1 ==> r@ == "AlreadyInitialized"@,
        code == 2 ==> r@ == "NotInitialized"@,
        code == 3 ==> r@ == "NotAdmin"@,
        code == 4 ==> r@ == "RoundNotFound"@,
        code == 5 ==> r@ == "RegistrationSetFull"@,
        code == 6 ==> r@ == "AlreadyRegistered"@,
        code == 7 ==> r@ == "RegistrationClosed"@,
        code == 8 ==> r@ == "VotingNotOpen"@,
        code == 9 ==> r@ == "VotingClosed"@,
        code == 10 ==> r@ == "InvalidChoice"@,
        code == 11 ==> r@ == "InvalidProof"@,
        code == 12 ==> r@ == "NullifierAlreadyUsed"@,
        code == 13 ==> r@ == "InvalidPhaseTransition"@,
        code == 14 ==> r@ == "RoundAlreadyFinalized"@,
        code == 15 ==> r@ == "InvalidVerifyingKey"@,
        code == 0 || code > 15 ==> r@ == "Unknown"@,
{
}

/// Why a text is no hexadecimal is said with the place of what is wrong.
pub proof fn hex_errors_are_told(e: &HexError, word: Seq<char>, r: String)
    requires
        call_ensures(HexError::message, (e,), r),
        e matches HexError::InvalidHexCharacter { c, index } ==> is_number(word, *index as int),
    ensures
        match e {
            HexError::InvalidHexCharacter { c, index } => r@ == "Invalid character "@
                + crate::text::char_debug(*c) + " at position "@ + word,
            HexError::OddLength => r@ == "Odd number of digits"@,
            HexError::InvalidStringLength => r@ == "Invalid string length"@,
        },
{
    if let HexError::InvalidHexCharacter { c, index } = e {
        signed_is_text(word, *index as int);
    }
}

// ---------------------------------------------------------------------
// How errors are answered
// ---------------------------------------------------------------------
/// Every error is answered with its status and with what the caller may know: what is wrong with
/// the request in full, and nothing of what the network, the database or anything unforeseen says.
pub proof fn errors_are_answered(
    e: &AppError,
    word: Seq<char>,
    said: String,
    r: (u16, String),
)
    requires
        call_ensures(AppError::status_and_answer, (e,), r),
        e matches AppError::Soroban(SorobanError::Contract { code, .. }) ==> is_number(
            word,
            *code as int,
        ),
        e matches AppError::Proof(p) ==> call_ensures(ProofServiceError::message, (p,), said),
    ensures
        match e {
            AppError::BadRequest(m) => r.0 == 400 && r.1@ == m@,
            AppError::NotFound(m) => r.0 == 404 && r.1@ == m@,
            AppError::Conflict(m) => r.0 == 409 && r.1@ == m@,
            AppError::Soroban(SorobanError::Contract { code, name }) => r.0 == 422 && r.1@
                == "on-chain call rejected: "@ + name@ + " (contract error #"@ + word + ")"@,
            AppError::Soroban(_) => r.0 == 502 && r.1@ == "failed to reach the Soroban network"@,
            AppError::Proof(ProofServiceError::Unavailable(m)) => r.0 == 503 && r.1@ == m@,
            AppError::Proof(_) => r.0 == 422 && r.1@ == "proof generation failed: "@ + said@,
            AppError::Db(_) => r.0 == 500 && r.1@ == "internal database error"@,
            AppError::Other(_) => r.0 == 500 && r.1@ == "internal server error"@,
        },
{
    if let AppError::Soroban(SorobanError::Contract { code, .. }) = e {
        signed_is_text(word, *code as int);
    }
}

/// The answer is an object with what the caller may know, in full.
pub proof fn answer_is_an_object(e: &AppError, a: (u16, String), r: ErrorResponse)
    requires
        call_ensures(AppError::status_and_answer, (e,), a),
        call_ensures(AppError::into_response, (e,), r),
    ensures
        r.status == a.0,
        plain(a.1@) ==> r.body@ == "{\"error\":"@ + in_quotes(a.1@) + "}"@,
        r.body@ == "{\"error\":"@ + crate::json::json_quoted(a.1@) + "}"@,
{
    if plain(a.1@) {
        plain_is_quoted(a.1@);
    }
}

/// An error says what it was made with.
pub proof fn errors_are_told(e: &AppError, said: String, r: String)
    requires
        call_ensures(AppError::message, (e,), r),
        e matches AppError::Soroban(s) ==> call_ensures(SorobanError::message, (s,), said),
        e matches AppError::Proof(p) ==> call_ensures(ProofServiceError::message, (p,), said),
    ensures
        match e {
            AppError::BadRequest(m) => r@ == m@,
            AppError::NotFound(m) => r@ == "not found: "@ + m@,
            AppError::Conflict(m) => r@ == "conflict: "@ + m@,
            AppError::Soroban(_) => r@ == said@,
            AppError::Proof(_) => r@ == said@,
            AppError::Db(m) => r@ == m@,
            AppError::Other(m) => r@ == m@,
        },
{
}

// ---------------------------------------------------------------------
// The configuration
// ---------------------------------------------------------------------
/// What the environment holds under a name: the value of its first entry with that name.
pub open spec fn entry(vars: Seq<(String, String)>, name: Seq<char>) -> Option<Seq<char>>
    decreases vars.len(),
{
    if vars.len() == 0 {
        None
    } else if entry(vars.drop_last(), name) is Some {
        entry(vars.drop_last(), name)
    } else if vars.last().0@ == name {
        Some(vars.last().1@)
    } else {
        None
    }
}

proof fn entry_is_found(vars: Seq<(String, String)>, name: Seq<char>)
    ensures
        entry(vars, name) == env_value(vars, name),
    decreases vars.len(),
{
    if vars.len() == 1 {
        assert(vars.drop_last() =~= Seq::empty());
        assert(vars.drop_first() =~= Seq::empty());
        assert(env_value(vars.drop_first(), name) is None);
        assert(entry(vars.drop_last(), name) is None);
    } else if vars.len() > 1 {
        let init = vars.drop_last();
        let tail = vars.drop_first();
        entry_is_found(init, name);
        entry_is_found(tail, name);
        entry_is_found(init.drop_first(), name);
        assert(init.drop_first() =~= tail.drop_last());
    }
}

/// What a name gives, or else a default.
pub open spec fn entry_or(
    vars: Seq<(String, String)>,
    name: Seq<char>,
    default: Seq<char>,
) -> Seq<char> {
    match entry(vars, name) {
        Some(v) => v,
        None => default,
    }
}

/// Whether a text that may be absent is one that may be absent.
pub open spec fn is_entry(field: Option<String>, value: Option<Seq<char>>) -> bool {
    &&& field is Some <==> value is Some
    &&& field matches Some(f) ==> value == Some(f@)
}

/// There is a configuration just where the three required names are there and a network is named,
/// and it holds each name's own value, or its default.
pub proof fn configuration_is_the_environment(
    vars: &Vec<(String, String)>,
    r: Result<Config, ConfigError>,
)
    requires
        call_ensures(Config::from_env, (vars,), r),
    ensures
        r is Ok <==> entry(vars@, "DATABASE_URL"@) is Some && entry(
            vars@,
            "ANONVOTE_CONTRACT_ID"@,
        ) is Some && entry(vars@, "STELLAR_OPERATOR_IDENTITY"@) is Some && (entry(
            vars@,
            "STELLAR_NETWORK"@,
        ) is Some || entry(vars@, "STELLAR_RPC_URL"@) is Some && entry(
            vars@,
            "STELLAR_NETWORK_PASSPHRASE"@,
        ) is Some),
        r matches Ok(c) ==> {
            let bb = entry(vars@, "BB_PATH"@);
            &&& entry(vars@, "DATABASE_URL"@) == Some(c.database_url@)
            &&& entry(vars@, "ANONVOTE_CONTRACT_ID"@) == Some(c.contract_id@)
            &&& entry(vars@, "STELLAR_OPERATOR_IDENTITY"@) == Some(c.operator_identity@)
            &&& is_entry(c.stellar_network, entry(vars@, "STELLAR_NETWORK"@))
            &&& is_entry(c.stellar_rpc_url, entry(vars@, "STELLAR_RPC_URL"@))
            &&& is_entry(
                c.stellar_network_passphrase,
                entry(vars@, "STELLAR_NETWORK_PASSPHRASE"@),
            )
            &&& c.bind_addr@ == entry_or(vars@, "BIND_ADDR"@, "0.0.0.0:8080"@)
            &&& c.stellar_cli_path@ == entry_or(vars@, "STELLAR_CLI_PATH"@, "stellar"@)
            &&& c.circuit_dir@ == entry_or(
                vars@,
                "ANONVOTE_CIRCUIT_DIR"@,
                "../anonvote-contracts/circuits/anonvote"@,
            )
            &&& c.nargo_path@ == entry_or(vars@, "NARGO_PATH"@, "nargo"@)
            &&& c.treasury_identity@ == entry_or(
                vars@,
                "STELLAR_TREASURY_IDENTITY"@,
                c.operator_identity@,
            )
            &&& c.bb_path is Some <==> bb is Some && bb->0.len() > 0
            &&& c.bb_path matches Some(p) ==> bb == Some(p@)
        },
{
    entry_is_found(vars@, "DATABASE_URL"@);
    entry_is_found(vars@, "ANONVOTE_CONTRACT_ID"@);
    entry_is_found(vars@, "STELLAR_OPERATOR_IDENTITY"@);
    entry_is_found(vars@, "STELLAR_NETWORK"@);
    entry_is_found(vars@, "STELLAR_RPC_URL"@);
    entry_is_found(vars@, "STELLAR_NETWORK_PASSPHRASE"@);
    entry_is_found(vars@, "BIND_ADDR"@);
    entry_is_found(vars@, "STELLAR_CLI_PATH"@);
    entry_is_found(vars@, "ANONVOTE_CIRCUIT_DIR"@);
    entry_is_found(vars@, "NARGO_PATH"@);
    entry_is_found(vars@, "BB_PATH"@);
    entry_is_found(vars@, "STELLAR_TREASURY_IDENTITY"@);
}

/// Of several names that are missing the first is told, and the network last.
pub proof fn missing_names_are_told(
    vars: &Vec<(String, String)>,
    e: ConfigError,
    said: String,
)
    requires
        call_ensures(Config::from_env, (vars,), Err::<Config, ConfigError>(e)),
        call_ensures(ConfigError::message, (&e,), said),
    ensures
        said@ == (if entry(vars@, "DATABASE_URL"@) is None {
            "missing required env var "@ + "DATABASE_URL"@
        } else if entry(vars@, "ANONVOTE_CONTRACT_ID"@) is None {
            "missing required env var "@ + "ANONVOTE_CONTRACT_ID"@
        } else if entry(vars@, "STELLAR_OPERATOR_IDENTITY"@) is None {
            "missing required env var "@ + "STELLAR_OPERATOR_IDENTITY"@
        } else {
            "set STELLAR_NETWORK (e.g. \"testnet\") or both STELLAR_RPC_URL and STELLAR_NETWORK_PASSPHRASE"@
        }),
{
    entry_is_found(vars@, "DATABASE_URL"@);
    entry_is_found(vars@, "ANONVOTE_CONTRACT_ID"@);
    entry_is_found(vars@, "STELLAR_OPERATOR_IDENTITY"@);
}

/// A name is looked up by its first entry; where it is required and missing it is told, and a
/// default stands in for it where there is one.
pub proof fn names_are_looked_up(
    vars: &Vec<(String, String)>,
    name: &str,
    default: &str,
    a: Option<String>,
    b: Result<String, ConfigError>,
    c: String,
)
    requires
        call_ensures(env_var, (vars, name), a),
        call_ensures(require, (vars, name), b),
        call_ensures(env_or, (vars, name, default), c),
    ensures
        is_entry(a, entry(vars@, name@)),
        b matches Ok(v) ==> entry(vars@, name@) == Some(v@),
        b matches Err(e) ==> entry(vars@, name@) is None && (e matches ConfigError::Missing(m) && m@
            == name@),
        c@ == entry_or(vars@, name@, default@),
{
    entry_is_found(vars@, name@);
}

/// What a request leaves out is taken as eligible, and a service that is up says so.
pub proof fn defaults_are_known(eligible: bool, up: &str)
    requires
        call_ensures(default_true, (), eligible),
        call_ensures(health, (), up),
    ensures
        eligible,
        up@ == "ok"@,
{
}

} // verus!
