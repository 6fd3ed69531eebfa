//! Soroban integration: the command lines of the `stellar` CLI that talk to the AnonVote contract,
//! and what the CLI's output says.
//!
//! A successful call prints the decoded return value as JSON on its standard output; a rejected
//! call exits with an `Error(Contract, #N)` line on its standard error. Two call shapes are used:
//! - **operator-signed** (`invoke_as_operator`): this backend's own identity is the transaction
//!   source and signer.
//! - **relay** (`relay_signed_xdr`): a transaction someone else already built and signed is
//!   forwarded to the network.
use crate::config::Config;
use crate::decimal::{decimal, i64_text, integer_text, parse_u32, read_unsigned, u64_text};
use crate::hexadecimal::{all_hex_chars, is_hex_char};
use crate::json::{
    is_spaced_by_nothing, json_list, json_quoted, json_u64, json_u64_list, json_unit, list_is_read, number_is_read,
    parse_json_u64, parse_json_u64_list, parse_json_unit, quote_json, unit_is_read,
};
use crate::models::{OnChainRound, ProofDto};
use crate::pattern::{
    absent_before, capture, first_group, is_tx_hash, CONTRACT_ERROR_PATTERN, TX_HASH_PATTERN,
};
use crate::text::{
    ascii_lower, ascii_lowercase, copy_texts, from_utf8_lossy, has_any_hex_prefix,
    has_hex_prefix, is_space, lowercase, no_prefix_is_left, optional_text, texts, to_lowercase,
    trim, trim_any_hex_prefix, trimmed, trimmed_end, trimmed_start, utf8_lossy,
    without_any_hex_prefix,
};
use vstd::prelude::*;
use vstd::string::*;
use vstd::utf8::is_ascii_chars;

verus! {

// ---------------------------------------------------------------------
// Errors
// ---------------------------------------------------------------------
/// Why a call of the CLI gave no result.
#[derive(Debug)]
pub enum SorobanError {
    /// The CLI did not run. `source` is what the system says of it.
    Spawn { cli: String, source: String },
    /// The contract rejected the call.
    Contract { code: u32, name: &'static str },
    /// The CLI ended without success.
    Cli { status: i32, stderr: String },
    /// The CLI's output is not what was expected. `source` is what the JSON reader says of it.
    Decode { expected: &'static str, output: String, source: String },
    /// The transaction was sent and did not succeed.
    TransactionFailed { tx_hash: String, detail: String },
}

/// A `SorobanError` with its texts as characters.
pub enum SorobanErrorView {
    Spawn { cli: Seq<char>, source: Seq<char> },
    Contract { code: u32, name: Seq<char> },
    Cli { status: i32, stderr: Seq<char> },
    Decode { expected: Seq<char>, output: Seq<char>, source: Seq<char> },
    TransactionFailed { tx_hash: Seq<char>, detail: Seq<char> },
}

impl View for SorobanError {
    type V = SorobanErrorView;

    open spec fn view(&self) -> SorobanErrorView {
        match self {
            SorobanError::Spawn { cli, source } => SorobanErrorView::Spawn {
                cli: cli@,
                source: source@,
            },
            SorobanError::Contract { code, name } => SorobanErrorView::Contract {
                code: *code,
                name: name@,
            },
            SorobanError::Cli { status, stderr } => SorobanErrorView::Cli {
                status: *status,
                stderr: stderr@,
            },
            SorobanError::Decode { expected, output, source } => SorobanErrorView::Decode {
                expected: expected@,
                output: output@,
                source: source@,
            },
            SorobanError::TransactionFailed { tx_hash, detail } =>
                SorobanErrorView::TransactionFailed { tx_hash: tx_hash@, detail: detail@ },
        }
    }
}

impl SorobanErrorView {
    /// What the error says.
    pub open spec fn text(self) -> Seq<char> {
        match self {
            SorobanErrorView::Spawn { cli, source } => "failed to launch `"@ + cli + "`: "@ + source,
            SorobanErrorView::Contract { code, name } =>
                "the AnonVote contract rejected this call: "@ + name + " (#"@ + integer_text(
                    code as int,
                ) + ")"@,
            SorobanErrorView::Cli { status, stderr } => "stellar CLI exited with status "@
                + integer_text(status as int) + ": "@ + stderr,
            SorobanErrorView::Decode { expected, output, source } =>
                "could not parse CLI output as "@ + expected + ": "@ + source + "\noutput was: "@
                    + output,
            SorobanErrorView::TransactionFailed { tx_hash, detail } =>
                "submitted transaction "@ + tx_hash + " but it did not succeed: "@ + detail,
        }
    }
}

impl SorobanError {
    /// What the error says.
    pub fn message(&self) -> (r: String)
        ensures
            r@ == self@.text(),
    {
        match self {
            SorobanError::Spawn { cli, source } => {
                let mut out = "failed to launch `".to_owned();
                out.append(cli.as_str());
                out.append("`: ");
                out.append(source.as_str());
                out
            },
            SorobanError::Contract { code, name } => {
                let mut out = "the AnonVote contract rejected this call: ".to_owned();
                out.append(name);
                out.append(" (#");
                out.append(u64_text(*code as u64).as_str());
                out.append(")");
                out
            },
            SorobanError::Cli { status, stderr } => {
                let mut out = "stellar CLI exited with status ".to_owned();
                out.append(i64_text(*status as i64).as_str());
                out.append(": ");
                out.append(stderr.as_str());
                out
            },
            SorobanError::Decode { expected, output, source } => {
                let mut out = "could not parse CLI output as ".to_owned();
                out.append(expected);
                out.append(": ");
                out.append(source.as_str());
                out.append("\noutput was: ");
                out.append(output.as_str());
                out
            },
            SorobanError::TransactionFailed { tx_hash, detail } => {
                let mut out = "submitted transaction ".to_owned();
                out.append(tx_hash.as_str());
                out.append(" but it did not succeed: ");
                out.append(detail.as_str());
                out
            },
        }
    }
}

/// The name of one of the contract's error codes.
pub open spec fn contract_error(code: u32) -> Seq<char> {
    if code == 1 {
        "AlreadyInitialized"@
    } else if code == 2 {
        "NotInitialized"@
    } else if code == 3 {
        "NotAdmin"@
    } else if code == 4 {
        "RoundNotFound"@
    } else if code == 5 {
        "RegistrationSetFull"@
    } else if code == 6 {
        "AlreadyRegistered"@
    } else if code == 7 {
        "RegistrationClosed"@
    } else if code == 8 {
        "VotingNotOpen"@
    } else if code == 9 {
        "VotingClosed"@
    } else if code == 10 {
        "InvalidChoice"@
    } else if code == 11 {
        "InvalidProof"@
    } else if code == 12 {
        "NullifierAlreadyUsed"@
    } else if code == 13 {
        "InvalidPhaseTransition"@
    } else if code == 14 {
        "RoundAlreadyFinalized"@
    } else if code == 15 {
        "InvalidVerifyingKey"@
    } else {
        "Unknown"@
    }
}

/// The name of one of the contract's error codes.
pub fn contract_error_name(code: u32) -> (r: &'static str)
    ensures
        r@ == contract_error(code),
{
    match code {
        1 => "AlreadyInitialized",
        2 => "NotInitialized",
        3 => "NotAdmin",
        4 => "RoundNotFound",
        5 => "RegistrationSetFull",
        6 => "AlreadyRegistered",
        7 => "RegistrationClosed",
        8 => "VotingNotOpen",
        9 => "VotingClosed",
        10 => "InvalidChoice",
        11 => "InvalidProof",
        12 => "NullifierAlreadyUsed",
        13 => "InvalidPhaseTransition",
        14 => "RoundAlreadyFinalized",
        15 => "InvalidVerifyingKey",
        _ => "Unknown",
    }
}

// ---------------------------------------------------------------------
// What the CLI's output says
// ---------------------------------------------------------------------
/// The error that the digits of an `Error(Contract, #N)` stand for. Digits that are no `u32` count
/// as zero.
pub open spec fn rejection_for(digits: Seq<char>) -> SorobanErrorView {
    let code = match read_unsigned(digits, u32::MAX as nat) {
        Some(n) => n as u32,
        None => 0u32,
    };
    SorobanErrorView::Contract { code, name: contract_error(code) }
}

/// The contract's rejection, from the digits of its `Error(Contract, #N)`.
pub fn rejection(digits: &str) -> (r: SorobanError)
    ensures
        r@ == rejection_for(digits@),
{
    let code: u32 = match parse_u32(digits) {
        Some(n) => n,
        None => 0,
    };
    SorobanError::Contract { code, name: contract_error_name(code) }
}

/// What a pattern captures in a text, where it matches.
pub open spec fn captured(pattern: Seq<char>, s: Seq<char>) -> Option<Seq<char>> {
    match first_group(pattern, s) {
        Some(g) => g,
        None => None,
    }
}

/// The rejection that the CLI's standard error reports, if it reports one.
pub open spec fn reported_rejection(stderr: Seq<char>) -> Option<SorobanErrorView> {
    match captured(CONTRACT_ERROR_PATTERN@, stderr) {
        Some(digits) => Some(rejection_for(digits)),
        None => None,
    }
}

/// The view of an error that may be absent.
pub open spec fn optional_error(e: Option<SorobanError>) -> Option<SorobanErrorView> {
    match e {
        Some(e) => Some(e@),
        None => None,
    }
}

/// Whether `r` is the error that the first `Error(Contract, #N)` in `stderr` stands for, where
/// there is one, and none where not even `Error(Contract,` stands there.
pub open spec fn names_rejection(stderr: Seq<char>, r: Option<SorobanErrorView>) -> bool {
    &&& absent_before(stderr, stderr.len() as int, "Error(Contract,"@) ==> r is None
    &&& forall|before: Seq<char>, digits: Seq<char>, after: Seq<char>|
        #![trigger before + "Error(Contract, #"@ + digits + ")"@ + after]
        stderr == before + "Error(Contract, #"@ + digits + ")"@ + after && digits.len() > 0
            && crate::decimal::all_digits(digits) && absent_before(
            stderr,
            before.len() as int,
            "Error(Contract,"@,
        ) ==> r == Some(rejection_for(digits))
}

/// Whether `r` is the hash after the first `Signing transaction: ` in `s`, where there is one and
/// no `explorer/` before it, and none where neither stands in `s`.
pub open spec fn names_tx_hash(s: Seq<char>, r: Option<Seq<char>>) -> bool {
    &&& absent_before(s, s.len() as int, "Signing transaction:"@) && absent_before(
        s,
        s.len() as int,
        "explorer/"@,
    ) ==> r is None
    &&& forall|before: Seq<char>, hash: Seq<char>, after: Seq<char>|
        #![trigger before + "Signing transaction: "@ + hash + after]
        s == before + "Signing transaction: "@ + hash + after && is_tx_hash(hash)
            && absent_before(s, before.len() as int, "Signing transaction:"@)
            && absent_before(s, before.len() as int, "explorer/"@) ==> r == Some(hash)
}

/// The contract's rejection that the CLI's standard error reports, if it reports one.
pub fn find_contract_error(stderr: &str) -> (r: Option<SorobanError>)
    ensures
        optional_error(r) == reported_rejection(stderr@),
        names_rejection(stderr@, optional_error(r)),
{
    match capture(CONTRACT_ERROR_PATTERN, stderr) {
        Some(Some(digits)) => Some(rejection(digits.as_str())),
        _ => None,
    }
}

/// The transaction hash that the CLI's output names, if it names one.
pub fn find_tx_hash(stderr: &str) -> (r: Option<String>)
    ensures
        optional_text(r) == captured(TX_HASH_PATTERN@, stderr@),
        r matches Some(hash) ==> is_tx_hash(hash@),
        names_tx_hash(stderr@, optional_text(r)),
{
    match capture(TX_HASH_PATTERN, stderr) {
        Some(Some(hash)) => Some(hash),
        _ => None,
    }
}

/// What a process left behind when it ended.
#[derive(Debug)]
pub struct ProcessOutput {
    pub success: bool,
    /// The exit code, where the process ended by itself.
    pub code: Option<i32>,
    pub stdout: Vec<u8>,
    pub stderr: Vec<u8>,
}

/// The two outputs of a successful call as text.
#[derive(Debug)]
pub struct RawOutput {
    pub stdout: String,
    pub stderr: String,
}

/// The exit code, or -1.
pub open spec fn exit_status(code: Option<i32>) -> i32 {
    match code {
        Some(c) => c,
        None => -1i32,
    }
}

/// The exit code, or -1.
fn status_of(code: Option<i32>) -> (r: i32)
    ensures
        r == exit_status(code),
{
    match code {
        Some(c) => c,
        None => -1,
    }
}

/// A call's two outputs where it succeeded; otherwise the contract's rejection where one is
/// reported, or else the failure of the CLI.
pub open spec fn checked(
    success: bool,
    code: Option<i32>,
    stdout: Seq<char>,
    stderr: Seq<char>,
    rejected: Option<SorobanErrorView>,
) -> Result<(Seq<char>, Seq<char>), SorobanErrorView> {
    if success {
        Ok((stdout, stderr))
    } else if rejected is Some {
        Err(rejected->0)
    } else {
        Err(SorobanErrorView::Cli { status: exit_status(code), stderr })
    }
}

/// The view of what a call gave.
pub open spec fn output_view(r: Result<RawOutput, SorobanError>) -> Result<
    (Seq<char>, Seq<char>),
    SorobanErrorView,
> {
    match r {
        Ok(o) => Ok((o.stdout@, o.stderr@)),
        Err(e) => Err(e@),
    }
}

/// Sorts out how a call of the CLI ended, from the rejection that its standard error reports.
pub fn check_output(
    success: bool,
    code: Option<i32>,
    stdout: String,
    stderr: String,
    rejected: Option<SorobanError>,
) -> (r: Result<RawOutput, SorobanError>)
    ensures
        output_view(r) == checked(success, code, stdout@, stderr@, optional_error(rejected)),
{
    if success {
        return Ok(RawOutput { stdout, stderr });
    }
    match rejected {
        Some(err) => Err(err),
        None => Err(SorobanError::Cli { status: status_of(code), stderr }),
    }
}

/// How a run of the CLI ended, from what the system returned of it.
pub open spec fn run_result(cli: Seq<char>, output: Result<ProcessOutput, String>) -> Result<
    (Seq<char>, Seq<char>),
    SorobanErrorView,
> {
    match output {
        Err(source) => Err(SorobanErrorView::Spawn { cli, source: source@ }),
        Ok(o) => checked(
            o.success,
            o.code,
            utf8_lossy(o.stdout@),
            utf8_lossy(o.stderr@),
            reported_rejection(utf8_lossy(o.stderr@)),
        ),
    }
}

/// Whether an output in UTF-8 is read as the text that it encodes.
pub open spec fn text_is_read(bytes: Seq<u8>) -> bool {
    vstd::utf8::valid_utf8(bytes) ==> utf8_lossy(bytes) == vstd::utf8::decode_utf8(bytes)
}

/// Whether what a run left behind is read as it is meant: its outputs as the text that they
/// encode, and in its standard error the rejection and the transaction hash that it reports.
pub open spec fn is_read(output: Result<ProcessOutput, String>) -> bool {
    output matches Ok(o) ==> {
        &&& text_is_read(o.stdout@)
        &&& text_is_read(o.stderr@)
        &&& names_rejection(utf8_lossy(o.stderr@), reported_rejection(utf8_lossy(o.stderr@)))
    }
}

/// Whether the transaction hash that `s` names is read, and nothing but a transaction hash is.
pub open spec fn hash_is_read(s: Seq<char>) -> bool {
    &&& names_tx_hash(s, captured(TX_HASH_PATTERN@, s))
    &&& captured(TX_HASH_PATTERN@, s) matches Some(hash) ==> is_tx_hash(hash)
}

/// Whether what a call left behind is read as it is meant, where it returns a number.
pub open spec fn number_output_is_read(
    cli: Seq<char>,
    output: Result<ProcessOutput, String>,
) -> bool {
    &&& is_read(output)
    &&& run_result(cli, output) matches Ok((stdout, stderr)) ==> number_is_read(trimmed(stdout))
        && hash_is_read(stderr)
}

/// Whether what a call left behind is read as it is meant, where it returns nothing.
pub open spec fn unit_output_is_read(
    cli: Seq<char>,
    output: Result<ProcessOutput, String>,
) -> bool {
    &&& is_read(output)
    &&& run_result(cli, output) matches Ok((stdout, stderr)) ==> unit_is_read(trimmed(stdout))
        && hash_is_read(stderr)
}

/// Whether what a call left behind is read as it is meant, where it returns a list of numbers.
pub open spec fn list_output_is_read(
    cli: Seq<char>,
    output: Result<ProcessOutput, String>,
) -> bool {
    &&& is_read(output)
    &&& run_result(cli, output) matches Ok((stdout, stderr)) ==> list_is_read(trimmed(stdout))
}

/// Whether what a payment left behind is read as it is meant.
pub open spec fn payment_output_is_read(
    cli: Seq<char>,
    output: Result<ProcessOutput, String>,
) -> bool {
    &&& is_read(output)
    &&& run_result(cli, output) matches Ok((stdout, stderr)) ==> hash_is_read(stderr)
}

// ---------------------------------------------------------------------
// Return values
// ---------------------------------------------------------------------
/// The value that was read from `output`, or that it was not what was expected.
pub open spec fn decoding<T>(
    parsed: Result<T, Seq<char>>,
    expected: Seq<char>,
    output: Seq<char>,
) -> Result<T, SorobanErrorView> {
    match parsed {
        Ok(v) => Ok(v),
        Err(source) => Err(SorobanErrorView::Decode { expected, output, source }),
    }
}

/// The view of a value that may have failed.
pub open spec fn value_view<T>(r: Result<T, SorobanError>) -> Result<T, SorobanErrorView> {
    match r {
        Ok(v) => Ok(v),
        Err(e) => Err(e@),
    }
}

/// The view of a list that may have failed.
pub open spec fn list_view(r: Result<Vec<u64>, SorobanError>) -> Result<
    Seq<u64>,
    SorobanErrorView,
> {
    match r {
        Ok(v) => Ok(v@),
        Err(e) => Err(e@),
    }
}

/// The view of a value that was parsed or of what the parser said.
pub open spec fn parsed_view<T>(r: Result<T, String>) -> Result<T, Seq<char>> {
    match r {
        Ok(v) => Ok(v),
        Err(e) => Err(e@),
    }
}

/// The value that a parser made of `output`, or that it was not what was expected.
pub fn decode<T>(output: String, expected: &'static str, parsed: Result<T, String>) -> (r: Result<
    T,
    SorobanError,
>)
    ensures
        value_view(r) == decoding(parsed_view(parsed), expected@, output@),
{
    match parsed {
        Ok(v) => Ok(v),
        Err(source) => Err(SorobanError::Decode { expected, output, source }),
    }
}

/// Reads a number from the CLI's standard output.
pub fn decode_u64(raw_stdout: &str, expected: &'static str) -> (r: Result<u64, SorobanError>)
    ensures
        value_view(r) == decoding(json_u64(trimmed(raw_stdout@)), expected@, trimmed(raw_stdout@)),
        number_is_read(trimmed(raw_stdout@)),
{
    let output = trim(raw_stdout);
    let parsed = parse_json_u64(output.as_str());
    decode(output, expected, parsed)
}

/// Reads the unit from the CLI's standard output.
pub fn decode_unit(raw_stdout: &str, expected: &'static str) -> (r: Result<(), SorobanError>)
    ensures
        value_view(r) == decoding(json_unit(trimmed(raw_stdout@)), expected@, trimmed(raw_stdout@)),
        unit_is_read(trimmed(raw_stdout@)),
{
    let output = trim(raw_stdout);
    let parsed = parse_json_unit(output.as_str());
    decode(output, expected, parsed)
}

/// Reads a list of numbers from the CLI's standard output.
pub fn decode_u64_list(raw_stdout: &str, expected: &'static str) -> (r: Result<
    Vec<u64>,
    SorobanError,
>)
    ensures
        list_view(r) == decoding(
            json_u64_list(trimmed(raw_stdout@)),
            expected@,
            trimmed(raw_stdout@),
        ),
        list_is_read(trimmed(raw_stdout@)),
{
    let output = trim(raw_stdout);
    let parsed = parse_json_u64_list(output.as_str());
    decode(output, expected, parsed)
}

// ---------------------------------------------------------------------
// Arguments
// ---------------------------------------------------------------------
/// A `--name value` pair for the contract's implicit CLI.
#[derive(Clone, Debug)]
pub struct Arg(pub String, pub String);

impl View for Arg {
    type V = (Seq<char>, Seq<char>);

    open spec fn view(&self) -> (Seq<char>, Seq<char>) {
        (self.0@, self.1@)
    }
}

/// The names and values of arguments.
pub open spec fn args_view(args: Seq<Arg>) -> Seq<(Seq<char>, Seq<char>)> {
    args.map_values(|a: Arg| a@)
}

/// An address, as it is.
pub fn addr(name: &str, value: &str) -> (r: Arg)
    ensures
        r@ == (name@, value@),
{
    Arg(name.to_owned(), value.to_owned())
}

/// A number in decimal.
pub fn u64_(name: &str, value: u64) -> (r: Arg)
    ensures
        r@ == (name@, integer_text(value as int)),
{
    Arg(name.to_owned(), u64_text(value))
}

/// A number in decimal.
pub fn u32_(name: &str, value: u32) -> (r: Arg)
    ensures
        r@ == (name@, integer_text(value as int)),
{
    Arg(name.to_owned(), u64_text(value as u64))
}

/// A truth value in words.
pub open spec fn bool_text(value: bool) -> Seq<char> {
    if value {
        "true"@
    } else {
        "false"@
    }
}

/// `true` or `false`.
pub fn bool_(name: &str, value: bool) -> (r: Arg)
    ensures
        r@ == (name@, bool_text(value)),
{
    Arg(
        name.to_owned(),
        if value {
            "true".to_owned()
        } else {
            "false".to_owned()
        },
    )
}

/// A text, as it is.
pub fn text(name: &str, value: &str) -> (r: Arg)
    ensures
        r@ == (name@, value@),
{
    Arg(name.to_owned(), value.to_owned())
}

/// Whether `value` is the hexadecimal digits `digits`, as they are or after a `0x` or `0X`.
pub open spec fn spells_hex(value: Seq<char>, digits: Seq<char>) -> bool {
    &&& all_hex_chars(digits)
    &&& value == digits || value == seq!['0', 'x'] + digits || value == seq!['0', 'X'] + digits
}

/// Bytes in hexadecimal: in lowercase, and without a `0x` or `0X` at the start.
pub fn hex_bytes(name: &str, value: &str) -> (r: Arg)
    ensures
        r@ == (name@, lowercase(without_any_hex_prefix(value@))),
        forall|digits: Seq<char>| #[trigger]
            spells_hex(value@, digits) ==> r@.1 == ascii_lowercase(digits),
        is_ascii_chars(value@) ==> {
            &&& r@.1 == ascii_lowercase(without_any_hex_prefix(value@))
            &&& !has_hex_prefix(r@.1)
            &&& ascii_lowercase(r@.1) == r@.1
        },
{
    let plain = trim_any_hex_prefix(value);
    proof {
        no_prefix_is_left(value@);
        hex_argument_is_plain(value@);
        assert forall|digits: Seq<char>| #[trigger] spells_hex(value@, digits) implies {
            &&& is_ascii_chars(plain@)
            &&& plain@ == digits
        } by {
            prefix_is_dropped(value@, digits);
        }
    }
    Arg(name.to_owned(), to_lowercase(plain.as_str()))
}

/// A proof as a JSON object.
pub open spec fn proof_json(proof: ProofDto) -> Seq<char> {
    "{\"a\":"@ + json_quoted(proof.a@) + ",\"b\":"@ + json_quoted(proof.b@) + ",\"c\":"@
        + json_quoted(proof.c@) + "}"@
}

/// A proof as a JSON object, whose fields are taken as they are.
pub fn json(name: &str, value: &ProofDto) -> (r: Arg)
    ensures
        r@ == (name@, proof_json(*value)),
{
    let mut out = "{\"a\":".to_owned();
    out.append(quote_json(value.a.as_str()).as_str());
    out.append(",\"b\":");
    out.append(quote_json(value.b.as_str()).as_str());
    out.append(",\"c\":");
    out.append(quote_json(value.c.as_str()).as_str());
    out.append("}");
    Arg(name.to_owned(), out)
}

/// Arguments as they stand on the command line: each name after two dashes, then its value.
pub open spec fn flags(args: Seq<(Seq<char>, Seq<char>)>) -> Seq<Seq<char>>
    decreases args.len(),
{
    if args.len() == 0 {
        Seq::empty()
    } else {
        flags(args.drop_last()) + seq!["--"@ + args.last().0, args.last().1]
    }
}

/// Appends one argument to a command line.
fn push_text(cli_args: &mut Vec<String>, s: &str)
    ensures
        texts(final(cli_args)@) == texts(old(cli_args)@).push(s@),
{
    let ghost before = cli_args@;
    let word = s.to_owned();
    cli_args.push(word);
    assert(texts(cli_args@) =~= texts(before).push(s@));
}

/// Appends the words of another command line.
fn push_texts(cli_args: &mut Vec<String>, more: &Vec<String>)
    ensures
        texts(final(cli_args)@) == texts(old(cli_args)@) + texts(more@),
{
    let ghost before = cli_args@;
    let mut copy = copy_texts(more);
    cli_args.append(&mut copy);
    assert(texts(cli_args@) =~= texts(before) + texts(more@));
}

/// Appends arguments to a command line.
pub fn push_args(cli_args: &mut Vec<String>, args: &[Arg])
    ensures
        texts(final(cli_args)@) == texts(old(cli_args)@) + flags(args_view(args@)),
{
    let ghost before = texts(cli_args@);
    let ghost all = args_view(args@);
    let mut i: usize = 0;
    assert(all.take(0) =~= Seq::empty());
    assert(before + Seq::<Seq<char>>::empty() =~= before);
    while i < args.len()
        invariant
            i <= args@.len(),
            all == args_view(args@),
            texts(cli_args@) == before + flags(all.take(i as int)),
        decreases args@.len() - i,
    {
        let mut name = "--".to_owned();
        name.append(args[i].0.as_str());
        push_text(cli_args, name.as_str());
        push_text(cli_args, args[i].1.as_str());
        proof {
            assert(all.take(i + 1).drop_last() =~= all.take(i as int));
            assert(all.take(i + 1).last() == args@[i as int]@);
            assert(texts(cli_args@) =~= before + flags(all.take(i + 1)));
        }
        i = i + 1;
    }
    assert(all.take(args@.len() as int) =~= all);
}

// ---------------------------------------------------------------------
// The client
// ---------------------------------------------------------------------
/// A program to run: its path, its arguments and what is written to its standard input.
#[derive(Debug)]
pub struct CliCall {
    pub program: String,
    pub args: Vec<String>,
    pub input: Option<String>,
}

/// A `CliCall` with its texts as characters.
pub struct CliCallView {
    pub program: Seq<char>,
    pub args: Seq<Seq<char>>,
    pub input: Option<Seq<char>>,
}

impl View for CliCall {
    type V = CliCallView;

    open spec fn view(&self) -> CliCallView {
        CliCallView {
            program: self.program@,
            args: texts(self.args@),
            input: optional_text(self.input),
        }
    }
}

/// Result of an operator-signed call that changed contract state.
#[derive(Debug)]
pub struct Invoked<T> {
    pub value: T,
    pub tx_hash: Option<String>,
}

/// Result of relaying an already-signed transaction.
#[derive(Debug)]
pub struct Relayed {
    pub tx_hash: Option<String>,
}

/// How to reach the AnonVote contract.
#[derive(Clone, Debug)]
pub struct SorobanClient {
    cli_path: String,
    contract_id: String,
    operator_identity: String,
    network_args: Vec<String>,
}

/// A `SorobanClient` with its texts as characters.
pub struct SorobanClientView {
    pub cli_path: Seq<char>,
    pub contract_id: Seq<char>,
    pub operator_identity: Seq<char>,
    pub network_args: Seq<Seq<char>>,
}

impl View for SorobanClient {
    type V = SorobanClientView;

    closed spec fn view(&self) -> SorobanClientView {
        SorobanClientView {
            cli_path: self.cli_path@,
            contract_id: self.contract_id@,
            operator_identity: self.operator_identity@,
            network_args: texts(self.network_args@),
        }
    }
}

/// The arguments that name the network: by its name where it has one, else by its URL and
/// passphrase.
pub open spec fn network_args_of(cfg: Config) -> Seq<Seq<char>> {
    if cfg.stellar_network is Some {
        seq!["--network"@, cfg.stellar_network->0@]
    } else {
        seq![
            "--rpc-url"@,
            cfg.stellar_rpc_url->0@,
            "--network-passphrase"@,
            cfg.stellar_network_passphrase->0@,
        ]
    }
}

impl SorobanClientView {
    /// How every call of the contract begins.
    pub open spec fn prelude(self, source_account: Seq<char>) -> Seq<Seq<char>> {
        seq![
            "contract"@,
            "invoke"@,
            "--id"@,
            self.contract_id,
            "--source-account"@,
            source_account,
        ] + self.network_args
    }

    /// A call that is only simulated.
    pub open spec fn read_call(
        self,
        function: Seq<char>,
        args: Seq<(Seq<char>, Seq<char>)>,
    ) -> CliCallView {
        CliCallView {
            program: self.cli_path,
            args: self.prelude(self.operator_identity) + seq!["--send"@, "no"@, "--"@, function]
                + flags(args),
            input: None,
        }
    }

    /// A call that the operator signs and sends.
    pub open spec fn invoke_call(
        self,
        function: Seq<char>,
        args: Seq<(Seq<char>, Seq<char>)>,
    ) -> CliCallView {
        CliCallView {
            program: self.cli_path,
            args: self.prelude(self.operator_identity) + seq!["--"@, function] + flags(args),
            input: None,
        }
    }

    /// The forwarding of a signed transaction.
    pub open spec fn relay_call(self, signed_xdr: Seq<char>) -> CliCallView {
        CliCallView {
            program: self.cli_path,
            args: seq!["tx"@, "send"@] + self.network_args,
            input: Some(trimmed(signed_xdr)),
        }
    }

    /// A classic Stellar payment.
    pub open spec fn payment_call(
        self,
        source_identity: Seq<char>,
        destination: Seq<char>,
        amount_stroops: i64,
    ) -> CliCallView {
        CliCallView {
            program: self.cli_path,
            args: seq![
                "tx"@,
                "new"@,
                "payment"@,
                "--source-account"@,
                source_identity,
                "--destination"@,
                destination,
                "--amount"@,
                integer_text(amount_stroops as int),
            ] + self.network_args,
            input: None,
        }
    }
}

/// The value and the transaction hash of a call, from its two outputs and from what the first of
/// them was read as.
pub open spec fn invoked<T>(
    output: Result<(Seq<char>, Seq<char>), SorobanErrorView>,
    parsed: spec_fn(Seq<char>) -> Result<T, Seq<char>>,
) -> Result<(T, Option<Seq<char>>), SorobanErrorView> {
    match output {
        Err(e) => Err(e),
        Ok((stdout, stderr)) => match decoding(
            parsed(trimmed(stdout)),
            "invoke result"@,
            trimmed(stdout),
        ) {
            Err(e) => Err(e),
            Ok(v) => Ok((v, captured(TX_HASH_PATTERN@, stderr))),
        },
    }
}

/// The view of an operator-signed call's result.
pub open spec fn invoked_view<T>(r: Result<Invoked<T>, SorobanError>) -> Result<
    (T, Option<Seq<char>>),
    SorobanErrorView,
> {
    match r {
        Ok(i) => Ok((i.value, optional_text(i.tx_hash))),
        Err(e) => Err(e@),
    }
}

/// The view of an operator-signed call's result where it is a list.
pub open spec fn invoked_list_view(r: Result<Invoked<Vec<u64>>, SorobanError>) -> Result<
    (Seq<u64>, Option<Seq<char>>),
    SorobanErrorView,
> {
    match r {
        Ok(i) => Ok((i.value@, optional_text(i.tx_hash))),
        Err(e) => Err(e@),
    }
}

/// How a forwarded transaction fared, from its two outputs and what they report.
pub open spec fn relay_checked(
    success: bool,
    stderr: Seq<char>,
    rejected: Option<SorobanErrorView>,
    stderr_hash: Option<Seq<char>>,
    stdout_hash: Option<Seq<char>>,
) -> Result<Option<Seq<char>>, SorobanErrorView> {
    if success {
        Ok(
            if stderr_hash is Some {
                stderr_hash
            } else {
                stdout_hash
            },
        )
    } else if rejected is Some {
        Err(rejected->0)
    } else {
        Err(
            SorobanErrorView::TransactionFailed {
                tx_hash: match stderr_hash {
                    Some(h) => h,
                    None => Seq::empty(),
                },
                detail: stderr,
            },
        )
    }
}

/// How a forwarded transaction fared, from what the system returned of the run.
pub open spec fn relay_result(cli: Seq<char>, output: Result<ProcessOutput, String>) -> Result<
    Option<Seq<char>>,
    SorobanErrorView,
> {
    match output {
        Err(source) => Err(SorobanErrorView::Spawn { cli, source: source@ }),
        Ok(o) => relay_checked(
            o.success,
            utf8_lossy(o.stderr@),
            reported_rejection(utf8_lossy(o.stderr@)),
            captured(TX_HASH_PATTERN@, utf8_lossy(o.stderr@)),
            captured(TX_HASH_PATTERN@, utf8_lossy(o.stdout@)),
        ),
    }
}

/// The view of a forwarded transaction's result.
pub open spec fn relayed_view(r: Result<Relayed, SorobanError>) -> Result<
    Option<Seq<char>>,
    SorobanErrorView,
> {
    match r {
        Ok(x) => Ok(optional_text(x.tx_hash)),
        Err(e) => Err(e@),
    }
}

/// Sorts out how a forwarded transaction fared, from what its two outputs report.
pub fn check_relay(
    success: bool,
    stderr: String,
    rejected: Option<SorobanError>,
    stderr_hash: Option<String>,
    stdout_hash: Option<String>,
) -> (r: Result<Relayed, SorobanError>)
    ensures
        relayed_view(r) == relay_checked(
            success,
            stderr@,
            optional_error(rejected),
            optional_text(stderr_hash),
            optional_text(stdout_hash),
        ),
{
    if success {
        return Ok(
            Relayed {
                tx_hash: match stderr_hash {
                    Some(h) => Some(h),
                    None => stdout_hash,
                },
            },
        );
    }
    match rejected {
        Some(err) => Err(err),
        None => Err(
            SorobanError::TransactionFailed {
                tx_hash: match stderr_hash {
                    Some(h) => h,
                    None => String::new(),
                },
                detail: stderr,
            },
        ),
    }
}

impl SorobanClient {
    /// The client that a configuration describes.
    pub fn new(cfg: &Config) -> (r: SorobanClient)
        requires
            cfg.has_network(),
        ensures
            r@ == (SorobanClientView {
                cli_path: cfg.stellar_cli_path@,
                contract_id: cfg.contract_id@,
                operator_identity: cfg.operator_identity@,
                network_args: network_args_of(*cfg),
            }),
    {
        let mut network_args: Vec<String> = Vec::new();
        match &cfg.stellar_network {
            Some(network) => {
                push_text(&mut network_args, "--network");
                push_text(&mut network_args, network.as_str());
            },
            None => {
                if let (Some(url), Some(passphrase)) = (
                    &cfg.stellar_rpc_url,
                    &cfg.stellar_network_passphrase,
                ) {
                    push_text(&mut network_args, "--rpc-url");
                    push_text(&mut network_args, url.as_str());
                    push_text(&mut network_args, "--network-passphrase");
                    push_text(&mut network_args, passphrase.as_str());
                }
            },
        }
        assert(texts(network_args@) =~= network_args_of(*cfg));
        SorobanClient {
            cli_path: cfg.stellar_cli_path.clone(),
            contract_id: cfg.contract_id.clone(),
            operator_identity: cfg.operator_identity.clone(),
            network_args,
        }
    }

    /// How every call of the contract begins.
    pub fn invoke_prelude(&self, source_account: &str) -> (r: Vec<String>)
        ensures
            texts(r@) == self@.prelude(source_account@),
    {
        let mut args: Vec<String> = Vec::new();
        push_text(&mut args, "contract");
        push_text(&mut args, "invoke");
        push_text(&mut args, "--id");
        push_text(&mut args, self.contract_id.as_str());
        push_text(&mut args, "--source-account");
        push_text(&mut args, source_account);
        push_texts(&mut args, &self.network_args);
        assert(texts(args@) =~= self@.prelude(source_account@));
        args
    }

    /// A read-only contract call (`tally`, `get_round`, ...). Simulated only: no fee, no ledger
    /// write, no transaction ever hits the network.
    pub fn read(&self, function: &str, args: &[Arg]) -> (r: CliCall)
        ensures
            r@ == self@.read_call(function@, args_view(args@)),
    {
        let mut cli_args = self.invoke_prelude(self.operator_identity.as_str());
        push_text(&mut cli_args, "--send");
        push_text(&mut cli_args, "no");
        push_text(&mut cli_args, "--");
        push_text(&mut cli_args, function);
        push_args(&mut cli_args, args);
        assert(texts(cli_args@) =~= self@.read_call(function@, args_view(args@)).args);
        CliCall { program: self.cli_path.clone(), args: cli_args, input: None }
    }

    /// An operator-signed state-changing call.
    pub fn invoke_as_operator(&self, function: &str, args: &[Arg]) -> (r: CliCall)
        ensures
            r@ == self@.invoke_call(function@, args_view(args@)),
    {
        let mut cli_args = self.invoke_prelude(self.operator_identity.as_str());
        push_text(&mut cli_args, "--");
        push_text(&mut cli_args, function);
        push_args(&mut cli_args, args);
        assert(texts(cli_args@) =~= self@.invoke_call(function@, args_view(args@)).args);
        CliCall { program: self.cli_path.clone(), args: cli_args, input: None }
    }

    /// Submits a transaction someone else has already built and signed (base64 XDR), for calls
    /// that need a signature this backend cannot produce.
    pub fn relay_signed_xdr(&self, signed_xdr: &str) -> (r: CliCall)
        ensures
            r@ == self@.relay_call(signed_xdr@),
    {
        let mut cli_args: Vec<String> = Vec::new();
        push_text(&mut cli_args, "tx");
        push_text(&mut cli_args, "send");
        push_texts(&mut cli_args, &self.network_args);
        assert(texts(cli_args@) =~= self@.relay_call(signed_xdr@).args);
        CliCall { program: self.cli_path.clone(), args: cli_args, input: Some(trim(signed_xdr)) }
    }

    /// Sends a plain classic-Stellar payment from `source_identity` to `destination`.
    pub fn send_payment(&self, source_identity: &str, destination: &str, amount_stroops: i64) -> (r:
        CliCall)
        ensures
            r@ == self@.payment_call(source_identity@, destination@, amount_stroops),
    {
        let mut args: Vec<String> = Vec::new();
        push_text(&mut args, "tx");
        push_text(&mut args, "new");
        push_text(&mut args, "payment");
        push_text(&mut args, "--source-account");
        push_text(&mut args, source_identity);
        push_text(&mut args, "--destination");
        push_text(&mut args, destination);
        push_text(&mut args, "--amount");
        push_text(&mut args, i64_text(amount_stroops).as_str());
        push_texts(&mut args, &self.network_args);
        assert(texts(args@) =~= self@.payment_call(
            source_identity@,
            destination@,
            amount_stroops,
        ).args);
        CliCall { program: self.cli_path.clone(), args, input: None }
    }

    /// Resolves a `stellar keys` identity alias (or already-a-strkey value) to its `G...` address.
    pub fn resolve_address(cli_path: &str, identity: &str) -> (r: CliCall)
        ensures
            r@ == (CliCallView {
                program: cli_path@,
                args: seq!["keys"@, "address"@, identity@],
                input: None,
            }),
    {
        let mut args: Vec<String> = Vec::new();
        push_text(&mut args, "keys");
        push_text(&mut args, "address");
        push_text(&mut args, identity);
        assert(texts(args@) =~= seq!["keys"@, "address"@, identity@]);
        CliCall { program: cli_path.to_owned(), args, input: None }
    }

    /// How a run of the CLI ended: its two outputs, or why there are none. `output` is what the
    /// system returned of the run, or what it said where the CLI could not be run.
    pub fn run(&self, output: Result<ProcessOutput, String>) -> (r: Result<RawOutput, SorobanError>)
        ensures
            output_view(r) == run_result(self@.cli_path, output),
            is_read(output),
    {
        match output {
            Err(source) => Err(SorobanError::Spawn { cli: self.cli_path.clone(), source }),
            Ok(o) => {
                let stdout = from_utf8_lossy(&o.stdout);
                let stderr = from_utf8_lossy(&o.stderr);
                let rejected = find_contract_error(stderr.as_str());
                check_output(o.success, o.code, stdout, stderr, rejected)
            },
        }
    }

    /// The list of numbers that a simulated call returned.
    pub fn read_list(&self, output: Result<ProcessOutput, String>) -> (r: Result<
        Vec<u64>,
        SorobanError,
    >)
        ensures
            list_view(r) == match run_result(self@.cli_path, output) {
                Err(e) => Err(e),
                Ok((stdout, stderr)) => decoding(
                    json_u64_list(trimmed(stdout)),
                    "read result"@,
                    trimmed(stdout),
                ),
            },
            list_output_is_read(self@.cli_path, output),
    {
        match self.run(output) {
            Err(e) => Err(e),
            Ok(raw) => decode_u64_list(raw.stdout.as_str(), "read result"),
        }
    }

    /// The JSON that a simulated call returned, for a reader of the expected type.
    pub fn read_json(&self, output: Result<ProcessOutput, String>) -> (r: Result<
        String,
        SorobanError,
    >)
        ensures
            match r {
                Ok(json) => run_result(self@.cli_path, output) matches Ok((stdout, stderr))
                    && json@ == trimmed(stdout),
                Err(e) => run_result(self@.cli_path, output) == Err::<(Seq<char>, Seq<char>), _>(
                    e@,
                ),
            },
            is_read(output),
    {
        match self.run(output) {
            Err(e) => Err(e),
            Ok(raw) => Ok(trim(raw.stdout.as_str())),
        }
    }

    /// The round that a reader made of the JSON of a simulated call, or that it made none.
    pub fn read_round(json: String, parsed: Result<OnChainRound, String>) -> (r: Result<
        OnChainRound,
        SorobanError,
    >)
        ensures
            value_view(r) == decoding(parsed_view(parsed), "read result"@, json@),
    {
        decode(json, "read result", parsed)
    }

    /// The number that an operator-signed call returned.
    pub fn invoked_u64(&self, output: Result<ProcessOutput, String>) -> (r: Result<
        Invoked<u64>,
        SorobanError,
    >)
        ensures
            invoked_view(r) == invoked(
                run_result(self@.cli_path, output),
                |s: Seq<char>| json_u64(s),
            ),
            number_output_is_read(self@.cli_path, output),
    {
        match self.run(output) {
            Err(e) => Err(e),
            Ok(raw) => {
                let tx_hash = find_tx_hash(raw.stderr.as_str());
                match decode_u64(raw.stdout.as_str(), "invoke result") {
                    Err(e) => Err(e),
                    Ok(value) => Ok(Invoked { value, tx_hash }),
                }
            },
        }
    }

    /// An operator-signed call that returned nothing.
    pub fn invoked_unit(&self, output: Result<ProcessOutput, String>) -> (r: Result<
        Invoked<()>,
        SorobanError,
    >)
        ensures
            invoked_view(r) == invoked(
                run_result(self@.cli_path, output),
                |s: Seq<char>| json_unit(s),
            ),
            unit_output_is_read(self@.cli_path, output),
    {
        match self.run(output) {
            Err(e) => Err(e),
            Ok(raw) => {
                let tx_hash = find_tx_hash(raw.stderr.as_str());
                match decode_unit(raw.stdout.as_str(), "invoke result") {
                    Err(e) => Err(e),
                    Ok(value) => Ok(Invoked { value, tx_hash }),
                }
            },
        }
    }

    /// The list of numbers that an operator-signed call returned.
    pub fn invoked_list(&self, output: Result<ProcessOutput, String>) -> (r: Result<
        Invoked<Vec<u64>>,
        SorobanError,
    >)
        ensures
            invoked_list_view(r) == invoked(
                run_result(self@.cli_path, output),
                |s: Seq<char>| json_u64_list(s),
            ),
            list_output_is_read(self@.cli_path, output),
    {
        match self.run(output) {
            Err(e) => Err(e),
            Ok(raw) => match decode_u64_list(raw.stdout.as_str(), "invoke result") {
                Err(e) => Err(e),
                Ok(value) => Ok(Invoked { value, tx_hash: find_tx_hash(raw.stderr.as_str()) }),
            },
        }
    }

    /// How a forwarded transaction fared.
    pub fn relayed(&self, output: Result<ProcessOutput, String>) -> (r: Result<
        Relayed,
        SorobanError,
    >)
        ensures
            relayed_view(r) == relay_result(self@.cli_path, output),
            is_read(output),
            output matches Ok(o) ==> hash_is_read(utf8_lossy(o.stderr@)) && hash_is_read(
                utf8_lossy(o.stdout@),
            ),
    {
        match output {
            Err(source) => Err(SorobanError::Spawn { cli: self.cli_path.clone(), source }),
            Ok(o) => {
                let stdout = from_utf8_lossy(&o.stdout);
                let stderr = from_utf8_lossy(&o.stderr);
                let rejected = find_contract_error(stderr.as_str());
                let stderr_hash = find_tx_hash(stderr.as_str());
                let stdout_hash = find_tx_hash(stdout.as_str());
                check_relay(o.success, stderr, rejected, stderr_hash, stdout_hash)
            },
        }
    }

    /// The transaction hash of a payment, if the CLI named it.
    pub fn payment_sent(&self, output: Result<ProcessOutput, String>) -> (r: Result<
        Option<String>,
        SorobanError,
    >)
        ensures
            match r {
                Ok(hash) => run_result(self@.cli_path, output) matches Ok((stdout, stderr))
                    && optional_text(hash) == captured(TX_HASH_PATTERN@, stderr),
                Err(e) => run_result(self@.cli_path, output) == Err::<(Seq<char>, Seq<char>), _>(
                    e@,
                ),
            },
            payment_output_is_read(self@.cli_path, output),
    {
        match self.run(output) {
            Err(e) => Err(e),
            Ok(raw) => Ok(find_tx_hash(raw.stderr.as_str())),
        }
    }

    /// The address that the CLI resolved an identity to.
    pub fn resolved_address(cli_path: &str, output: Result<ProcessOutput, String>) -> (r: Result<
        String,
        SorobanError,
    >)
        ensures
            match output {
                Err(source) => r matches Err(e) && e@ == (SorobanErrorView::Spawn {
                    cli: cli_path@,
                    source: source@,
                }),
                Ok(o) => if o.success {
                    &&& r matches Ok(address) && address@ == trimmed(utf8_lossy(o.stdout@))
                    &&& text_is_read(o.stdout@)
                } else {
                    &&& r matches Err(e) && e@ == (SorobanErrorView::Cli {
                        status: exit_status(o.code),
                        stderr: utf8_lossy(o.stderr@),
                    })
                    &&& text_is_read(o.stderr@)
                },
            },
    {
        match output {
            Err(source) => Err(SorobanError::Spawn { cli: cli_path.to_owned(), source }),
            Ok(o) => if o.success {
                Ok(trim(from_utf8_lossy(&o.stdout).as_str()))
            } else {
                Err(
                    SorobanError::Cli {
                        status: status_of(o.code),
                        stderr: from_utf8_lossy(&o.stderr),
                    },
                )
            },
        }
    }
}

// ---------------------------------------------------------------------
// Laws of the CLI
// ---------------------------------------------------------------------
/// Every error code of the contract has a name of its own, and no other code has one.
pub proof fn contract_errors_have_distinct_names(a: u32, b: u32)
    requires
        1 <= a <= 15,
        contract_error(a) == contract_error(b),
    ensures
        a == b,
{
    reveal_strlit("AlreadyInitialized");
    reveal_strlit("NotInitialized");
    reveal_strlit("NotAdmin");
    reveal_strlit("RoundNotFound");
    reveal_strlit("RegistrationSetFull");
    reveal_strlit("AlreadyRegistered");
    reveal_strlit("RegistrationClosed");
    reveal_strlit("VotingNotOpen");
    reveal_strlit("VotingClosed");
    reveal_strlit("InvalidChoice");
    reveal_strlit("InvalidProof");
    reveal_strlit("NullifierAlreadyUsed");
    reveal_strlit("InvalidPhaseTransition");
    reveal_strlit("RoundAlreadyFinalized");
    reveal_strlit("InvalidVerifyingKey");
    reveal_strlit("Unknown");
    let x = contract_error(a);
    let y = contract_error(b);
    assert(x.len() == y.len() && x[0] == y[0] && x[4] == y[4] && x[5] == y[5] && x[6] == y[6]);
}

/// A call that the contract rejects, and whose output says so by an error code, fails with that
/// code and its name.
pub proof fn reported_code_is_named(
    cli: Seq<char>,
    output: ProcessOutput,
    before: Seq<char>,
    code: u32,
    after: Seq<char>,
)
    requires
        is_read(Ok(output)),
        !output.success,
        vstd::utf8::valid_utf8(output.stderr@),
        vstd::utf8::decode_utf8(output.stderr@) == before + "Error(Contract, #"@ + integer_text(
            code as int,
        ) + ")"@ + after,
        absent_before(
            vstd::utf8::decode_utf8(output.stderr@),
            before.len() as int,
            "Error(Contract,"@,
        ),
    ensures
        run_result(cli, Ok(output)) == Err::<(Seq<char>, Seq<char>), _>(
            SorobanErrorView::Contract { code, name: contract_error(code) },
        ),
{
    let stderr = utf8_lossy(output.stderr@);
    let digits = integer_text(code as int);
    crate::decimal::decimal_reads_back(code as nat);
    crate::decimal::integer_text_reads_back(code as nat, u32::MAX as nat);
    assert(stderr == before + "Error(Contract, #"@ + digits + ")"@ + after);
    assert(reported_rejection(stderr) == Some(rejection_for(digits)));
}

/// A call that fails without a word of the contract fails with its exit code and what it said.
pub proof fn unreported_failure_is_the_cli(cli: Seq<char>, output: ProcessOutput)
    requires
        is_read(Ok(output)),
        !output.success,
        vstd::utf8::valid_utf8(output.stderr@),
        absent_before(
            vstd::utf8::decode_utf8(output.stderr@),
            vstd::utf8::decode_utf8(output.stderr@).len() as int,
            "Error(Contract,"@,
        ),
    ensures
        run_result(cli, Ok(output)) == Err::<(Seq<char>, Seq<char>), _>(
            SorobanErrorView::Cli {
                status: exit_status(output.code),
                stderr: vstd::utf8::decode_utf8(output.stderr@),
            },
        ),
{
}

/// A text that neither begins nor ends with white space is what is left of it with a line end.
proof fn line_is_trimmed(s: Seq<char>)
    requires
        s.len() > 0,
        !is_space(s[0]),
        !is_space(s.last()),
    ensures
        trimmed(s.push('\n')) == s,
{
    let line = s.push('\n');
    assert(line[0] == s[0]);
    assert(trimmed_start(line) == line);
    assert(line.drop_last() =~= s);
    assert(trimmed_end(s) == s);
}

/// A successful call that prints a number in one line returns that number.
pub proof fn printed_number_is_returned(cli: Seq<char>, output: ProcessOutput, n: u64)
    requires
        number_output_is_read(cli, Ok(output)),
        output.success,
        vstd::utf8::valid_utf8(output.stdout@),
        vstd::utf8::decode_utf8(output.stdout@) == decimal(n as nat).push('\n'),
    ensures
        invoked(run_result(cli, Ok(output)), |s: Seq<char>| json_u64(s)) matches Ok((value, _))
            && value == n,
{
    let s = decimal(n as nat);
    crate::decimal::decimal_reads_back(n as nat);
    assert(crate::decimal::is_digit(s[0]));
    assert(crate::decimal::is_digit(s[s.len() - 1]));
    line_is_trimmed(s);
    is_spaced_by_nothing(s);
    let parsed = |s: Seq<char>| json_u64(s);
    assert(parsed(s) == Ok::<u64, Seq<char>>(n));
}

/// A successful call that prints `null` in one line has returned.
pub proof fn printed_null_is_returned(cli: Seq<char>, output: ProcessOutput)
    requires
        unit_output_is_read(cli, Ok(output)),
        output.success,
        vstd::utf8::valid_utf8(output.stdout@),
        vstd::utf8::decode_utf8(output.stdout@) == seq!['n', 'u', 'l', 'l', '\n'],
    ensures
        invoked(run_result(cli, Ok(output)), |s: Seq<char>| json_unit(s)) is Ok,
{
    let s = seq!['n', 'u', 'l', 'l'];
    line_is_trimmed(s);
    assert(s.push('\n') =~= seq!['n', 'u', 'l', 'l', '\n']);
    is_spaced_by_nothing(s);
    let parsed = |s: Seq<char>| json_unit(s);
    assert(parsed(s) is Ok);
}

/// A successful call that prints a list of numbers in one line, without white space between them,
/// returns that list.
pub proof fn printed_list_is_returned(cli: Seq<char>, output: ProcessOutput, v: Seq<u64>)
    requires
        list_output_is_read(cli, Ok(output)),
        output.success,
        vstd::utf8::valid_utf8(output.stdout@),
        vstd::utf8::decode_utf8(output.stdout@) == json_list(v).push('\n'),
    ensures
        invoked(run_result(cli, Ok(output)), |s: Seq<char>| json_u64_list(s)) matches Ok((value, _))
            && value == v,
{
    let s = json_list(v);
    assert(s[0] == '[');
    assert(s.last() == ']');
    line_is_trimmed(s);
    let parsed = |s: Seq<char>| json_u64_list(s);
    assert(parsed(s) == Ok::<Seq<u64>, Seq<char>>(v));
}

/// Hexadecimal digits are what is left of them with or without a `0x` or `0X` before them.
pub proof fn prefix_is_dropped(value: Seq<char>, digits: Seq<char>)
    requires
        spells_hex(value, digits),
    ensures
        without_any_hex_prefix(value) == digits,
        is_ascii_chars(digits),
{
    if digits.len() >= 2 {
        assert(is_hex_char(digits[1]));
    }
    assert(without_any_hex_prefix(digits) == digits);
    if value != digits {
        assert(has_any_hex_prefix(value));
        assert(value.skip(2) =~= digits);
    }
    assert forall|i: int| 0 <= i < digits.len() implies '\0' <= #[trigger] digits[i]
        <= '\u{7f}' by {
        assert(is_hex_char(digits[i]));
    }
}

/// The bytes of an argument are in lowercase and without a `0x` at the start.
pub proof fn hex_argument_is_plain(value: Seq<char>)
    ensures
        ({
            let arg = ascii_lowercase(without_any_hex_prefix(value));
            &&& !has_any_hex_prefix(arg)
            &&& ascii_lowercase(arg) == arg
            &&& arg.len() == without_any_hex_prefix(value).len()
        }),
{
    no_prefix_is_left(value);
    let plain = without_any_hex_prefix(value);
    let arg = ascii_lowercase(plain);
    assert forall|i: int| 0 <= i < arg.len() implies ascii_lower(#[trigger] arg[i]) == arg[i] by {
        assert(arg[i] == ascii_lower(plain[i]));
    }
    assert(ascii_lowercase(arg) =~= arg);
    if has_any_hex_prefix(arg) {
        assert(arg[0] == ascii_lower(plain[0]));
        assert(arg[1] == ascii_lower(plain[1]));
    }
}

} // verus!
