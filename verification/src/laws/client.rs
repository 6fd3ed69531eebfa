//! The command lines of the `stellar` CLI, and what its outputs mean.
use crate::config::Config;
use crate::laws::{
    bracketed, bracketed_is_json, decimal_is_number, digits_only, encodes, in_quotes, is_number,
    left, not_before, number_is_decimal, plain, plain_is_quoted, value,
};
use crate::decimal::{decimal, decimal_reads_back};
use crate::json::{is_spaced_by_nothing, json_u64, json_u64_list, json_unit};
use crate::laws::answers::{is_signed, text_is_signed};
use crate::laws::texts::{is_trimming_of, trimmed_is_trimming, trimming_is_unique};
use crate::laws::numbers::hex_only;
use crate::models::{OnChainRound, ProofDto};
use crate::pattern::{absent_before, is_tx_hash, occurs_at};
use crate::soroban_client::{
    addr, args_view, bool_, captured, contract_error, flags, json, rejection_for,
    reported_rejection, text, u32_, u64_, Arg, CliCall, Invoked, ProcessOutput, RawOutput, Relayed,
    SorobanClient, SorobanClientView, SorobanError, SorobanErrorView,
};
use crate::text::{is_space, optional_text, texts, trimmed, utf8_lossy};
use vstd::prelude::*;
use vstd::string::*;

verus! {

// ---------------------------------------------------------------------
// Calls of the contract
// ---------------------------------------------------------------------
/// Whether a command line begins as every call of the contract does: the contract, the operator
/// and the network.
pub open spec fn begins(call: CliCall, client: SorobanClientView) -> bool {
    let w = call.args@;
    let n = client.network_args.len();
    &&& call.program@ == client.cli_path
    &&& call.input is None
    &&& w.len() >= 6 + n
    &&& w[0]@ == "contract"@
    &&& w[1]@ == "invoke"@
    &&& w[2]@ == "--id"@
    &&& w[3]@ == client.contract_id
    &&& w[4]@ == "--source-account"@
    &&& w[5]@ == client.operator_identity
    &&& forall|i: int| 0 <= i < n ==> w[6 + i]@ == #[trigger] client.network_args[i]
}

/// Whether a command line calls a function of the contract with `k` arguments, and sends it.
pub open spec fn sent(call: CliCall, client: SorobanClientView, function: Seq<char>, k: nat) -> bool {
    let w = call.args@;
    let n = client.network_args.len() as int;
    &&& begins(call, client)
    &&& w.len() == 8 + n + 2 * k
    &&& w[6 + n]@ == "--"@
    &&& w[7 + n]@ == function
}

/// The word that names argument `i` of a call that is sent.
pub open spec fn sent_name(call: CliCall, client: SorobanClientView, i: int) -> Seq<char> {
    call.args@[8 + client.network_args.len() + 2 * i]@
}

/// The word that holds argument `i` of a call that is sent.
pub open spec fn sent_value(call: CliCall, client: SorobanClientView, i: int) -> Seq<char> {
    call.args@[9 + client.network_args.len() + 2 * i]@
}

/// Whether a command line calls a function of the contract with `k` arguments, and does not send
/// it.
pub open spec fn simulated(
    call: CliCall,
    client: SorobanClientView,
    function: Seq<char>,
    k: nat,
) -> bool {
    let w = call.args@;
    let n = client.network_args.len() as int;
    &&& begins(call, client)
    &&& w.len() == 10 + n + 2 * k
    &&& w[6 + n]@ == "--send"@
    &&& w[7 + n]@ == "no"@
    &&& w[8 + n]@ == "--"@
    &&& w[9 + n]@ == function
}

/// The word that names argument `i` of a call that is not sent.
pub open spec fn simulated_name(call: CliCall, client: SorobanClientView, i: int) -> Seq<char> {
    call.args@[10 + client.network_args.len() + 2 * i]@
}

/// The word that holds argument `i` of a call that is not sent.
pub open spec fn simulated_value(call: CliCall, client: SorobanClientView, i: int) -> Seq<char> {
    call.args@[11 + client.network_args.len() + 2 * i]@
}

/// Arguments on a command line are two words each, in order.
pub proof fn flags_by_index(args: Seq<(Seq<char>, Seq<char>)>)
    ensures
        flags(args).len() == 2 * args.len(),
        forall|i: int|
            0 <= i < args.len() ==> flags(args)[2 * i] == "--"@ + (#[trigger] args[i]).0 && flags(
                args,
            )[2 * i + 1] == args[i].1,
    decreases args.len(),
{
    if args.len() > 0 {
        let init = args.drop_last();
        flags_by_index(init);
        assert forall|i: int| 0 <= i < args.len() implies flags(args)[2 * i] == "--"@ + (
        #[trigger] args[i]).0 && flags(args)[2 * i + 1] == args[i].1 by {
            if i < init.len() {
                assert(init[i] == args[i]);
            }
        }
    }
}

/// The words of a command line that is sent.
pub proof fn sent_words(
    call: CliCall,
    client: SorobanClientView,
    function: Seq<char>,
    args: Seq<(Seq<char>, Seq<char>)>,
)
    requires
        call@ == client.invoke_call(function, args),
    ensures
        sent(call, client, function, args.len()),
        forall|i: int|
            0 <= i < args.len() ==> sent_name(call, client, i) == "--"@ + (#[trigger] args[i]).0
                && sent_value(call, client, i) == args[i].1,
{
    flags_by_index(args);
    let w = call@.args;
    assert(w.len() == call.args@.len());
    assert(forall|j: int| 0 <= j < w.len() ==> w[j] == (#[trigger] call.args@[j])@);
    let n = client.network_args.len() as int;
    assert forall|i: int| 0 <= i < n implies call.args@[6 + i]@ == #[trigger] client.network_args[i]
        by {
        assert(w[6 + i] == client.network_args[i]);
    }
    assert forall|i: int| 0 <= i < args.len() implies sent_name(call, client, i) == "--"@ + (
    #[trigger] args[i]).0 && sent_value(call, client, i) == args[i].1 by {
        assert(w[8 + n + 2 * i] == flags(args)[2 * i]);
        assert(w[9 + n + 2 * i] == flags(args)[2 * i + 1]);
    }
}

/// The words of a command line that is not sent.
pub proof fn simulated_words(
    call: CliCall,
    client: SorobanClientView,
    function: Seq<char>,
    args: Seq<(Seq<char>, Seq<char>)>,
)
    requires
        call@ == client.read_call(function, args),
    ensures
        simulated(call, client, function, args.len()),
        forall|i: int|
            0 <= i < args.len() ==> simulated_name(call, client, i) == "--"@ + (
            #[trigger] args[i]).0 && simulated_value(call, client, i) == args[i].1,
{
    flags_by_index(args);
    let w = call@.args;
    assert(w.len() == call.args@.len());
    assert(forall|j: int| 0 <= j < w.len() ==> w[j] == (#[trigger] call.args@[j])@);
    let n = client.network_args.len() as int;
    assert forall|i: int| 0 <= i < n implies call.args@[6 + i]@ == #[trigger] client.network_args[i]
        by {
        assert(w[6 + i] == client.network_args[i]);
    }
    assert forall|i: int| 0 <= i < args.len() implies simulated_name(call, client, i) == "--"@ + (
    #[trigger] args[i]).0 && simulated_value(call, client, i) == args[i].1 by {
        assert(w[10 + n + 2 * i] == flags(args)[2 * i]);
        assert(w[11 + n + 2 * i] == flags(args)[2 * i + 1]);
    }
}

/// An operator-signed call names the contract, the operator, the network and the function, and
/// then every argument by its name and with its value, in order.
pub proof fn operator_call_is_spelled_out(
    client: &SorobanClient,
    function: &str,
    args: &[Arg],
    call: CliCall,
)
    requires
        call_ensures(SorobanClient::invoke_as_operator, (client, function, args), call),
    ensures
        sent(call, client@, function@, args@.len()),
        forall|i: int|
            0 <= i < args@.len() ==> sent_name(call, client@, i) == "--"@ + (
            #[trigger] args@[i]).0@ && sent_value(call, client@, i) == args@[i].1@,
{
    let pairs = args_view(args@);
    sent_words(call, client@, function@, pairs);
    assert forall|i: int| 0 <= i < args@.len() implies sent_name(call, client@, i) == "--"@ + (
    #[trigger] args@[i]).0@ && sent_value(call, client@, i) == args@[i].1@ by {
        assert(pairs[i] == args@[i]@);
    }
}

/// A read of the contract is never sent, and otherwise spelled out as an operator-signed call is.
pub proof fn read_call_is_spelled_out(
    client: &SorobanClient,
    function: &str,
    args: &[Arg],
    call: CliCall,
)
    requires
        call_ensures(SorobanClient::read, (client, function, args), call),
    ensures
        simulated(call, client@, function@, args@.len()),
        forall|i: int|
            0 <= i < args@.len() ==> simulated_name(call, client@, i) == "--"@ + (
            #[trigger] args@[i]).0@ && simulated_value(call, client@, i) == args@[i].1@,
{
    let pairs = args_view(args@);
    simulated_words(call, client@, function@, pairs);
    assert forall|i: int| 0 <= i < args@.len() implies simulated_name(call, client@, i) == "--"@ + (
    #[trigger] args@[i]).0@ && simulated_value(call, client@, i) == args@[i].1@ by {
        assert(pairs[i] == args@[i]@);
    }
}

/// A client reaches the contract, the operator and the network that its configuration names.
pub proof fn client_is_as_configured(cfg: &Config, client: SorobanClient)
    requires
        cfg.stellar_network is Some || (cfg.stellar_rpc_url is Some
            && cfg.stellar_network_passphrase is Some),
        call_ensures(SorobanClient::new, (cfg,), client),
    ensures
        client@.cli_path == cfg.stellar_cli_path@,
        client@.contract_id == cfg.contract_id@,
        client@.operator_identity == cfg.operator_identity@,
        cfg.stellar_network matches Some(network) ==> {
            &&& client@.network_args.len() == 2
            &&& client@.network_args[0] == "--network"@
            &&& client@.network_args[1] == network@
        },
        cfg.stellar_network is None ==> {
            &&& client@.network_args.len() == 4
            &&& client@.network_args[0] == "--rpc-url"@
            &&& client@.network_args[1] == cfg.stellar_rpc_url->0@
            &&& client@.network_args[2] == "--network-passphrase"@
            &&& client@.network_args[3] == cfg.stellar_network_passphrase->0@
        },
{
}

// ---------------------------------------------------------------------
// Other calls of the CLI
// ---------------------------------------------------------------------
/// The stroops that the command line of a payment names.
pub open spec fn named_amount(call: CliCall) -> nat {
    value(call.args@[8]@)
}

/// Whether a command line is a payment of `amount` stroops from one account to another.
pub open spec fn pays(
    call: CliCall,
    client: SorobanClientView,
    source: Seq<char>,
    destination: Seq<char>,
    amount: int,
) -> bool {
    let w = call.args@;
    &&& call.program@ == client.cli_path
    &&& call.input is None
    &&& w.len() == 9 + client.network_args.len()
    &&& w[0]@ == "tx"@
    &&& w[1]@ == "new"@
    &&& w[2]@ == "payment"@
    &&& w[3]@ == "--source-account"@
    &&& w[4]@ == source
    &&& w[5]@ == "--destination"@
    &&& w[6]@ == destination
    &&& w[7]@ == "--amount"@
    &&& is_number(w[8]@, amount)
    &&& forall|i: int|
        0 <= i < client.network_args.len() ==> w[9 + i]@ == #[trigger] client.network_args[i]
}

/// The word after `--amount` in the command line of a payment, read as a decimal number, is the
/// amount in stroops, whatever the amount, and the payment goes from the one account to the other.
pub proof fn payment_names_the_amount(
    client: &SorobanClient,
    source: &str,
    destination: &str,
    amount: i64,
    call: CliCall,
)
    requires
        call_ensures(SorobanClient::send_payment, (client, source, destination, amount), call),
    ensures
        is_signed(call.args@[8]@, amount as int),
        amount >= 0 ==> pays(call, client@, source@, destination@, amount as int),
        amount >= 0 ==> named_amount(call) == amount,
{
    let w = call@.args;
    assert(w.len() == call.args@.len());
    assert(w[8] == call.args@[8]@);
    text_is_signed(amount as int);
    if amount >= 0 {
        payment_words(call, client@, source@, destination@, amount);
    }
}

/// The words of the command line of a payment.
pub proof fn payment_words(
    call: CliCall,
    client: SorobanClientView,
    source: Seq<char>,
    destination: Seq<char>,
    amount: i64,
)
    requires
        call@ == client.payment_call(source, destination, amount),
        amount >= 0,
    ensures
        pays(call, client, source, destination, amount as int),
        named_amount(call) == amount,
{
    decimal_is_number(amount as nat);
    let w = call@.args;
    assert(w.len() == call.args@.len());
    assert(forall|j: int| 0 <= j < w.len() ==> w[j] == (#[trigger] call.args@[j])@);
    assert forall|i: int| 0 <= i < client.network_args.len() implies call.args@[9 + i]@
        == #[trigger] client.network_args[i] by {
        assert(w[9 + i] == client.network_args[i]);
    }
}

/// Payments of different amounts are different command lines.
pub proof fn different_amounts_are_different_payments(
    client: &SorobanClient,
    source: &str,
    destination: &str,
    a: i64,
    b: i64,
    x: CliCall,
    y: CliCall,
)
    requires
        call_ensures(SorobanClient::send_payment, (client, source, destination, a), x),
        call_ensures(SorobanClient::send_payment, (client, source, destination, b), y),
        a != b,
    ensures
        x.args@[8]@ != y.args@[8]@,
{
    payment_names_the_amount(client, source, destination, a, x);
    payment_names_the_amount(client, source, destination, b, y);
}

/// A signed transaction is handed to the CLI on its standard input as it is, without the white
/// space around it, and nobody is named who would sign it again.
pub proof fn relay_forwards_the_transaction(
    client: &SorobanClient,
    signed_xdr: &str,
    call: CliCall,
)
    requires
        call_ensures(SorobanClient::relay_signed_xdr, (client, signed_xdr), call),
    ensures
        forwards(call, client@, signed_xdr@),
{
    relay_words(call, client@, signed_xdr@);
}

/// Whether a command line forwards a transaction.
pub open spec fn forwards(call: CliCall, client: SorobanClientView, signed_xdr: Seq<char>) -> bool {
    let w = call.args@;
    &&& call.program@ == client.cli_path
    &&& call.input matches Some(input) && is_trimming_of(input@, signed_xdr)
    &&& w.len() == 2 + client.network_args.len()
    &&& w[0]@ == "tx"@
    &&& w[1]@ == "send"@
    &&& forall|i: int|
        0 <= i < client.network_args.len() ==> w[2 + i]@ == #[trigger] client.network_args[i]
}

/// The words of a command line that forwards a transaction.
pub proof fn relay_words(call: CliCall, client: SorobanClientView, signed_xdr: Seq<char>)
    requires
        call@ == client.relay_call(signed_xdr),
    ensures
        forwards(call, client, signed_xdr),
{
    trimmed_is_trimming(signed_xdr);
    let w = call@.args;
    assert(w.len() == call.args@.len());
    assert(forall|j: int| 0 <= j < w.len() ==> w[j] == (#[trigger] call.args@[j])@);
    assert forall|i: int| 0 <= i < client.network_args.len() implies call.args@[2 + i]@
        == #[trigger] client.network_args[i] by {
        assert(w[2 + i] == client.network_args[i]);
    }
}

/// An identity is resolved by asking the CLI for its address.
pub proof fn resolution_asks_for_the_identity(cli_path: &str, identity: &str, call: CliCall)
    requires
        call_ensures(SorobanClient::resolve_address, (cli_path, identity), call),
    ensures
        call.program@ == cli_path@,
        call.input is None,
        call.args@.len() == 3,
        call.args@[0]@ == "keys"@,
        call.args@[1]@ == "address"@,
        call.args@[2]@ == identity@,
{
    let w = call@.args;
    assert(w.len() == call.args@.len());
    assert(forall|j: int| 0 <= j < w.len() ==> w[j] == (#[trigger] call.args@[j])@);
}

// ---------------------------------------------------------------------
// Arguments
// ---------------------------------------------------------------------
/// Addresses and texts are arguments as they are, numbers in decimal and truth values in words.
pub proof fn arguments_keep_their_values(
    name: &str,
    word: &str,
    n: u64,
    m: u32,
    b: bool,
    a: Arg,
    t: Arg,
    x: Arg,
    y: Arg,
    z: Arg,
)
    requires
        call_ensures(addr, (name, word), a),
        call_ensures(text, (name, word), t),
        call_ensures(u64_, (name, n), x),
        call_ensures(u32_, (name, m), y),
        call_ensures(bool_, (name, b), z),
    ensures
        a.0@ == name@ && a.1@ == word@,
        t.0@ == name@ && t.1@ == word@,
        x.0@ == name@ && is_number(x.1@, n as int),
        y.0@ == name@ && is_number(y.1@, m as int),
        z.0@ == name@ && z.1@ == (if b {
            "true"@
        } else {
            "false"@
        }),
{
    decimal_is_number(n as nat);
    decimal_is_number(m as nat);
}

/// A proof without anything to escape is an object of its three points, each in full.
pub proof fn proof_is_an_object(name: &str, proof: &ProofDto, arg: Arg)
    requires
        call_ensures(json, (name, proof), arg),
        plain(proof.a@),
        plain(proof.b@),
        plain(proof.c@),
    ensures
        arg.0@ == name@,
        arg.1@ == "{\"a\":"@ + in_quotes(proof.a@) + ",\"b\":"@ + in_quotes(proof.b@) + ",\"c\":"@
            + in_quotes(proof.c@) + "}"@,
{
    plain_is_quoted(proof.a@);
    plain_is_quoted(proof.b@);
    plain_is_quoted(proof.c@);
}

// ---------------------------------------------------------------------
// How a run ended
// ---------------------------------------------------------------------
proof fn absence(s: Seq<char>, n: int, p: Seq<char>)
    requires
        not_before(s, n, p),
    ensures
        absent_before(s, n, p),
{
    assert forall|i: int| 0 <= i < n implies !(#[trigger] occurs_at(s, i, p)) by {
        if i + p.len() <= s.len() {
            assert(s.subrange(i, i + p.len()) != p);
        }
    }
}

/// A program that could not be run is told with its path and what the system said.
pub proof fn unrun_program_is_told(
    client: &SorobanClient,
    said: String,
    r: Result<RawOutput, SorobanError>,
)
    requires
        call_ensures(SorobanClient::run, (client, Err::<ProcessOutput, String>(said)), r),
    ensures
        r matches Err(SorobanError::Spawn { cli, source }) && cli@ == client@.cli_path && source@
            == said@,
{
}

/// A successful run gives the two texts that it printed, in full, even where they speak of errors.
pub proof fn successful_run_gives_its_outputs(
    client: &SorobanClient,
    o: ProcessOutput,
    stdout: Seq<char>,
    stderr: Seq<char>,
    r: Result<RawOutput, SorobanError>,
)
    requires
        call_ensures(SorobanClient::run, (client, Ok::<ProcessOutput, String>(o)), r),
        left(o, true, stdout, stderr),
    ensures
        r matches Ok(raw) && raw.stdout@ == stdout && raw.stderr@ == stderr,
{
}

/// Whether a text reports the contract's error `code`, and no other before it.
pub open spec fn reports(
    stderr: Seq<char>,
    before: Seq<char>,
    code: u32,
    after: Seq<char>,
) -> bool {
    &&& stderr == before + "Error(Contract, #"@ + decimal(code as nat) + ")"@ + after
    &&& not_before(stderr, before.len() as int, "Error(Contract,"@)
}

/// A run that the contract rejects fails with the code that its output reports, whatever the code
/// and whatever stands around it.
pub proof fn rejected_run_gives_its_code(
    client: &SorobanClient,
    o: ProcessOutput,
    stdout: Seq<char>,
    stderr: Seq<char>,
    before: Seq<char>,
    code: u32,
    after: Seq<char>,
    r: Result<RawOutput, SorobanError>,
)
    requires
        call_ensures(SorobanClient::run, (client, Ok::<ProcessOutput, String>(o)), r),
        left(o, false, stdout, stderr),
        reports(stderr, before, code, after),
    ensures
        r matches Err(SorobanError::Contract { code: c, name }) && c == code && name@
            == contract_error(code),
{
    reported(stderr, before, code, after, client, o);
}

proof fn reported(
    stderr: Seq<char>,
    before: Seq<char>,
    code: u32,
    after: Seq<char>,
    client: &SorobanClient,
    o: ProcessOutput,
)
    requires
        crate::soroban_client::is_read(Ok(o)),
        encodes(o.stderr@, stderr),
        reports(stderr, before, code, after),
    ensures
        reported_rejection(utf8_lossy(o.stderr@)) == Some(
            SorobanErrorView::Contract { code, name: contract_error(code) },
        ),
{
    absence(stderr, before.len() as int, "Error(Contract,"@);
    decimal_is_number(code as nat);
    decimal_reads_back(code as nat);
    crate::decimal::integer_text_reads_back(code as nat, u32::MAX as nat);
    let digits = decimal(code as nat);
    assert(utf8_lossy(o.stderr@) == before + "Error(Contract, #"@ + digits + ")"@ + after);
    assert(reported_rejection(stderr) == Some(rejection_for(digits)));
}

/// A run that fails without a word of the contract gives its exit code, or -1, and all that it
/// printed to its standard error.
pub proof fn failed_run_gives_its_status(
    client: &SorobanClient,
    o: ProcessOutput,
    stdout: Seq<char>,
    stderr: Seq<char>,
    r: Result<RawOutput, SorobanError>,
)
    requires
        call_ensures(SorobanClient::run, (client, Ok::<ProcessOutput, String>(o)), r),
        left(o, false, stdout, stderr),
        not_before(stderr, stderr.len() as int, "Error(Contract,"@),
    ensures
        r matches Err(SorobanError::Cli { status, stderr: s }) && s@ == stderr && status == (
        match o.code {
            Some(c) => c as int,
            None => -1,
        }),
{
    absence(stderr, stderr.len() as int, "Error(Contract,"@);
}

/// Codes without a name of their own are unknown.
pub proof fn other_codes_are_unknown(code: u32)
    requires
        code == 0 || code > 15,
    ensures
        contract_error(code) == "Unknown"@,
{
}

/// Whether a text names the transaction hash `hash`, and no other before it.
pub open spec fn names_hash(
    text: Seq<char>,
    before: Seq<char>,
    hash: Seq<char>,
    after: Seq<char>,
) -> bool {
    &&& hash.len() == 64 && hex_only(hash)
    &&& text == before + "Signing transaction: "@ + hash + after
    &&& not_before(text, before.len() as int, "Signing transaction:"@)
    &&& not_before(text, before.len() as int, "explorer/"@)
}

/// Whether a text names no transaction hash.
pub open spec fn names_no_hash(text: Seq<char>) -> bool {
    &&& not_before(text, text.len() as int, "Signing transaction:"@)
    &&& not_before(text, text.len() as int, "explorer/"@)
}

/// Whether the hash that was found is the one that a text names, and none where it names none.
pub open spec fn gives_hash(
    found: Option<String>,
    text: Seq<char>,
    before: Seq<char>,
    hash: Seq<char>,
    after: Seq<char>,
) -> bool {
    &&& names_hash(text, before, hash, after) ==> (found matches Some(h) && h@ == hash)
    &&& names_no_hash(text) ==> found is None
}

/// What hash is found in a text, where it is read as it is meant.
pub proof fn hash_is_found(s: Seq<char>, before: Seq<char>, hash: Seq<char>, after: Seq<char>)
    requires
        crate::soroban_client::hash_is_read(s),
    ensures
        names_hash(s, before, hash, after) ==> captured(
            crate::pattern::TX_HASH_PATTERN@,
            s,
        ) == Some(hash),
        names_no_hash(s) ==> captured(crate::pattern::TX_HASH_PATTERN@, s) is None,
{
    if names_hash(s, before, hash, after) {
        assert(is_tx_hash(hash));
        absence(s, before.len() as int, "Signing transaction:"@);
        absence(s, before.len() as int, "explorer/"@);
        assert(s == before + "Signing transaction: "@ + hash + after);
    }
    if names_no_hash(s) {
        absence(s, s.len() as int, "Signing transaction:"@);
        absence(s, s.len() as int, "explorer/"@);
    }
}

// ---------------------------------------------------------------------
// What calls return
// ---------------------------------------------------------------------
proof fn line_is_trimmed(s: Seq<char>)
    requires
        s.len() > 0,
        !is_space(s[0]),
        !is_space(s.last()),
    ensures
        trimmed(s.push('\n')) == s,
{
    crate::laws::texts::white_space_around_is_trimmed(Seq::empty(), s, seq!['\n']);
    assert(Seq::<char>::empty() + s + seq!['\n'] =~= s.push('\n'));
}

/// What is left of a printed number is the number.
pub proof fn number_line(word: Seq<char>, n: u64)
    requires
        is_number(word, n as int),
    ensures
        trimmed(word.push('\n')) == word,
        crate::json::number_is_read(word) ==> json_u64(word) == Ok::<u64, Seq<char>>(n),
{
    number_is_decimal(word, n as nat);
    assert('0' <= word[0] <= '9');
    assert('0' <= word[word.len() - 1] <= '9');
    line_is_trimmed(word);
    is_spaced_by_nothing(word);
}

/// What is left of a printed list is the list.
pub proof fn list_line(v: Seq<u64>)
    ensures
        trimmed(bracketed(v).push('\n')) == bracketed(v),
        crate::json::list_is_read(bracketed(v)) ==> json_u64_list(bracketed(v)) == Ok::<
            Seq<u64>,
            Seq<char>,
        >(v),
{
    let s = bracketed(v);
    assert(s[0] == '[');
    assert(s.last() == ']');
    line_is_trimmed(s);
    bracketed_is_json(v);
}

/// What is left of a printed `null` is `null`.
pub proof fn null_line()
    ensures
        trimmed("null\n"@) == "null"@,
        crate::json::unit_is_read("null"@) ==> json_unit("null"@) is Ok,
{
    reveal_strlit("null");
    reveal_strlit("null\n");
    assert("null"@ =~= seq!['n', 'u', 'l', 'l']);
    assert("null\n"@ =~= "null"@.push('\n'));
    line_is_trimmed("null"@);
    is_spaced_by_nothing("null"@);
}

/// An operator-signed call that prints a number in one line returns that number, and the hash of
/// its transaction where it names one.
pub proof fn printed_number_comes_back(
    client: &SorobanClient,
    o: ProcessOutput,
    word: Seq<char>,
    n: u64,
    stderr: Seq<char>,
    before: Seq<char>,
    hash: Seq<char>,
    after: Seq<char>,
    r: Result<Invoked<u64>, SorobanError>,
)
    requires
        call_ensures(SorobanClient::invoked_u64, (client, Ok::<ProcessOutput, String>(o)), r),
        is_number(word, n as int),
        left(o, true, word.push('\n'), stderr),
    ensures
        r matches Ok(i) && i.value == n && gives_hash(i.tx_hash, stderr, before, hash, after),
{
    number_line(word, n);
    hash_is_found(stderr, before, hash, after);
    let parsed = |s: Seq<char>| json_u64(s);
    assert(parsed(word) == json_u64(word));
}

/// An operator-signed call that prints `null` in one line has succeeded, and returns the hash of its
/// transaction where it names one.
pub proof fn printed_null_comes_back(
    client: &SorobanClient,
    o: ProcessOutput,
    stderr: Seq<char>,
    before: Seq<char>,
    hash: Seq<char>,
    after: Seq<char>,
    r: Result<Invoked<()>, SorobanError>,
)
    requires
        call_ensures(SorobanClient::invoked_unit, (client, Ok::<ProcessOutput, String>(o)), r),
        left(o, true, "null\n"@, stderr),
    ensures
        r matches Ok(i) && gives_hash(i.tx_hash, stderr, before, hash, after),
{
    null_line();
    hash_is_found(stderr, before, hash, after);
    let parsed = |s: Seq<char>| json_unit(s);
    assert(parsed("null"@) == json_unit("null"@));
}

/// A call that prints a list of numbers in one line returns exactly that list, all of its entries
/// in order: an operator-signed call and a read alike.
pub proof fn printed_list_comes_back(
    client: &SorobanClient,
    o: ProcessOutput,
    v: Seq<u64>,
    stderr: Seq<char>,
    r: Result<Invoked<Vec<u64>>, SorobanError>,
    t: Result<Vec<u64>, SorobanError>,
)
    requires
        call_ensures(SorobanClient::invoked_list, (client, Ok::<ProcessOutput, String>(o)), r),
        call_ensures(SorobanClient::read_list, (client, Ok::<ProcessOutput, String>(o)), t),
        left(o, true, bracketed(v).push('\n'), stderr),
    ensures
        r matches Ok(i) && i.value@ == v,
        t matches Ok(list) && list@ == v,
{
    list_line(v);
    let parsed = |s: Seq<char>| json_u64_list(s);
    assert(parsed(bracketed(v)) == json_u64_list(bracketed(v)));
}

/// The JSON of a read is what it printed, without the white space around it.
pub proof fn printed_json_comes_back(
    client: &SorobanClient,
    o: ProcessOutput,
    stdout: Seq<char>,
    stderr: Seq<char>,
    r: Result<String, SorobanError>,
)
    requires
        call_ensures(SorobanClient::read_json, (client, Ok::<ProcessOutput, String>(o)), r),
        left(o, true, stdout, stderr),
    ensures
        r matches Ok(json) && is_trimming_of(json@, stdout),
{
    trimmed_is_trimming(stdout);
}

/// A successful call whose output is not what was expected fails, and tells the output.
pub proof fn unreadable_output_is_told(
    client: &SorobanClient,
    o: ProcessOutput,
    stdout: Seq<char>,
    stderr: Seq<char>,
    r: Result<Invoked<u64>, SorobanError>,
)
    requires
        call_ensures(SorobanClient::invoked_u64, (client, Ok::<ProcessOutput, String>(o)), r),
        left(o, true, stdout, stderr),
        forall|t: Seq<char>|
            #[trigger] is_trimming_of(t, stdout) ==> json_u64(t) is Err,
    ensures
        r matches Err(SorobanError::Decode { expected, output, source }) && expected@
            == "invoke result"@ && is_trimming_of(output@, stdout),
{
    trimmed_is_trimming(stdout);
    let parsed = |s: Seq<char>| json_u64(s);
    assert(parsed(trimmed(stdout)) == json_u64(trimmed(stdout)));
}

/// A payment that was sent gives the hash that its standard error names.
pub proof fn payment_gives_its_hash(
    client: &SorobanClient,
    o: ProcessOutput,
    stdout: Seq<char>,
    stderr: Seq<char>,
    before: Seq<char>,
    hash: Seq<char>,
    after: Seq<char>,
    r: Result<Option<String>, SorobanError>,
)
    requires
        call_ensures(SorobanClient::payment_sent, (client, Ok::<ProcessOutput, String>(o)), r),
        left(o, true, stdout, stderr),
    ensures
        r matches Ok(found) && gives_hash(found, stderr, before, hash, after),
{
    hash_is_found(stderr, before, hash, after);
}

/// A payment that failed is an error.
pub proof fn failed_payment_is_an_error(
    client: &SorobanClient,
    output: Result<ProcessOutput, String>,
    r: Result<Option<String>, SorobanError>,
)
    requires
        call_ensures(SorobanClient::payment_sent, (client, output), r),
        output matches Ok(o) ==> !o.success,
    ensures
        r is Err,
{
}

/// A transaction that was forwarded gives the hash that its standard error names, or else the one
/// that its standard output names.
pub proof fn forwarded_transaction_gives_its_hash(
    client: &SorobanClient,
    o: ProcessOutput,
    stdout: Seq<char>,
    stderr: Seq<char>,
    before: Seq<char>,
    hash: Seq<char>,
    after: Seq<char>,
    r: Result<Relayed, SorobanError>,
)
    requires
        call_ensures(SorobanClient::relayed, (client, Ok::<ProcessOutput, String>(o)), r),
        left(o, true, stdout, stderr),
    ensures
        r is Ok,
        names_hash(stderr, before, hash, after) ==> (r->Ok_0.tx_hash matches Some(h) && h@ == hash),
        names_no_hash(stderr) && names_hash(stdout, before, hash, after) ==> (
        r->Ok_0.tx_hash matches Some(h) && h@ == hash),
        names_no_hash(stderr) && names_no_hash(stdout) ==> r->Ok_0.tx_hash is None,
{
    hash_is_found(stderr, before, hash, after);
    hash_is_found(stdout, before, hash, after);
}

/// A transaction that was forwarded and did not succeed is told: by the code that the contract
/// rejected it with, or else by its hash, if it has one, and all of its standard error.
pub proof fn failed_transaction_is_told(
    client: &SorobanClient,
    o: ProcessOutput,
    stdout: Seq<char>,
    stderr: Seq<char>,
    before: Seq<char>,
    hash: Seq<char>,
    code: u32,
    after: Seq<char>,
    r: Result<Relayed, SorobanError>,
)
    requires
        call_ensures(SorobanClient::relayed, (client, Ok::<ProcessOutput, String>(o)), r),
        left(o, false, stdout, stderr),
    ensures
        r is Err,
        reports(stderr, before, code, after) ==> (r matches Err(
            SorobanError::Contract { code: c, name },
        ) && c == code && name@ == contract_error(code)),
        not_before(stderr, stderr.len() as int, "Error(Contract,"@) ==> (r matches Err(
            SorobanError::TransactionFailed { tx_hash, detail },
        ) && detail@ == stderr && (names_hash(stderr, before, hash, after) ==> tx_hash@ == hash)
            && (names_no_hash(stderr) ==> tx_hash@.len() == 0)),
{
    hash_is_found(stderr, before, hash, after);
    if reports(stderr, before, code, after) {
        reported(stderr, before, code, after, client, o);
    }
    if not_before(stderr, stderr.len() as int, "Error(Contract,"@) {
        absence(stderr, stderr.len() as int, "Error(Contract,"@);
    }
}

/// An address is what the CLI printed, without the white space around it; otherwise the failure is
/// told.
pub proof fn printed_address_comes_back(
    cli_path: &str,
    o: ProcessOutput,
    success: bool,
    stdout: Seq<char>,
    stderr: Seq<char>,
    r: Result<String, SorobanError>,
)
    requires
        call_ensures(
            SorobanClient::resolved_address,
            (cli_path, Ok::<ProcessOutput, String>(o)),
            r,
        ),
        left(o, success, stdout, stderr),
    ensures
        success ==> (r matches Ok(address) && is_trimming_of(address@, stdout)),
        !success ==> (r matches Err(SorobanError::Cli { status, stderr: s }) && s@ == stderr
            && status == (match o.code {
            Some(c) => c as int,
            None => -1,
        })),
{
    trimmed_is_trimming(stdout);
}

// ---------------------------------------------------------------------
// Failures
// ---------------------------------------------------------------------
/// A run that failed is told alike by every way to read it.
pub proof fn failed_run_is_told_alike(
    client: &SorobanClient,
    output: Result<ProcessOutput, String>,
    e: SorobanError,
    a: Result<Invoked<u64>, SorobanError>,
    b: Result<Invoked<()>, SorobanError>,
    c: Result<Invoked<Vec<u64>>, SorobanError>,
    d: Result<Vec<u64>, SorobanError>,
    f: Result<String, SorobanError>,
    g: Result<Option<String>, SorobanError>,
)
    requires
        call_ensures(SorobanClient::run, (client, output), Err::<RawOutput, SorobanError>(e)),
        call_ensures(SorobanClient::invoked_u64, (client, output), a),
        call_ensures(SorobanClient::invoked_unit, (client, output), b),
        call_ensures(SorobanClient::invoked_list, (client, output), c),
        call_ensures(SorobanClient::read_list, (client, output), d),
        call_ensures(SorobanClient::read_json, (client, output), f),
        call_ensures(SorobanClient::payment_sent, (client, output), g),
    ensures
        a matches Err(x) && x@ == e@,
        b matches Err(x) && x@ == e@,
        c matches Err(x) && x@ == e@,
        d matches Err(x) && x@ == e@,
        f matches Err(x) && x@ == e@,
        g matches Err(x) && x@ == e@,
{
}

/// A successful call whose output is no list, where one is expected, fails and tells the output.
pub proof fn unreadable_list_is_told(
    client: &SorobanClient,
    o: ProcessOutput,
    stdout: Seq<char>,
    stderr: Seq<char>,
    r: Result<Invoked<Vec<u64>>, SorobanError>,
    t: Result<Vec<u64>, SorobanError>,
)
    requires
        call_ensures(SorobanClient::invoked_list, (client, Ok::<ProcessOutput, String>(o)), r),
        call_ensures(SorobanClient::read_list, (client, Ok::<ProcessOutput, String>(o)), t),
        left(o, true, stdout, stderr),
        forall|t: Seq<char>| #[trigger] is_trimming_of(t, stdout) ==> json_u64_list(t) is Err,
    ensures
        r matches Err(SorobanError::Decode { expected, output, source }) && expected@
            == "invoke result"@ && is_trimming_of(output@, stdout),
        t matches Err(SorobanError::Decode { expected, output, source }) && expected@
            == "read result"@ && is_trimming_of(output@, stdout),
{
    trimmed_is_trimming(stdout);
    let parsed = |s: Seq<char>| json_u64_list(s);
    assert(parsed(trimmed(stdout)) == json_u64_list(trimmed(stdout)));
}

/// A successful call that returns nothing and prints anything but `null` fails and tells the output.
pub proof fn unreadable_null_is_told(
    client: &SorobanClient,
    o: ProcessOutput,
    stdout: Seq<char>,
    stderr: Seq<char>,
    r: Result<Invoked<()>, SorobanError>,
)
    requires
        call_ensures(SorobanClient::invoked_unit, (client, Ok::<ProcessOutput, String>(o)), r),
        left(o, true, stdout, stderr),
        forall|t: Seq<char>| #[trigger] is_trimming_of(t, stdout) ==> json_unit(t) is Err,
    ensures
        r matches Err(SorobanError::Decode { expected, output, source }) && expected@
            == "invoke result"@ && is_trimming_of(output@, stdout),
{
    trimmed_is_trimming(stdout);
    let parsed = |s: Seq<char>| json_unit(s);
    assert(parsed(trimmed(stdout)) == json_unit(trimmed(stdout)));
}

/// The code of a rejection is what its digits are worth, and zero where that is no number of 32
/// bits.
pub proof fn rejection_is_worth_its_digits(digits: &str, r: SorobanError)
    requires
        digits@.len() > 0,
        digits_only(digits@),
        call_ensures(crate::soroban_client::rejection, (digits,), r),
    ensures
        r matches SorobanError::Contract { code, name } && code == (if value(digits@) <= u32::MAX {
            value(digits@) as int
        } else {
            0
        }) && name@ == contract_error(code),
{
    crate::laws::value_is_digits_value(digits@);
    assert('0' <= digits@[0] <= '9');
    assert forall|i: int| 0 <= i < digits@.len() implies crate::decimal::is_digit(
        #[trigger] digits@[i],
    ) by {}
}

/// The round that was read from the JSON of a call is that round, and what was wrong with the JSON
/// is told with it.
pub proof fn read_round_comes_back(
    json: String,
    parsed: Result<OnChainRound, String>,
    r: Result<OnChainRound, SorobanError>,
)
    requires
        call_ensures(SorobanClient::read_round, (json, parsed), r),
    ensures
        match parsed {
            Ok(round) => r == Ok::<OnChainRound, SorobanError>(round),
            Err(m) => r matches Err(SorobanError::Decode { expected, output, source }) && expected@
                == "read result"@ && output@ == json@ && source@ == m@,
        },
{
}

/// What is found in an output is found in it wherever it stands.
pub proof fn found_where_it_stands(
    s: &str,
    before: Seq<char>,
    code: u32,
    hash: Seq<char>,
    after: Seq<char>,
    e: Option<SorobanError>,
    h: Option<String>,
)
    requires
        call_ensures(crate::soroban_client::find_contract_error, (s,), e),
        call_ensures(crate::soroban_client::find_tx_hash, (s,), h),
    ensures
        gives_hash(h, s@, before, hash, after),
        reports(s@, before, code, after) ==> (e matches Some(
            SorobanError::Contract { code: c, name },
        ) && c == code && name@ == contract_error(code)),
        not_before(s@, s@.len() as int, "Error(Contract,"@) ==> e is None,
{
    hash_is_found(s@, before, hash, after);
    if reports(s@, before, code, after) {
        absence(s@, before.len() as int, "Error(Contract,"@);
        decimal_is_number(code as nat);
        decimal_reads_back(code as nat);
        crate::decimal::integer_text_reads_back(code as nat, u32::MAX as nat);
        let digits = decimal(code as nat);
        assert(s@ == before + "Error(Contract, #"@ + digits + ")"@ + after);
    }
    if not_before(s@, s@.len() as int, "Error(Contract,"@) {
        absence(s@, s@.len() as int, "Error(Contract,"@);
    }
}

/// Every call of the contract begins with the contract, its source account and the network.
pub proof fn prelude_is_spelled_out(client: &SorobanClient, source: &str, r: Vec<String>, i: int)
    requires
        call_ensures(SorobanClient::invoke_prelude, (client, source), r),
    ensures
        r@.len() == 6 + client@.network_args.len(),
        r@[0]@ == "contract"@,
        r@[1]@ == "invoke"@,
        r@[2]@ == "--id"@,
        r@[3]@ == client@.contract_id,
        r@[4]@ == "--source-account"@,
        r@[5]@ == source@,
        0 <= i < client@.network_args.len() ==> r@[6 + i]@ == client@.network_args[i],
{
    let w = texts(r@);
    assert(w.len() == r@.len());
    assert(forall|j: int| 0 <= j < w.len() ==> w[j] == (#[trigger] r@[j])@);
}

/// Arguments are appended to a command line two words each, in order, and what stood there stays.
pub proof fn arguments_are_appended(
    line: &mut Vec<String>,
    args: &[Arg],
    i: int,
    done: (),
)
    requires
        call_ensures(crate::soroban_client::push_args, (line, args), done),
    ensures
        final(line)@.len() == old(line)@.len() + 2 * args@.len(),
        0 <= i < old(line)@.len() ==> final(line)@[i]@ == old(line)@[i]@,
        0 <= i < args@.len() ==> final(line)@[old(line)@.len() + 2 * i]@ == "--"@ + args@[i].0@
            && final(line)@[old(line)@.len() + 2 * i + 1]@ == args@[i].1@,
{
    let pairs = args_view(args@);
    flags_by_index(pairs);
    let v = texts(old(line)@);
    let w = texts(final(line)@);
    assert(v.len() == old(line)@.len());
    assert(w.len() == final(line)@.len());
    assert(forall|j: int| 0 <= j < v.len() ==> v[j] == (#[trigger] old(line)@[j])@);
    assert(forall|j: int| 0 <= j < w.len() ==> w[j] == (#[trigger] final(line)@[j])@);
    if 0 <= i < args@.len() {
        assert(pairs[i] == args@[i]@);
        assert(w[v.len() + 2 * i] == flags(pairs)[2 * i]);
        assert(w[v.len() + 2 * i + 1] == flags(pairs)[2 * i + 1]);
    }
}

/// A transaction that could not be forwarded and an identity that could not be resolved are told
/// with the program and what the system said.
pub proof fn unrun_calls_are_told(
    client: &SorobanClient,
    cli_path: &str,
    said: String,
    a: Result<Relayed, SorobanError>,
    b: Result<String, SorobanError>,
)
    requires
        call_ensures(SorobanClient::relayed, (client, Err::<ProcessOutput, String>(said)), a),
        call_ensures(
            SorobanClient::resolved_address,
            (cli_path, Err::<ProcessOutput, String>(said)),
            b,
        ),
    ensures
        a matches Err(SorobanError::Spawn { cli, source }) && cli@ == client@.cli_path && source@
            == said@,
        b matches Err(SorobanError::Spawn { cli, source }) && cli@ == cli_path@ && source@ == said@,
{
}

/// How a call ended is its success, or else the contract's rejection, or else its exit code and its
/// standard error.
pub proof fn ending_is_sorted_out(
    success: bool,
    code: Option<i32>,
    stdout: String,
    stderr: String,
    rejected: Option<SorobanError>,
    r: Result<RawOutput, SorobanError>,
)
    requires
        call_ensures(
            crate::soroban_client::check_output,
            (success, code, stdout, stderr, rejected),
            r,
        ),
    ensures
        success ==> (r matches Ok(raw) && raw.stdout@ == stdout@ && raw.stderr@ == stderr@),
        !success && rejected is Some ==> (r matches Err(e) && e@ == rejected->0@),
        !success && rejected is None ==> (r matches Err(SorobanError::Cli { status, stderr: s })
            && s@ == stderr@ && status == (match code {
            Some(c) => c as int,
            None => -1,
        })),
{
}

/// How a forwarded transaction ended is its success with its hash, or else the contract's
/// rejection, or else its hash and its standard error.
pub proof fn relay_is_sorted_out(
    success: bool,
    stderr: String,
    rejected: Option<SorobanError>,
    a: Option<String>,
    b: Option<String>,
    r: Result<Relayed, SorobanError>,
)
    requires
        call_ensures(
            crate::soroban_client::check_relay,
            (success, stderr, rejected, a, b),
            r,
        ),
    ensures
        success ==> (r matches Ok(x) && optional_text(x.tx_hash) == optional_text(
            if a is Some {
                a
            } else {
                b
            },
        )),
        !success && rejected is Some ==> (r matches Err(e) && e@ == rejected->0@),
        !success && rejected is None ==> (r matches Err(
            SorobanError::TransactionFailed { tx_hash, detail },
        ) && detail@ == stderr@ && (a matches Some(h) ==> tx_hash@ == h@) && (a is None
            ==> tx_hash@.len() == 0)),
{
}

/// What was parsed from an output is what comes back, and what the parser said is told with the
/// output.
pub proof fn parsed_output_comes_back(
    output: String,
    expected: &'static str,
    parsed: Result<u64, String>,
    r: Result<u64, SorobanError>,
)
    requires
        call_ensures(crate::soroban_client::decode::<u64>, (output, expected, parsed), r),
    ensures
        match parsed {
            Ok(v) => r == Ok::<u64, SorobanError>(v),
            Err(m) => r matches Err(SorobanError::Decode { expected: e, output: o, source }) && e@
                == expected@ && o@ == output@ && source@ == m@,
        },
{
}

/// A number, a `null` and a list are read from the line that holds them.
pub proof fn lines_are_read(
    a: &str,
    b: &str,
    c: &str,
    expected: &'static str,
    word: Seq<char>,
    n: u64,
    v: Seq<u64>,
    x: Result<u64, SorobanError>,
    y: Result<(), SorobanError>,
    z: Result<Vec<u64>, SorobanError>,
)
    requires
        is_number(word, n as int),
        a@ == word.push('\n'),
        b@ == "null\n"@,
        c@ == bracketed(v).push('\n'),
        call_ensures(crate::soroban_client::decode_u64, (a, expected), x),
        call_ensures(crate::soroban_client::decode_unit, (b, expected), y),
        call_ensures(crate::soroban_client::decode_u64_list, (c, expected), z),
    ensures
        x == Ok::<u64, SorobanError>(n),
        y is Ok,
        z matches Ok(list) && list@ == v,
{
    number_line(word, n);
    null_line();
    list_line(v);
}

/// What a successful call printed is read as JSON, without the white space around it, and comes back
/// as it is read; what cannot be read is told with the output. The transaction is the one that is
/// found in its standard error.
pub proof fn printed_output_comes_back(
    client: &SorobanClient,
    o: ProcessOutput,
    stdout: Seq<char>,
    text: Seq<char>,
    stderr: &str,
    hash: Option<String>,
    a: Result<Invoked<u64>, SorobanError>,
    b: Result<Invoked<()>, SorobanError>,
    c: Result<Invoked<Vec<u64>>, SorobanError>,
    d: Result<Vec<u64>, SorobanError>,
    g: Result<Option<String>, SorobanError>,
)
    requires
        left(o, true, stdout, stderr@),
        is_trimming_of(text, stdout),
        call_ensures(crate::soroban_client::find_tx_hash, (stderr,), hash),
        call_ensures(SorobanClient::invoked_u64, (client, Ok::<ProcessOutput, String>(o)), a),
        call_ensures(SorobanClient::invoked_unit, (client, Ok::<ProcessOutput, String>(o)), b),
        call_ensures(SorobanClient::invoked_list, (client, Ok::<ProcessOutput, String>(o)), c),
        call_ensures(SorobanClient::read_list, (client, Ok::<ProcessOutput, String>(o)), d),
        call_ensures(SorobanClient::payment_sent, (client, Ok::<ProcessOutput, String>(o)), g),
    ensures
        match json_u64(text) {
            Ok(v) => a matches Ok(i) && i.value == v && optional_text(i.tx_hash) == optional_text(
                hash,
            ),
            Err(m) => a is Err && tells(a->Err_0, "invoke result"@, text, m),
        },
        match json_unit(text) {
            Ok(_) => b matches Ok(i) && optional_text(i.tx_hash) == optional_text(hash),
            Err(m) => b is Err && tells(b->Err_0, "invoke result"@, text, m),
        },
        match json_u64_list(text) {
            Ok(v) => c matches Ok(i) && i.value@ == v && optional_text(i.tx_hash) == optional_text(
                hash,
            ),
            Err(m) => c is Err && tells(c->Err_0, "invoke result"@, text, m),
        },
        match json_u64_list(text) {
            Ok(v) => d matches Ok(list) && list@ == v,
            Err(m) => d is Err && tells(d->Err_0, "read result"@, text, m),
        },
        g matches Ok(found) && optional_text(found) == optional_text(hash),
{
    trimming_is_unique(text, stdout);
    let number = |s: Seq<char>| json_u64(s);
    let unit = |s: Seq<char>| json_unit(s);
    let list = |s: Seq<char>| json_u64_list(s);
    assert(number(text) == json_u64(text));
    assert(unit(text) == json_unit(text));
    assert(list(text) == json_u64_list(text));
}

/// Whether an error tells an output that was not what was expected, and why.
pub open spec fn tells(
    e: SorobanError,
    expected: Seq<char>,
    output: Seq<char>,
    source: Seq<char>,
) -> bool {
    e matches SorobanError::Decode { expected: x, output: y, source: z } && x@ == expected && y@
        == output && z@ == source
}

/// A call that failed is told by the rejection that is found in its standard error, and otherwise
/// by its exit code; a forwarded transaction by the hash that is found there.
pub proof fn failures_are_sorted_out(
    client: &SorobanClient,
    o: ProcessOutput,
    stdout: Seq<char>,
    stderr: &str,
    rejected: Option<SorobanError>,
    hash: Option<String>,
    a: Result<RawOutput, SorobanError>,
    b: Result<Relayed, SorobanError>,
)
    requires
        left(o, false, stdout, stderr@),
        call_ensures(crate::soroban_client::find_contract_error, (stderr,), rejected),
        call_ensures(crate::soroban_client::find_tx_hash, (stderr,), hash),
        call_ensures(SorobanClient::run, (client, Ok::<ProcessOutput, String>(o)), a),
        call_ensures(SorobanClient::relayed, (client, Ok::<ProcessOutput, String>(o)), b),
    ensures
        match rejected {
            Some(e) => (a matches Err(x) && x@ == e@) && (b matches Err(y) && y@ == e@),
            None => (a matches Err(SorobanError::Cli { status, stderr: s }) && s@ == stderr@
                && status == (match o.code {
                Some(c) => c as int,
                None => -1,
            })) && (b matches Err(SorobanError::TransactionFailed { tx_hash, detail }) && detail@
                == stderr@ && (hash matches Some(h) ==> tx_hash@ == h@) && (hash is None
                ==> tx_hash@.len() == 0)),
        },
{
}

/// A transaction that was forwarded has the hash that is found in its standard error, or else the
/// one that is found in its standard output.
pub proof fn forwarded_hash_is_the_one_found(
    client: &SorobanClient,
    o: ProcessOutput,
    stdout: &str,
    stderr: &str,
    first: Option<String>,
    second: Option<String>,
    r: Result<Relayed, SorobanError>,
)
    requires
        left(o, true, stdout@, stderr@),
        call_ensures(crate::soroban_client::find_tx_hash, (stderr,), first),
        call_ensures(crate::soroban_client::find_tx_hash, (stdout,), second),
        call_ensures(SorobanClient::relayed, (client, Ok::<ProcessOutput, String>(o)), r),
    ensures
        r matches Ok(x) && optional_text(x.tx_hash) == optional_text(
            if first is Some {
                first
            } else {
                second
            },
        ),
{
}

} // verus!
