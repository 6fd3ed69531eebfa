//! Runtime configuration, as the environment gives it.
use crate::text::{optional_text, same_text};
use vstd::prelude::*;
use vstd::string::*;

verus! {

/// All runtime configuration, read once from the environment at startup.
#[derive(Clone, Debug)]
pub struct Config {
    pub database_url: String,
    pub bind_addr: String,
    /// The AnonVote contract's Soroban address (C...).
    pub contract_id: String,
    /// `stellar keys` identity alias (or raw secret key / G... address the CLI can resolve) used
    /// as the transaction source for every operator-signed call. Its address becomes
    /// `round.admin` for every round this backend creates.
    pub operator_identity: String,
    /// Named network that the `stellar` CLI already knows about. Where it is set,
    /// `stellar_rpc_url` and `stellar_network_passphrase` are not used.
    pub stellar_network: Option<String>,
    pub stellar_rpc_url: Option<String>,
    pub stellar_network_passphrase: Option<String>,
    /// Path to the `stellar` CLI binary.
    pub stellar_cli_path: String,
    /// Path to the Noir circuit package directory used for server-side proof generation.
    pub circuit_dir: String,
    pub nargo_path: String,
    /// Path to a Barretenberg-compatible prover CLI. Where it is not set, or names no binary,
    /// server-side proof generation is disabled; submitting an already-built proof still works.
    pub bb_path: Option<String>,
    /// The identity that payouts are paid from.
    pub treasury_identity: String,
}

/// Why an environment is no configuration.
#[derive(Clone, Debug)]
pub enum ConfigError {
    /// A required variable is not set.
    Missing(String),
    /// Neither a named network nor an RPC URL with a passphrase is set.
    NoNetwork,
}

/// A `ConfigError` with its text as characters.
pub enum ConfigErrorView {
    Missing(Seq<char>),
    NoNetwork,
}

impl View for ConfigError {
    type V = ConfigErrorView;

    open spec fn view(&self) -> ConfigErrorView {
        match self {
            ConfigError::Missing(key) => ConfigErrorView::Missing(key@),
            ConfigError::NoNetwork => ConfigErrorView::NoNetwork,
        }
    }
}

impl ConfigErrorView {
    /// What the error says.
    pub open spec fn text(self) -> Seq<char> {
        match self {
            ConfigErrorView::Missing(key) => "missing required env var "@ + key,
            ConfigErrorView::NoNetwork =>
                "set STELLAR_NETWORK (e.g. \"testnet\") or both STELLAR_RPC_URL and STELLAR_NETWORK_PASSPHRASE"@,
        }
    }
}

impl ConfigError {
    /// What the error says.
    pub fn message(&self) -> (r: String)
        ensures
            r@ == self@.text(),
    {
        match self {
            ConfigError::Missing(key) => {
                let mut out = "missing required env var ".to_owned();
                out.append(key.as_str());
                out
            },
            ConfigError::NoNetwork =>
                "set STELLAR_NETWORK (e.g. \"testnet\") or both STELLAR_RPC_URL and STELLAR_NETWORK_PASSPHRASE".to_owned(),
        }
    }
}

/// What the environment holds for `key`: the value of the first entry with that name.
pub open spec fn env_value(vars: Seq<(String, String)>, key: Seq<char>) -> Option<Seq<char>>
    decreases vars.len(),
{
    if vars.len() == 0 {
        None
    } else if vars[0].0@ == key {
        Some(vars[0].1@)
    } else {
        env_value(vars.drop_first(), key)
    }
}

/// What the environment holds for `key`, or `default`.
pub open spec fn env_value_or(
    vars: Seq<(String, String)>,
    key: Seq<char>,
    default: Seq<char>,
) -> Seq<char> {
    match env_value(vars, key) {
        Some(v) => v,
        None => default,
    }
}

/// What the environment holds for `key`.
pub fn env_var(vars: &Vec<(String, String)>, key: &str) -> (r: Option<String>)
    ensures
        optional_text(r) == env_value(vars@, key@),
{
    let mut i: usize = 0;
    assert(vars@.skip(0) =~= vars@);
    while i < vars.len()
        invariant
            i <= vars@.len(),
            env_value(vars@, key@) == env_value(vars@.skip(i as int), key@),
        decreases vars@.len() - i,
    {
        if same_text(vars[i].0.as_str(), key) {
            return Some(vars[i].1.clone());
        }
        assert(vars@.skip(i as int).drop_first() =~= vars@.skip(i + 1));
        i = i + 1;
    }
    None
}

/// What the environment holds for `key`, which has to be set.
pub fn require(vars: &Vec<(String, String)>, key: &str) -> (r: Result<String, ConfigError>)
    ensures
        match r {
            Ok(v) => env_value(vars@, key@) == Some(v@),
            Err(e) => env_value(vars@, key@) is None && e@ == ConfigErrorView::Missing(key@),
        },
{
    match env_var(vars, key) {
        Some(v) => Ok(v),
        None => Err(ConfigError::Missing(key.to_owned())),
    }
}

/// What the environment holds for `key`, or `default`.
pub fn env_or(vars: &Vec<(String, String)>, key: &str, default: &str) -> (r: String)
    ensures
        r@ == env_value_or(vars@, key@, default@),
{
    match env_var(vars, key) {
        Some(v) => v,
        None => default.to_owned(),
    }
}

/// Whether the environment says which network to use.
pub open spec fn names_network(vars: Seq<(String, String)>) -> bool {
    ||| env_value(vars, "STELLAR_NETWORK"@) is Some
    ||| env_value(vars, "STELLAR_RPC_URL"@) is Some && env_value(
        vars,
        "STELLAR_NETWORK_PASSPHRASE"@,
    ) is Some
}

/// The first thing that the environment lacks, if it lacks anything.
pub open spec fn config_error(vars: Seq<(String, String)>) -> Option<ConfigErrorView> {
    if env_value(vars, "DATABASE_URL"@) is None {
        Some(ConfigErrorView::Missing("DATABASE_URL"@))
    } else if env_value(vars, "ANONVOTE_CONTRACT_ID"@) is None {
        Some(ConfigErrorView::Missing("ANONVOTE_CONTRACT_ID"@))
    } else if env_value(vars, "STELLAR_OPERATOR_IDENTITY"@) is None {
        Some(ConfigErrorView::Missing("STELLAR_OPERATOR_IDENTITY"@))
    } else if !names_network(vars) {
        Some(ConfigErrorView::NoNetwork)
    } else {
        None
    }
}

impl Config {
    /// Whether the configuration says which network to use.
    pub open spec fn has_network(self) -> bool {
        self.stellar_network is Some || (self.stellar_rpc_url is Some
            && self.stellar_network_passphrase is Some)
    }

    /// Whether the configuration is what the environment says: the required variables as they
    /// are, the others as they are or by default. An empty `BB_PATH` counts as none, and payouts
    /// are paid by the operator unless a treasury is named.
    pub open spec fn agrees_with(self, vars: Seq<(String, String)>) -> bool {
        let bb = env_value(vars, "BB_PATH"@);
        &&& Some(self.database_url@) == env_value(vars, "DATABASE_URL"@)
        &&& self.bind_addr@ == env_value_or(vars, "BIND_ADDR"@, "0.0.0.0:8080"@)
        &&& Some(self.contract_id@) == env_value(vars, "ANONVOTE_CONTRACT_ID"@)
        &&& Some(self.operator_identity@) == env_value(vars, "STELLAR_OPERATOR_IDENTITY"@)
        &&& optional_text(self.stellar_network) == env_value(vars, "STELLAR_NETWORK"@)
        &&& optional_text(self.stellar_rpc_url) == env_value(vars, "STELLAR_RPC_URL"@)
        &&& optional_text(self.stellar_network_passphrase) == env_value(
            vars,
            "STELLAR_NETWORK_PASSPHRASE"@,
        )
        &&& self.stellar_cli_path@ == env_value_or(vars, "STELLAR_CLI_PATH"@, "stellar"@)
        &&& self.circuit_dir@ == env_value_or(
            vars,
            "ANONVOTE_CIRCUIT_DIR"@,
            "../anonvote-contracts/circuits/anonvote"@,
        )
        &&& self.nargo_path@ == env_value_or(vars, "NARGO_PATH"@, "nargo"@)
        &&& optional_text(self.bb_path) == (if bb is Some && bb->0.len() == 0 {
            None
        } else {
            bb
        })
        &&& self.treasury_identity@ == env_value_or(
            vars,
            "STELLAR_TREASURY_IDENTITY"@,
            self.operator_identity@,
        )
    }

    /// Reads the configuration from the variables of the environment, as names and values.
    pub fn from_env(vars: &Vec<(String, String)>) -> (r: Result<Config, ConfigError>)
        ensures
            match r {
                Ok(c) => config_error(vars@) is None && c.agrees_with(vars@) && c.has_network(),
                Err(e) => config_error(vars@) == Some(e@),
            },
    {
        let database_url = require(vars, "DATABASE_URL")?;
        let bind_addr = env_or(vars, "BIND_ADDR", "0.0.0.0:8080");
        let contract_id = require(vars, "ANONVOTE_CONTRACT_ID")?;
        let operator_identity = require(vars, "STELLAR_OPERATOR_IDENTITY")?;
        let stellar_network = env_var(vars, "STELLAR_NETWORK");
        let stellar_rpc_url = env_var(vars, "STELLAR_RPC_URL");
        let stellar_network_passphrase = env_var(vars, "STELLAR_NETWORK_PASSPHRASE");
        if stellar_network.is_none() && (stellar_rpc_url.is_none()
            || stellar_network_passphrase.is_none()) {
            return Err(ConfigError::NoNetwork);
        }
        let stellar_cli_path = env_or(vars, "STELLAR_CLI_PATH", "stellar");
        let circuit_dir = env_or(
            vars,
            "ANONVOTE_CIRCUIT_DIR",
            "../anonvote-contracts/circuits/anonvote",
        );
        let nargo_path = env_or(vars, "NARGO_PATH", "nargo");
        let bb_path = match env_var(vars, "BB_PATH") {
            Some(p) => if p.as_str().is_empty() {
                None
            } else {
                Some(p)
            },
            None => None,
        };
        let treasury_identity = env_or(
            vars,
            "STELLAR_TREASURY_IDENTITY",
            operator_identity.as_str(),
        );
        Ok(
            Config {
                database_url,
                bind_addr,
                contract_id,
                operator_identity,
                stellar_network,
                stellar_rpc_url,
                stellar_network_passphrase,
                stellar_cli_path,
                circuit_dir,
                nargo_path,
                bb_path,
                treasury_identity,
            },
        )
    }
}

} // verus!
