use anonvote_backend::config::{env_or, env_var, require, Config, ConfigError};
use anonvote_backend::soroban_client::SorobanClient;

fn vars(pairs: &[(&str, &str)]) -> Vec<(String, String)> {
    pairs.iter().map(|(k, v)| (k.to_string(), v.to_string())).collect()
}

fn required() -> Vec<(String, String)> {
    vars(&[
        ("DATABASE_URL", "postgres://x"),
        ("ANONVOTE_CONTRACT_ID", "CABC"),
        ("STELLAR_OPERATOR_IDENTITY", "operator"),
        ("STELLAR_NETWORK", "testnet"),
    ])
}

#[test]
fn defaults_fill_what_is_not_set() {
    let c = Config::from_env(&required()).unwrap();
    assert_eq!(c.database_url, "postgres://x");
    assert_eq!(c.bind_addr, "0.0.0.0:8080");
    assert_eq!(c.contract_id, "CABC");
    assert_eq!(c.operator_identity, "operator");
    assert_eq!(c.stellar_network.as_deref(), Some("testnet"));
    assert_eq!(c.stellar_rpc_url, None);
    assert_eq!(c.stellar_network_passphrase, None);
    assert_eq!(c.stellar_cli_path, "stellar");
    assert_eq!(c.circuit_dir, "../anonvote-contracts/circuits/anonvote");
    assert_eq!(c.nargo_path, "nargo");
    assert_eq!(c.bb_path, None);
    assert_eq!(c.treasury_identity, "operator");
}

#[test]
fn what_is_set_is_taken() {
    let mut v = required();
    v.extend(vars(&[
        ("BIND_ADDR", "127.0.0.1:1"),
        ("STELLAR_CLI_PATH", "/bin/stellar"),
        ("ANONVOTE_CIRCUIT_DIR", "/circuit"),
        ("NARGO_PATH", "/bin/nargo"),
        ("BB_PATH", "/bin/bb"),
        ("STELLAR_TREASURY_IDENTITY", "treasury"),
    ]));
    let c = Config::from_env(&v).unwrap();
    assert_eq!(c.bind_addr, "127.0.0.1:1");
    assert_eq!(c.stellar_cli_path, "/bin/stellar");
    assert_eq!(c.circuit_dir, "/circuit");
    assert_eq!(c.nargo_path, "/bin/nargo");
    assert_eq!(c.bb_path.as_deref(), Some("/bin/bb"));
    assert_eq!(c.treasury_identity, "treasury");
}

#[test]
fn an_empty_prover_path_is_none() {
    let mut v = required();
    v.extend(vars(&[("BB_PATH", "")]));
    assert_eq!(Config::from_env(&v).unwrap().bb_path, None);
}

#[test]
fn required_variables_are_missed_in_order() {
    for (i, key) in ["DATABASE_URL", "ANONVOTE_CONTRACT_ID", "STELLAR_OPERATOR_IDENTITY"].iter().enumerate() {
        let v = required()[..i].to_vec();
        let e = Config::from_env(&v).unwrap_err();
        assert!(matches!(&e, ConfigError::Missing(k) if k == key));
        assert_eq!(e.message(), format!("missing required env var {}", key));
    }
}

#[test]
fn a_network_has_to_be_named() {
    let base = required()[..3].to_vec();
    let mut url_only = base.clone();
    url_only.extend(vars(&[("STELLAR_RPC_URL", "http://rpc")]));
    for v in [base.clone(), url_only.clone()] {
        let e = Config::from_env(&v).unwrap_err();
        assert!(matches!(e, ConfigError::NoNetwork));
        assert_eq!(
            e.message(),
            "set STELLAR_NETWORK (e.g. \"testnet\") or both STELLAR_RPC_URL and STELLAR_NETWORK_PASSPHRASE"
        );
    }
    url_only.extend(vars(&[("STELLAR_NETWORK_PASSPHRASE", "Test")]));
    let c = Config::from_env(&url_only).unwrap();
    assert_eq!(
        SorobanClient::new(&c).invoke_prelude("me"),
        vec![
            "contract", "invoke", "--id", "CABC", "--source-account", "me", "--rpc-url",
            "http://rpc", "--network-passphrase", "Test"
        ]
    );
}

#[test]
fn variables_are_found_by_their_whole_name() {
    let v = vars(&[("AB", "1"), ("A", "2"), ("A", "3")]);
    assert_eq!(env_var(&v, "A").as_deref(), Some("2"));
    assert_eq!(env_var(&v, "B"), None);
    assert_eq!(env_or(&v, "B", "x"), "x");
    assert_eq!(env_or(&v, "AB", "x"), "1");
    assert_eq!(require(&v, "AB").unwrap(), "1");
    assert!(require(&v, "C").is_err());
}
