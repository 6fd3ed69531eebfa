//! What the routes share.
use crate::config::Config;
use crate::proof_service::ProofService;
use crate::soroban_client::SorobanClient;
use vstd::prelude::*;

verus! {

/// What the routes share besides the database.
#[derive(Debug)]
pub struct AppStateInner {
    pub soroban: SorobanClient,
    pub proof_service: ProofService,
    pub config: Config,
    /// The `G...` address that `config.operator_identity` resolves to, resolved once at startup.
    /// This is `round.admin` for every round that this backend creates.
    pub operator_address: String,
}

} // verus!
