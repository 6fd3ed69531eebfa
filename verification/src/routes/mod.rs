//! What each route of the service decides.
pub mod allocation;
pub mod payouts;
pub mod rounds;
pub mod voters;
pub mod votes;

use vstd::prelude::*;

verus! {

/// The answer of a service that is up.
pub fn health() -> (r: &'static str)
    ensures
        r@ == "ok"@,
{
    "ok"
}

} // verus!
