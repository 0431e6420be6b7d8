use vstd::prelude::*;

verus! {

/// The host environment of a contract invocation.
#[verifier::external_type_specification]
#[verifier::external_body]
pub struct ExEnv(soroban_sdk::Env);

/// Relies on soroban_sdk::Ledger::timestamp: the close time of the current
/// ledger, in seconds, as the host reports it; nothing is known of the value.
#[verifier::external_body]
pub(crate) fn ledger_timestamp(env: &soroban_sdk::Env) -> (t: u64) {
    env.ledger().timestamp()
}

} // verus!
