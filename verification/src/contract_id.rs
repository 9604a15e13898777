//! The closed set of logical contracts that take part in a deployment.

use vstd::prelude::*;

verus! {

/// Identifier of one of the five logical contracts.  Identity is by variant;
/// the registry uses it as its key.
#[derive(Clone, Copy, Debug, PartialEq, Eq, Hash, Structural)]
pub enum ContractId {
    /// The standalone protocol contract.
    HotShot,
    /// The cryptographic verifier library.
    PlonkVerifier,
    /// The verification-key library.
    StateUpdateVk,
    /// The stateful light-client contract, linked against both libraries.
    LightClient,
    /// The upgradeable proxy wrapping the light-client contract.
    LightClientProxy,
}

} // verus!
