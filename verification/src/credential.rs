//! The credential gate: proof that the acting party is currently authorized
//! by the registrar's credential network.
//!
//! The credential itself is issued and revoked by an external service; what
//! that service attests about a presented credential reaches the engine as
//! the plain facts below; every check over those facts is verified here.

use vstd::prelude::*;

use crate::error::EngineError;
use crate::pubkey::Pubkey;

verus! {

/// The facts the external credential service attests about one presented
/// credential: who it is bound to, which network issued it, and whether it
/// is active (neither revoked nor expired) at this moment.
#[derive(Clone, Copy, Debug)]
pub struct Credential {
    /// The holder the credential is bound to.
    pub owner: Pubkey,
    /// The network that issued the credential.
    pub gatekeeper_network: Pubkey,
    /// Whether the credential is currently active.
    pub is_active: bool,
}

/// Whether a credential proves that `claimed_owner` is currently authorized
/// by `required_network`.
pub open spec fn spec_credential_valid(
    credential: Credential,
    claimed_owner: Pubkey,
    required_network: Pubkey,
) -> bool {
    &&& credential.is_active
    &&& credential.owner@ == claimed_owner@
    &&& credential.gatekeeper_network@ == required_network@
}

/// The credential gate: accepts exactly the active credentials bound to the
/// claimed owner and issued by the required network; anything else is an
/// authorization error.  This check never computes weight.
pub fn verify_credential(
    credential: &Credential,
    claimed_owner: &Pubkey,
    required_network: &Pubkey,
) -> (r: Result<(), EngineError>)
    ensures
        spec_credential_valid(*credential, *claimed_owner, *required_network) ==> r == Ok::<
            (),
            EngineError,
        >(()),
        !spec_credential_valid(*credential, *claimed_owner, *required_network) ==> r == Err::<
            (),
            EngineError,
        >(EngineError::InvalidGatewayToken),
{
    if credential.is_active && credential.owner == *claimed_owner && credential.gatekeeper_network
        == *required_network {
        Ok(())
    } else {
        Err(EngineError::InvalidGatewayToken)
    }
}

} // verus!
