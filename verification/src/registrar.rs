//! Per-realm configuration: which credential network gates voting, an
//! optional predecessor plugin, and optional quadratic coefficients.

use vstd::prelude::*;

use crate::error::EngineError;
use crate::pubkey::Pubkey;
use crate::transform::QuadraticCoefficients;

verus! {

/// The per-realm configuration record.  The (realm, governing token mint)
/// pairing is immutable for the registrar's lifetime; everything else is
/// mutable only by the realm authority.
#[derive(Clone, Debug)]
pub struct Registrar {
    /// The realm this registrar configures.
    pub realm: Pubkey,
    /// The governing token mint weights are computed for.
    pub governing_token_mint: Pubkey,
    /// The authority allowed to reconfigure this registrar.
    pub realm_authority: Pubkey,
    /// The credential network whose proof of authorization gates voting.
    pub gatekeeper_network: Pubkey,
    /// The predecessor plugin whose weight record, if configured, supplies
    /// the base weight in place of raw deposits.
    pub previous_voter_weight_plugin_program_id: Option<Pubkey>,
    /// Coefficients of the quadratic transform; absent means identity.
    pub quadratic_coefficients: Option<QuadraticCoefficients>,
}

impl Registrar {
    /// Whether the registrar routes base weights through a predecessor
    /// plugin instead of raw deposits.
    pub open spec fn spec_uses_predecessor(&self) -> bool {
        self.previous_voter_weight_plugin_program_id is Some
    }

    /// Whether the registrar routes base weights through a predecessor
    /// plugin instead of raw deposits.
    pub fn uses_predecessor(&self) -> (r: bool)
        ensures
            r == self.spec_uses_predecessor(),
    {
        self.previous_voter_weight_plugin_program_id.is_some()
    }
}

/// Creates the registrar for a (realm, governing token mint) pair: no
/// predecessor plugin and no coefficients until the authority configures
/// them.
pub fn create_registrar(
    realm: Pubkey,
    governing_token_mint: Pubkey,
    realm_authority: Pubkey,
    gatekeeper_network: Pubkey,
) -> (r: Registrar)
    ensures
        r.realm == realm,
        r.governing_token_mint == governing_token_mint,
        r.realm_authority == realm_authority,
        r.gatekeeper_network == gatekeeper_network,
        r.previous_voter_weight_plugin_program_id is None,
        r.quadratic_coefficients is None,
{
    Registrar {
        realm,
        governing_token_mint,
        realm_authority,
        gatekeeper_network,
        previous_voter_weight_plugin_program_id: None,
        quadratic_coefficients: None,
    }
}

/// What a configuration call leaves in the registrar: the caller must be
/// the realm authority; a predecessor may only be switched on together with
/// the plugin's identity; realm, mint and authority never change.
pub open spec fn spec_configure_registrar(
    registrar: Registrar,
    caller: Pubkey,
    gatekeeper_network: Pubkey,
    use_previous_voter_weight_plugin: bool,
    predecessor_program_id: Option<Pubkey>,
    coefficients: Option<QuadraticCoefficients>,
) -> Result<Registrar, EngineError> {
    if caller@ != registrar.realm_authority@ {
        Err(EngineError::InvalidRealmAuthority)
    } else if use_previous_voter_weight_plugin && predecessor_program_id is None {
        Err(EngineError::MissingPredecessorPlugin)
    } else {
        Ok(
            Registrar {
                gatekeeper_network,
                previous_voter_weight_plugin_program_id: if use_previous_voter_weight_plugin {
                    predecessor_program_id
                } else {
                    None
                },
                quadratic_coefficients: coefficients,
                ..registrar
            },
        )
    }
}

/// Reconfigures a registrar.  Only the realm authority may call; on any
/// error the registrar is left unchanged.
pub fn configure_registrar(
    registrar: &mut Registrar,
    caller: &Pubkey,
    gatekeeper_network: Pubkey,
    use_previous_voter_weight_plugin: bool,
    predecessor_program_id: Option<Pubkey>,
    coefficients: Option<QuadraticCoefficients>,
) -> (r: Result<(), EngineError>)
    ensures
        match spec_configure_registrar(
            *old(registrar),
            *caller,
            gatekeeper_network,
            use_previous_voter_weight_plugin,
            predecessor_program_id,
            coefficients,
        ) {
            Ok(updated) => r == Ok::<(), EngineError>(()) && *final(registrar) == updated,
            Err(e) => r == Err::<(), EngineError>(e) && *final(registrar) == *old(registrar),
        },
{
    if !(*caller == registrar.realm_authority) {
        return Err(EngineError::InvalidRealmAuthority);
    }
    if use_previous_voter_weight_plugin && predecessor_program_id.is_none() {
        return Err(EngineError::MissingPredecessorPlugin);
    }
    registrar.gatekeeper_network = gatekeeper_network;
    registrar.previous_voter_weight_plugin_program_id = if use_previous_voter_weight_plugin {
        predecessor_program_id
    } else {
        None
    };
    registrar.quadratic_coefficients = coefficients;
    Ok(())
}

} // verus!
