//! The registrar-level maximum weight record, published for the host
//! engine's quorum math.  It is recomputed with the same transform as the
//! per-voter records, so the cap stays consistent with what any one voter
//! can reach.

use vstd::prelude::*;

use crate::error::EngineError;
use crate::pubkey::Pubkey;
use crate::registrar::Registrar;
use crate::transform::{spec_transform, transform};

verus! {

/// The registrar's published cap on total voter weight, with its own
/// validity window.
#[derive(Clone, Debug)]
pub struct MaxVoterWeightRecord {
    /// The realm the cap belongs to.
    pub realm: Pubkey,
    /// The governing token mint the cap is associated with.
    pub governing_token_mint: Pubkey,
    /// The maximum attainable voter weight.
    pub max_voter_weight: u64,
    /// The time-reference at which the cap expires; `None` never expires.
    pub max_voter_weight_expiry: Option<u64>,
}

/// A predecessor plugin's published cap, in the canonical external shape,
/// with the producing program's identity.
#[derive(Clone, Copy, Debug)]
pub struct PredecessorMaxRecord {
    /// The plugin program that produced the record.
    pub program_id: Pubkey,
    /// The realm the cap belongs to.
    pub realm: Pubkey,
    /// The governing token mint the cap is associated with.
    pub governing_token_mint: Pubkey,
    /// The cap the predecessor published.
    pub max_voter_weight: u64,
}

/// Creates the cap record for a registrar: zero until the first
/// recomputation, with an expiry already in the past.
pub fn create_max_voter_weight_record(registrar: &Registrar) -> (r: MaxVoterWeightRecord)
    ensures
        r.realm == registrar.realm,
        r.governing_token_mint == registrar.governing_token_mint,
        r.max_voter_weight == 0,
        r.max_voter_weight_expiry == Some(0u64),
{
    MaxVoterWeightRecord {
        realm: registrar.realm,
        governing_token_mint: registrar.governing_token_mint,
        max_voter_weight: 0,
        max_voter_weight_expiry: Some(0),
    }
}

/// The base the cap is computed from, by the same resolution rule as the
/// per-voter path: the registrar's maximum possible deposit without a
/// predecessor, the predecessor's identity-checked cap with one.
pub open spec fn spec_resolve_max(
    registrar: Registrar,
    max_deposit_amount: u64,
    predecessor: Option<PredecessorMaxRecord>,
) -> Result<u64, EngineError> {
    if !registrar.spec_uses_predecessor() {
        Ok(max_deposit_amount)
    } else {
        match predecessor {
            None => Err(EngineError::MissingPredecessorVoterWeightRecord),
            Some(record) => {
                if !(registrar.previous_voter_weight_plugin_program_id matches Some(expected)
                    && record.program_id@ == expected@) {
                    Err(EngineError::InvalidPredecessorProgramId)
                } else if record.realm@ != registrar.realm@ {
                    Err(EngineError::InvalidPredecessorVoterWeightRecordRealm)
                } else if record.governing_token_mint@ != registrar.governing_token_mint@ {
                    Err(EngineError::InvalidPredecessorVoterWeightRecordGovTokenMint)
                } else {
                    Ok(record.max_voter_weight)
                }
            },
        }
    }
}

/// What a cap recomputation leaves in the record: the record must belong to
/// the registrar's realm and mint; the base is resolved as above, the
/// transform applied, and the cap re-stamped to the current time-reference.
/// Every error leaves the record unchanged.
pub open spec fn spec_update_max_voter_weight_record(
    registrar: Registrar,
    record: MaxVoterWeightRecord,
    max_deposit_amount: u64,
    predecessor: Option<PredecessorMaxRecord>,
    current_slot: u64,
) -> Result<MaxVoterWeightRecord, EngineError> {
    if record.realm@ != registrar.realm@ {
        Err(EngineError::InvalidMaxVoterWeightRecordRealm)
    } else if record.governing_token_mint@ != registrar.governing_token_mint@ {
        Err(EngineError::InvalidMaxVoterWeightRecordMint)
    } else {
        match spec_resolve_max(registrar, max_deposit_amount, predecessor) {
            Err(e) => Err(e),
            Ok(base) => {
                match spec_transform(base, registrar.quadratic_coefficients) {
                    Err(e) => Err(e),
                    Ok(w) => Ok(
                        MaxVoterWeightRecord {
                            max_voter_weight: w,
                            max_voter_weight_expiry: Some(current_slot),
                            ..record
                        },
                    ),
                }
            },
        }
    }
}

/// Recomputes the published cap after a configuration change, applying the
/// same transform as the per-voter path to the registrar's maximum possible
/// deposit, or to the predecessor's cap.  All-or-nothing: on any error the
/// record is exactly as it was.
pub fn update_max_voter_weight_record(
    registrar: &Registrar,
    record: &mut MaxVoterWeightRecord,
    max_deposit_amount: u64,
    predecessor: Option<&PredecessorMaxRecord>,
    current_slot: u64,
) -> (r: Result<(), EngineError>)
    ensures
        match spec_update_max_voter_weight_record(
            *registrar,
            *old(record),
            max_deposit_amount,
            match predecessor {
                None => None::<PredecessorMaxRecord>,
                Some(p) => Some(*p),
            },
            current_slot,
        ) {
            Ok(updated) => r == Ok::<(), EngineError>(()) && *final(record) == updated,
            Err(e) => r == Err::<(), EngineError>(e) && *final(record) == *old(record),
        },
{
    if !(record.realm == registrar.realm) {
        return Err(EngineError::InvalidMaxVoterWeightRecordRealm);
    }
    if !(record.governing_token_mint == registrar.governing_token_mint) {
        return Err(EngineError::InvalidMaxVoterWeightRecordMint);
    }
    let base = match &registrar.previous_voter_weight_plugin_program_id {
        None => max_deposit_amount,
        Some(expected) => {
            match predecessor {
                None => {
                    return Err(EngineError::MissingPredecessorVoterWeightRecord);
                },
                Some(p) => {
                    if !(p.program_id == *expected) {
                        return Err(EngineError::InvalidPredecessorProgramId);
                    }
                    if !(p.realm == registrar.realm) {
                        return Err(EngineError::InvalidPredecessorVoterWeightRecordRealm);
                    }
                    if !(p.governing_token_mint == registrar.governing_token_mint) {
                        return Err(EngineError::InvalidPredecessorVoterWeightRecordGovTokenMint);
                    }
                    p.max_voter_weight
                },
            }
        },
    };
    let w = match transform(base, registrar.quadratic_coefficients) {
        Err(e) => {
            return Err(e);
        },
        Ok(w) => w,
    };
    record.max_voter_weight = w;
    record.max_voter_weight_expiry = Some(current_slot);
    Ok(())
}

} // verus!
