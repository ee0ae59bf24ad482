//! The weight source resolver: a base weight from a predecessor plugin's
//! record, or from the owner's raw deposit, as the registrar is configured.

use vstd::prelude::*;

use crate::action::{spec_action_of_ordinal, action_from_ordinal, VoterWeightAction};
use crate::error::EngineError;
use crate::pubkey::Pubkey;
use crate::registrar::Registrar;

verus! {

/// A predecessor plugin's weight record, in the canonical external shape
/// shared industry-wide: its action is carried as a stable ordinal, and the
/// producing program's identity travels with the record.
#[derive(Clone, Copy, Debug)]
pub struct PredecessorRecord {
    /// The plugin program that produced the record.
    pub program_id: Pubkey,
    /// The realm the record belongs to.
    pub realm: Pubkey,
    /// The governing token mint the record is associated with.
    pub governing_token_mint: Pubkey,
    /// The owner of the governing token: the voter.
    pub governing_token_owner: Pubkey,
    /// The weight the predecessor computed.
    pub voter_weight: u64,
    /// The time-reference at which that weight expires, if any.
    pub voter_weight_expiry: Option<u64>,
    /// The action the weight is scoped to, as the external schema's ordinal.
    pub weight_action: Option<u8>,
    /// The target the scoped action pertains to, if any.
    pub weight_action_target: Option<Pubkey>,
}

/// What the resolver produced: the base weight and the action scope it
/// inherited, none of either on the raw-deposit path.
#[derive(Clone, Copy, Debug)]
pub struct WeightSource {
    /// The base weight, before the transform.
    pub base_weight: u64,
    /// The action inherited from the predecessor record, if any.
    pub action: Option<VoterWeightAction>,
    /// The target inherited from the predecessor record, if any.
    pub target: Option<Pubkey>,
}

/// Whether a predecessor record may supply this registrar's base weight for
/// this owner: produced by exactly the configured predecessor program, for
/// the registrar's realm and mint, and belonging to the same owner.
pub open spec fn spec_predecessor_matches(
    registrar: Registrar,
    owner: Pubkey,
    record: PredecessorRecord,
) -> bool {
    &&& registrar.previous_voter_weight_plugin_program_id matches Some(expected)
        && record.program_id@ == expected@
    &&& record.realm@ == registrar.realm@
    &&& record.governing_token_mint@ == registrar.governing_token_mint@
    &&& record.governing_token_owner@ == owner@
}

/// The error a mismatched predecessor record resolves to: each check in
/// order, program identity first, then realm, mint and owner.
pub open spec fn spec_predecessor_error(
    registrar: Registrar,
    owner: Pubkey,
    record: PredecessorRecord,
) -> EngineError {
    if !(registrar.previous_voter_weight_plugin_program_id matches Some(expected)
        && record.program_id@ == expected@) {
        EngineError::InvalidPredecessorProgramId
    } else if record.realm@ != registrar.realm@ {
        EngineError::InvalidPredecessorVoterWeightRecordRealm
    } else if record.governing_token_mint@ != registrar.governing_token_mint@ {
        EngineError::InvalidPredecessorVoterWeightRecordGovTokenMint
    } else {
        EngineError::InvalidPredecessorVoterWeightRecordGovTokenOwner
    }
}

/// What resolution returns.  Without a configured predecessor the base
/// weight is the raw deposit and nothing is inherited.  With one, the
/// supplied record must pass every identity check, its action ordinal must
/// lie inside the engine's enumeration, and its weight, action and target
/// are copied; its own expiry is not re-validated here, because the engine
/// re-stamps expiry to the current time-reference on every update.
pub open spec fn spec_resolve(
    registrar: Registrar,
    owner: Pubkey,
    deposit_amount: u64,
    predecessor: Option<PredecessorRecord>,
) -> Result<WeightSource, EngineError> {
    if !registrar.spec_uses_predecessor() {
        Ok(WeightSource { base_weight: deposit_amount, action: None, target: None })
    } else {
        match predecessor {
            None => Err(EngineError::MissingPredecessorVoterWeightRecord),
            Some(record) => {
                if !spec_predecessor_matches(registrar, owner, record) {
                    Err(spec_predecessor_error(registrar, owner, record))
                } else if record.weight_action matches Some(n) && n >= 5 {
                    Err(EngineError::InvalidVoterWeightAction)
                } else {
                    Ok(
                        WeightSource {
                            base_weight: record.voter_weight,
                            action: match record.weight_action {
                                None => None,
                                Some(n) => Some(spec_action_of_ordinal(n as int)),
                            },
                            target: record.weight_action_target,
                        },
                    )
                }
            },
        }
    }
}

/// Resolves the base weight and inherited scope for one owner: the raw
/// deposit when no predecessor plugin is configured, the predecessor's
/// record — identity-checked and ordinal-mapped — when one is.
pub fn resolve_weight_source(
    registrar: &Registrar,
    owner: &Pubkey,
    deposit_amount: u64,
    predecessor: Option<&PredecessorRecord>,
) -> (r: Result<WeightSource, EngineError>)
    ensures
        r == spec_resolve(
            *registrar,
            *owner,
            deposit_amount,
            match predecessor {
                None => None::<PredecessorRecord>,
                Some(p) => Some(*p),
            },
        ),
{
    let expected = match &registrar.previous_voter_weight_plugin_program_id {
        None => {
            return Ok(WeightSource { base_weight: deposit_amount, action: None, target: None });
        },
        Some(expected) => expected,
    };
    let record = match predecessor {
        None => {
            return Err(EngineError::MissingPredecessorVoterWeightRecord);
        },
        Some(record) => record,
    };
    if !(record.program_id == *expected) {
        return Err(EngineError::InvalidPredecessorProgramId);
    }
    if !(record.realm == registrar.realm) {
        return Err(EngineError::InvalidPredecessorVoterWeightRecordRealm);
    }
    if !(record.governing_token_mint == registrar.governing_token_mint) {
        return Err(EngineError::InvalidPredecessorVoterWeightRecordGovTokenMint);
    }
    if !(record.governing_token_owner == *owner) {
        return Err(EngineError::InvalidPredecessorVoterWeightRecordGovTokenOwner);
    }
    let action: Option<VoterWeightAction> = match record.weight_action {
        None => None,
        Some(n) => {
            match action_from_ordinal(n) {
                Err(e) => {
                    return Err(e);
                },
                Ok(a) => Some(a),
            }
        },
    };
    Ok(
        WeightSource {
            base_weight: record.voter_weight,
            action,
            target: record.weight_action_target,
        },
    )
}

/// Law: with a predecessor plugin configured, resolution copies weight,
/// action and target only from a record verified to carry the configured
/// program's identity, the registrar's realm and mint, and the owner —
/// and any mismatch resolves to a configuration error, copying nothing.
pub proof fn lemma_resolve_copies_only_verified_predecessor(
    registrar: Registrar,
    owner: Pubkey,
    deposit_amount: u64,
    record: PredecessorRecord,
)
    requires
        registrar.spec_uses_predecessor(),
    ensures
        (spec_predecessor_matches(registrar, owner, record) && (record.weight_action matches Some(
            n,
        ) ==> n < 5)) ==> (spec_resolve(registrar, owner, deposit_amount, Some(record)) matches Ok(
            source,
        ) && source.base_weight == record.voter_weight && source.target
            == record.weight_action_target),
        !spec_predecessor_matches(registrar, owner, record) ==> {
            &&& spec_resolve(registrar, owner, deposit_amount, Some(record)) == Err::<
                WeightSource,
                EngineError,
            >(spec_predecessor_error(registrar, owner, record))
            &&& crate::error::spec_error_class(spec_predecessor_error(registrar, owner, record))
                == crate::error::ErrorClass::Configuration
        },
{
}

} // verus!
