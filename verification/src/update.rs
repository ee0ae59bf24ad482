//! The record update protocol: the general action update and the cast-vote
//! accumulation path.

use vstd::prelude::*;

use crate::action::VoterWeightAction;
use crate::credential::{spec_credential_valid, verify_credential, Credential};
use crate::error::EngineError;
use crate::pubkey::Pubkey;
use crate::record::{VoterWeightRecord, DEFAULT_VOTE_WEIGHT};
use crate::registrar::Registrar;
use crate::resolver::{resolve_weight_source, spec_resolve, PredecessorRecord};
use crate::transform::{spec_transform, transform};

verus! {

/// Creates the weight record for one (registrar, owner) pair: weight zero,
/// no action scope, and an expiry already in the past so the record cannot
/// be consumed before its first update.
pub fn create_voter_weight_record(registrar: &Registrar, governing_token_owner: Pubkey) -> (r:
    VoterWeightRecord)
    ensures
        r.realm == registrar.realm,
        r.governing_token_mint == registrar.governing_token_mint,
        r.governing_token_owner == governing_token_owner,
        r.voter_weight == 0,
        r.voter_weight_expiry == Some(0u64),
        r.weight_action is None,
        r.weight_action_target is None,
        r.reserved@ == Seq::new(8, |i: int| 0u8),
{
    let r = VoterWeightRecord {
        realm: registrar.realm,
        governing_token_mint: registrar.governing_token_mint,
        governing_token_owner,
        voter_weight: 0,
        voter_weight_expiry: Some(0),
        weight_action: None,
        weight_action_target: None,
        reserved: [0u8; 8],
    };
    proof {
        assert(r.reserved@ =~= Seq::new(8, |i: int| 0u8));
    }
    r
}

/// What the general update leaves in the record.  In order: the record must
/// belong to the registrar's realm and mint; a record still scoped to
/// cast-vote is refused — a plain update would silently overwrite an
/// in-progress accumulation; the base weight is resolved; on the raw-deposit
/// path a valid credential is mandatory; an update whose resolved scope is
/// cast-vote is refused for the same reason; the transform is applied; and
/// the record is re-stamped with the current time-reference and the resolved
/// scope.  Every error leaves the record unchanged.
pub open spec fn spec_update_voter_weight_record(
    registrar: Registrar,
    record: VoterWeightRecord,
    deposit_amount: u64,
    predecessor: Option<PredecessorRecord>,
    credential: Option<Credential>,
    current_slot: u64,
) -> Result<VoterWeightRecord, EngineError> {
    if record.realm@ != registrar.realm@ {
        Err(EngineError::InvalidVoterWeightRecordRealm)
    } else if record.governing_token_mint@ != registrar.governing_token_mint@ {
        Err(EngineError::InvalidVoterWeightRecordMint)
    } else if record.weight_action == Some(VoterWeightAction::CastVote) {
        Err(EngineError::CastVoteIsNotAllowed)
    } else {
        match spec_resolve(registrar, record.governing_token_owner, deposit_amount, predecessor) {
            Err(e) => Err(e),
            Ok(source) => {
                if !registrar.spec_uses_predecessor() && !(credential matches Some(c)
                    && spec_credential_valid(
                    c,
                    record.governing_token_owner,
                    registrar.gatekeeper_network,
                )) {
                    Err(EngineError::InvalidGatewayToken)
                } else if source.action == Some(VoterWeightAction::CastVote) {
                    Err(EngineError::CastVoteIsNotAllowed)
                } else {
                    match spec_transform(source.base_weight, registrar.quadratic_coefficients) {
                        Err(e) => Err(e),
                        Ok(w) => Ok(
                            VoterWeightRecord {
                                voter_weight: w,
                                voter_weight_expiry: Some(current_slot),
                                weight_action: source.action,
                                weight_action_target: source.target,
                                ..record
                            },
                        ),
                    }
                }
            },
        }
    }
}

/// Updates a weight record for a general (non-cast-vote) action: resolves
/// the base weight from the predecessor record or — credential-gated — from
/// the raw deposit, applies the transform, and re-stamps expiry and scope.
/// All-or-nothing: on any error the record is exactly as it was.
pub fn update_voter_weight_record(
    registrar: &Registrar,
    record: &mut VoterWeightRecord,
    deposit_amount: u64,
    predecessor: Option<&PredecessorRecord>,
    credential: Option<&Credential>,
    current_slot: u64,
) -> (r: Result<(), EngineError>)
    ensures
        match spec_update_voter_weight_record(
            *registrar,
            *old(record),
            deposit_amount,
            match predecessor {
                None => None::<PredecessorRecord>,
                Some(p) => Some(*p),
            },
            match credential {
                None => None::<Credential>,
                Some(c) => Some(*c),
            },
            current_slot,
        ) {
            Ok(updated) => r == Ok::<(), EngineError>(()) && *final(record) == updated,
            Err(e) => r == Err::<(), EngineError>(e) && *final(record) == *old(record),
        },
{
    if !(record.realm == registrar.realm) {
        return Err(EngineError::InvalidVoterWeightRecordRealm);
    }
    if !(record.governing_token_mint == registrar.governing_token_mint) {
        return Err(EngineError::InvalidVoterWeightRecordMint);
    }
    let scoped_to_cast_vote = match record.weight_action {
        Some(a) => a == VoterWeightAction::CastVote,
        None => false,
    };
    if scoped_to_cast_vote {
        return Err(EngineError::CastVoteIsNotAllowed);
    }
    let owner = record.governing_token_owner;
    let source = match resolve_weight_source(registrar, &owner, deposit_amount, predecessor) {
        Err(e) => {
            return Err(e);
        },
        Ok(source) => source,
    };
    if !registrar.uses_predecessor() {
        match credential {
            None => {
                return Err(EngineError::InvalidGatewayToken);
            },
            Some(c) => {
                match verify_credential(c, &owner, &registrar.gatekeeper_network) {
                    Err(e) => {
                        return Err(e);
                    },
                    Ok(_) => {},
                }
            },
        }
    }
    let resolved_cast_vote = match source.action {
        Some(a) => a == VoterWeightAction::CastVote,
        None => false,
    };
    if resolved_cast_vote {
        return Err(EngineError::CastVoteIsNotAllowed);
    }
    let w = match transform(source.base_weight, registrar.quadratic_coefficients) {
        Err(e) => {
            return Err(e);
        },
        Ok(w) => w,
    };
    record.voter_weight = w;
    record.voter_weight_expiry = Some(current_slot);
    record.weight_action = source.action;
    record.weight_action_target = source.target;
    Ok(())
}

/// Law: the general update path refuses a record currently scoped to
/// cast-vote — whatever else is supplied — with the action-scoping error,
/// and therefore (by the update's contract) leaves the record unchanged.
pub proof fn lemma_update_rejects_cast_vote_scope(
    registrar: Registrar,
    record: VoterWeightRecord,
    deposit_amount: u64,
    predecessor: Option<PredecessorRecord>,
    credential: Option<Credential>,
    current_slot: u64,
)
    requires
        record.realm@ == registrar.realm@,
        record.governing_token_mint@ == registrar.governing_token_mint@,
        record.weight_action == Some(VoterWeightAction::CastVote),
    ensures
        spec_update_voter_weight_record(
            registrar,
            record,
            deposit_amount,
            predecessor,
            credential,
            current_slot,
        ) == Err::<VoterWeightRecord, EngineError>(EngineError::CastVoteIsNotAllowed),
{
}

/// The weight one cast-vote call contributes: the fixed default unit when
/// the registrar composes with nothing (a plain credential gate), otherwise
/// the resolved and transformed weight, exactly as on the general path.
pub open spec fn spec_cast_vote_call_weight(
    registrar: Registrar,
    voter: Pubkey,
    deposit_amount: u64,
    predecessor: Option<PredecessorRecord>,
) -> Result<u64, EngineError> {
    if !registrar.spec_uses_predecessor() && registrar.quadratic_coefficients is None {
        Ok(DEFAULT_VOTE_WEIGHT)
    } else {
        match spec_resolve(registrar, voter, deposit_amount, predecessor) {
            Err(e) => Err(e),
            Ok(source) => spec_transform(source.base_weight, registrar.quadratic_coefficients),
        }
    }
}

/// What a cast-vote call leaves in the record.  In order: the record must
/// belong to the registrar's realm and mint and to the acting voter; the
/// credential must prove the voter currently authorized by the registrar's
/// network; the call weight is computed; a record already scoped to
/// (cast-vote, this proposal) accumulates — overflow is fatal, never
/// wrapped or saturated — and any other scope starts fresh at the call
/// weight; and the record is re-stamped to (cast-vote, proposal) at the
/// current time-reference.  Every error leaves the record unchanged.
pub open spec fn spec_cast_vote(
    registrar: Registrar,
    record: VoterWeightRecord,
    voter: Pubkey,
    credential: Credential,
    proposal: Pubkey,
    deposit_amount: u64,
    predecessor: Option<PredecessorRecord>,
    current_slot: u64,
) -> Result<VoterWeightRecord, EngineError> {
    if record.realm@ != registrar.realm@ {
        Err(EngineError::InvalidVoterWeightRecordRealm)
    } else if record.governing_token_mint@ != registrar.governing_token_mint@ {
        Err(EngineError::InvalidVoterWeightRecordMint)
    } else if voter@ != record.governing_token_owner@ {
        Err(EngineError::InvalidTokenOwnerForVoterWeightRecord)
    } else if !spec_credential_valid(credential, voter, registrar.gatekeeper_network) {
        Err(EngineError::InvalidGatewayToken)
    } else {
        match spec_cast_vote_call_weight(registrar, voter, deposit_amount, predecessor) {
            Err(e) => Err(e),
            Ok(w) => {
                let same_target = record.weight_action == Some(VoterWeightAction::CastVote)
                    && (record.weight_action_target matches Some(t) && t@ == proposal@);
                if same_target && record.voter_weight + w > u64::MAX {
                    Err(EngineError::ArithmeticOverflow)
                } else {
                    Ok(
                        VoterWeightRecord {
                            voter_weight: if same_target {
                                (record.voter_weight + w) as u64
                            } else {
                                w
                            },
                            voter_weight_expiry: Some(current_slot),
                            weight_action: Some(VoterWeightAction::CastVote),
                            weight_action_target: Some(proposal),
                            ..record
                        },
                    )
                }
            },
        }
    }
}

/// Casts a vote: verifies the credential, computes this call's weight, and
/// accumulates it into the record when the record is already scoped to the
/// same proposal's cast-vote — so a voter may build weight across several
/// calls — or resets to it otherwise, so no weight leaks into an unrelated
/// proposal.  The record comes out scoped to (cast-vote, proposal) and valid
/// only at the current time-reference.  All-or-nothing: on any error,
/// overflow included, the record is exactly as it was.
///
/// Preventing reuse of the same underlying tokens across repeated calls is
/// declared the duty of whichever collaborator supplies the call weight,
/// not of this engine.
pub fn cast_vote(
    registrar: &Registrar,
    record: &mut VoterWeightRecord,
    voter: &Pubkey,
    credential: &Credential,
    proposal: &Pubkey,
    deposit_amount: u64,
    predecessor: Option<&PredecessorRecord>,
    current_slot: u64,
) -> (r: Result<(), EngineError>)
    ensures
        match spec_cast_vote(
            *registrar,
            *old(record),
            *voter,
            *credential,
            *proposal,
            deposit_amount,
            match predecessor {
                None => None::<PredecessorRecord>,
                Some(p) => Some(*p),
            },
            current_slot,
        ) {
            Ok(updated) => r == Ok::<(), EngineError>(()) && *final(record) == updated,
            Err(e) => r == Err::<(), EngineError>(e) && *final(record) == *old(record),
        },
{
    if !(record.realm == registrar.realm) {
        return Err(EngineError::InvalidVoterWeightRecordRealm);
    }
    if !(record.governing_token_mint == registrar.governing_token_mint) {
        return Err(EngineError::InvalidVoterWeightRecordMint);
    }
    if !(*voter == record.governing_token_owner) {
        return Err(EngineError::InvalidTokenOwnerForVoterWeightRecord);
    }
    match verify_credential(credential, voter, &registrar.gatekeeper_network) {
        Err(e) => {
            return Err(e);
        },
        Ok(_) => {},
    }
    let plain_gate = !registrar.uses_predecessor() && registrar.quadratic_coefficients.is_none();
    let w = if plain_gate {
        DEFAULT_VOTE_WEIGHT
    } else {
        let source = match resolve_weight_source(registrar, voter, deposit_amount, predecessor) {
            Err(e) => {
                return Err(e);
            },
            Ok(source) => source,
        };
        match transform(source.base_weight, registrar.quadratic_coefficients) {
            Err(e) => {
                return Err(e);
            },
            Ok(w) => w,
        }
    };
    let same_action = match record.weight_action {
        Some(a) => a == VoterWeightAction::CastVote,
        None => false,
    };
    let same_target = same_action && match &record.weight_action_target {
        Some(t) => *t == *proposal,
        None => false,
    };
    let new_weight = if same_target {
        match record.voter_weight.checked_add(w) {
            None => {
                return Err(EngineError::ArithmeticOverflow);
            },
            Some(sum) => sum,
        }
    } else {
        w
    };
    record.voter_weight = new_weight;
    record.voter_weight_expiry = Some(current_slot);
    record.weight_action = Some(VoterWeightAction::CastVote);
    record.weight_action_target = Some(*proposal);
    Ok(())
}

/// Law: an accumulation that would overflow the weight type fails fatally
/// with the arithmetic error — never wrapping, never saturating — and
/// therefore (by the cast-vote contract) leaves the record at its pre-call
/// value.
pub proof fn lemma_cast_vote_overflow_is_fatal(
    registrar: Registrar,
    record: VoterWeightRecord,
    voter: Pubkey,
    credential: Credential,
    proposal: Pubkey,
    deposit_amount: u64,
    predecessor: Option<PredecessorRecord>,
    current_slot: u64,
)
    requires
        record.realm@ == registrar.realm@,
        record.governing_token_mint@ == registrar.governing_token_mint@,
        voter@ == record.governing_token_owner@,
        spec_credential_valid(credential, voter, registrar.gatekeeper_network),
        record.weight_action == Some(VoterWeightAction::CastVote),
        record.weight_action_target matches Some(t) && t@ == proposal@,
        spec_cast_vote_call_weight(registrar, voter, deposit_amount, predecessor) matches Ok(w)
            && record.voter_weight + w > u64::MAX,
    ensures
        spec_cast_vote(
            registrar,
            record,
            voter,
            credential,
            proposal,
            deposit_amount,
            predecessor,
            current_slot,
        ) == Err::<VoterWeightRecord, EngineError>(EngineError::ArithmeticOverflow),
{
}

} // verus!
