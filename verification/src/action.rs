//! Governance actions a weight can be scoped to.

use vstd::prelude::*;

use crate::error::EngineError;

verus! {

/// The governance action a voter's weight pertains to.  The same enumeration
/// exists, in the same order, in the canonical external weight-record schema;
/// the two are mapped by stable ordinal position, never by name.
#[derive(Clone, Copy, Debug, PartialEq, Eq, Structural)]
pub enum VoterWeightAction {
    /// Cast a vote on a proposal.  Target: the proposal.
    CastVote,
    /// Comment on a proposal.  Target: the proposal.
    CommentProposal,
    /// Create a governance within a realm.  Target: the realm.
    CreateGovernance,
    /// Create a proposal for a governance.  Target: the governance.
    CreateProposal,
    /// Sign off a proposal for a governance.  Target: the proposal.
    SignOffProposal,
}

/// The stable ordinal of an action, shared with the external schema.
pub open spec fn spec_action_ordinal(a: VoterWeightAction) -> int {
    match a {
        VoterWeightAction::CastVote => 0,
        VoterWeightAction::CommentProposal => 1,
        VoterWeightAction::CreateGovernance => 2,
        VoterWeightAction::CreateProposal => 3,
        VoterWeightAction::SignOffProposal => 4,
    }
}

/// The action standing at a given ordinal; meaningful for ordinals inside
/// the enumeration (`0` to `4`).
pub open spec fn spec_action_of_ordinal(n: int) -> VoterWeightAction {
    if n == 0 {
        VoterWeightAction::CastVote
    } else if n == 1 {
        VoterWeightAction::CommentProposal
    } else if n == 2 {
        VoterWeightAction::CreateGovernance
    } else if n == 3 {
        VoterWeightAction::CreateProposal
    } else {
        VoterWeightAction::SignOffProposal
    }
}

/// The stable ordinal of an action.
pub fn action_to_ordinal(a: VoterWeightAction) -> (r: u8)
    ensures
        r == spec_action_ordinal(a),
{
    match a {
        VoterWeightAction::CastVote => 0,
        VoterWeightAction::CommentProposal => 1,
        VoterWeightAction::CreateGovernance => 2,
        VoterWeightAction::CreateProposal => 3,
        VoterWeightAction::SignOffProposal => 4,
    }
}

/// Maps an ordinal read from an external record back to the engine's own
/// enumeration.  An ordinal beyond the enumeration is a fatal configuration
/// error — the two schemas have diverged — never a silent default.
pub fn action_from_ordinal(n: u8) -> (r: Result<VoterWeightAction, EngineError>)
    ensures
        n < 5 ==> r == Ok::<VoterWeightAction, EngineError>(spec_action_of_ordinal(n as int)),
        n < 5 ==> (r matches Ok(a) && spec_action_ordinal(a) == n),
        n >= 5 ==> r == Err::<VoterWeightAction, EngineError>(EngineError::InvalidVoterWeightAction),
{
    match n {
        0 => Ok(VoterWeightAction::CastVote),
        1 => Ok(VoterWeightAction::CommentProposal),
        2 => Ok(VoterWeightAction::CreateGovernance),
        3 => Ok(VoterWeightAction::CreateProposal),
        4 => Ok(VoterWeightAction::SignOffProposal),
        _ => Err(EngineError::InvalidVoterWeightAction),
    }
}

} // verus!
