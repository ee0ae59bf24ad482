//! The engine's error taxonomy.

use vstd::prelude::*;

verus! {

/// Every way an engine operation can fail.  All errors are fatal for the
/// current operation and leave the touched record unchanged.
#[derive(Clone, Copy, Debug, PartialEq, Eq, Structural)]
pub enum EngineError {
    /// The caller of a configuration operation is not the realm authority.
    InvalidRealmAuthority,
    /// The configuration asks for a predecessor plugin but names none.
    MissingPredecessorPlugin,
    /// The weight record's realm does not match the registrar's.
    InvalidVoterWeightRecordRealm,
    /// The weight record's governing token mint does not match the registrar's.
    InvalidVoterWeightRecordMint,
    /// The acting party is not the owner the weight record belongs to.
    InvalidTokenOwnerForVoterWeightRecord,
    /// The max weight record's realm does not match the registrar's.
    InvalidMaxVoterWeightRecordRealm,
    /// The max weight record's governing token mint does not match the
    /// registrar's.
    InvalidMaxVoterWeightRecordMint,
    /// The presented credential is missing, inactive, bound to another
    /// holder, or issued by the wrong network.
    InvalidGatewayToken,
    /// The registrar requires a predecessor record and none was supplied.
    MissingPredecessorVoterWeightRecord,
    /// The predecessor record was not produced by the configured
    /// predecessor plugin program.
    InvalidPredecessorProgramId,
    /// The predecessor record's realm does not match the registrar's.
    InvalidPredecessorVoterWeightRecordRealm,
    /// The predecessor record's governing token mint does not match the
    /// registrar's.
    InvalidPredecessorVoterWeightRecordGovTokenMint,
    /// The predecessor record belongs to a different token owner.
    InvalidPredecessorVoterWeightRecordGovTokenOwner,
    /// An action ordinal read from an external record is out of range for
    /// the engine's action enumeration.
    InvalidVoterWeightAction,
    /// Cast-vote weight must go through the accumulation path, never
    /// through the general update path.
    CastVoteIsNotAllowed,
    /// Accumulation or the transform produced a weight outside the weight
    /// type's range.
    ArithmeticOverflow,
}

/// The coarse classes of the taxonomy: enough for a caller to tell "fix your
/// credential" from "fix your configuration" from "this is a bug".
#[derive(Clone, Copy, Debug, PartialEq, Eq, Structural)]
pub enum ErrorClass {
    /// Mismatched realm, mint, network or predecessor identity; never
    /// retried.
    Configuration,
    /// The credential was rejected; retryable once a valid credential is
    /// obtained.
    Authorization,
    /// Overflow or a non-representable transform output; a programming or
    /// configuration bug, not a transient condition.
    Arithmetic,
    /// The operation was addressed to the wrong update path.
    ActionScoping,
}

/// The class each error falls in.
pub open spec fn spec_error_class(e: EngineError) -> ErrorClass {
    match e {
        EngineError::InvalidGatewayToken => ErrorClass::Authorization,
        EngineError::ArithmeticOverflow => ErrorClass::Arithmetic,
        EngineError::CastVoteIsNotAllowed => ErrorClass::ActionScoping,
        _ => ErrorClass::Configuration,
    }
}

impl EngineError {
    /// The coarse class this error falls in.
    pub fn class(&self) -> (r: ErrorClass)
        ensures
            r == spec_error_class(*self),
    {
        match self {
            EngineError::InvalidGatewayToken => ErrorClass::Authorization,
            EngineError::ArithmeticOverflow => ErrorClass::Arithmetic,
            EngineError::CastVoteIsNotAllowed => ErrorClass::ActionScoping,
            _ => ErrorClass::Configuration,
        }
    }
}

} // verus!
