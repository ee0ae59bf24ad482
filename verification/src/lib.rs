//! A voter-weight engine for governance voting.
//!
//! The engine computes a voter's weight for a governance action, gated by an
//! external credential, and publishes it through versioned, expiry-bound,
//! action-scoped weight records that a host governance engine reads before it
//! accepts the action.  A weight is either derived from the voter's raw token
//! deposit or copied from a predecessor plugin's record (one-hop chaining),
//! optionally passed through a quadratic transform, and — on the cast-vote
//! path — accumulated across repeated calls against the same proposal.
//!
//! The host runtime (account validation, persistence, the credential service
//! and the governance engine itself) stays outside: every operation here is a
//! synchronous function over already-resolved plain values.

pub mod action;
pub mod credential;
pub mod error;
pub mod max_record;
pub mod pubkey;
pub mod record;
pub mod registrar;
pub mod resolver;
pub mod transform;
pub mod update;
