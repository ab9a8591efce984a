//! On-chain style governance for a DAO LLC: a membership registry with
//! compliance metadata, a proposal lifecycle under a per-organization
//! sequence counter, and a one-vote-per-voter-per-proposal tally.
//!
//! The external execution environment (signer authentication, durable record
//! storage, wall-clock time) is out of scope: callers authenticate identities,
//! supply timestamps, and persist the records this library produces. The
//! library itself is the validated state machine: every operation is a pure
//! function of pre-state and input with an all-or-nothing effect.

pub mod governance;
pub mod identity;
pub mod ledger;
pub mod membership;
