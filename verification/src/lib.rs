//! Anonymous elections that count no voter twice.
//!
//! An election goes through three phases. During registration, voters are
//! admitted on a zero-knowledge proof, and the admin publishes the root of
//! the set of admitted voters. During voting, a vote is counted on a proof
//! that its voter was admitted and has not voted yet. Once the election is
//! concluded, nothing changes it any more.
//!
//! `state` holds the election and what is true of it at all times,
//! `instructions` the operations, `zk` the check of a proof, and `protocol`
//! what holds of every sequence of operations.

pub mod error;
pub mod instructions;
pub mod protocol;
pub mod state;
pub mod zk;
