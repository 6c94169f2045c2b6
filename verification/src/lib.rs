//! Escrowed settlement of two-party wagers.
//!
//! Two parties lock equal stakes into a custodial balance bound to one match.
//! An outcome, admitted only with an attestation of the trusted authority, or
//! the match's deadline decides how the pot is split between the parties and
//! the platform. Every operation is a transition on plain values: the host
//! performs the transfers that a transition returns.
//!
//! - [`state`]: the match record and its custodial balance, with their
//!   invariant.
//! - [`lifecycle`]: creation and deposits.
//! - [`attestation`]: the canonical result message and the search for the
//!   artifact that backs it.
//! - [`submission`]: admission of an attested result.
//! - [`fees`]: the fee schedule and the split of a pot.
//! - [`settlement`]: the payout of an active match.
//! - [`refund`]: refunds after the deadline.
//! - [`store`]: all matches, each under its identifier.
//! - [`layout`]: the persisted form of a record.
//! - [`laws`]: what holds over the whole life of a match.

pub mod account;
pub mod attestation;
pub mod error;
pub mod fees;
pub mod laws;
pub mod layout;
pub mod lifecycle;
pub mod refund;
pub mod settlement;
pub mod state;
pub mod store;
pub mod submission;
