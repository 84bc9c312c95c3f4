//! A fungible-asset ledger with administrator-gated issuance, per-account
//! freeze controls and a multi-party approval workflow for privileged
//! operations.
//!
//! The ledger is a plain value, [`Token`]. Every operation is a method that
//! either commits all of its effects or returns a [`TokenError`] and leaves
//! the ledger as it was; what it commits is given by the operation of the
//! same name on the abstract state, [`model::TokenView`].
//!
//! Authentication, the sequence counter, persistence and the publication of
//! events belong to the host. An operation that changes the ledger takes the
//! identity that the host has authenticated for the invocation and refuses a
//! caller that is not the one it requires. The current sequence number
//! comes in as an argument where an expiration is checked. The notifications
//! of committed changes wait in the ledger until the host collects them with
//! [`Token::take_events`]. [`Token::restore`] builds a ledger from what the
//! host has persisted.

pub mod error;
pub mod model;
pub mod token;
pub mod accounts;
pub mod multisig;
pub mod stored;
pub mod laws;

pub use crate::error::TokenError;
pub use crate::model::{Address, AllowanceValue, Event, MultiSigTransaction, Operation};
pub use crate::stored::StoredLedger;
pub use crate::token::{allowance_key, allowance_pair, check_nonnegative_amount, Proposal, Token};
