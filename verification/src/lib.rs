//! A token-gated poll: a creator fixes a question and a set of options, and
//! any principal holding a positive balance of a designated fungible token
//! may cast exactly one vote for one option.
//!
//! The crate owns the poll state machine and its two transitions,
//! [`poll::create_poll`] and [`poll::vote`], together with the invariants
//! that rule out double voting, out-of-range selections and records that
//! outgrow their fixed-capacity layout. Resolving a caller's token balance
//! and persisting the record are left to the host: the balance reaches
//! [`poll::vote`] as a plain number already looked up by the caller's
//! environment.

pub mod ids;
pub mod laws;
pub mod model;
pub mod poll;
