//! A single-event ticket-sale ledger.
//!
//! An organizer configures an event once (price, supply, sale deadline);
//! buyers then purchase tickets one at a time against a shared,
//! monotonically-adjusting price and a shrinking supply counter.  The
//! ledger is a deterministic state machine over a persistent key-value
//! store; the host environment that serializes invocations, supplies the
//! clock and checks caller signatures hands this crate plain values.

pub mod laws;
pub mod ledger;
pub mod model;
