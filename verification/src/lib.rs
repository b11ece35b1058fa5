//! A token-distribution escrow protocol.
//!
//! An administrator opens a time-boxed round, outside parties fund a
//! transparent escrow, eligible participants register a claim ticket while
//! the round is open, and after the round is finalized each ticket holder
//! may withdraw an equal floor-divided share of whatever was deposited.
//!
//! The library holds the verified core: the round lifecycle state machine,
//! claim-ticket registration, and the distribution arithmetic. The host
//! environment (durable storage, the clock, and the asset-transfer
//! subsystem) stays outside and hands the core plain values.

pub mod state;
pub mod lifecycle;
pub mod tickets;
pub mod laws;

pub use state::{ClaimError, ClaimTicket, Round, RoundStatus};
pub use lifecycle::{close_round, finalize_round, init_round, open_round, record_funding};
pub use tickets::{claim, confirm_withdrawal, withdraw};
