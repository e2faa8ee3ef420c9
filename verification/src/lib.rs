//! A two-party escrow agreement: a client and a freelancer commit to an
//! amount that is released once both have approved completion, or handed
//! back to the client who cancels before that.
//!
//! The crate holds the agreement's state machine (`record`), the keyed
//! record store with its creation counter (`store`), the four operations
//! that guard the store by authorization and state (`service`), and what
//! holds of them on every store and request (`laws`).

pub mod record;
pub mod store;
pub mod service;
pub mod laws;

pub use record::{EscrowDetails, EscrowError, EscrowRecord};
pub use store::{AgreementStore, EscrowBook, StoreState};
pub use service::{FreelancerEscrow, LIFETIME_TARGET, LIFETIME_THRESHOLD};
