//! An authority-gated counter: a persisted record holding an owner
//! identity and a count confined to the closed range `[0, 1]`, mutated
//! only through the `create`, `increment` and `decrement` handlers.
//!
//! The surrounding environment (storage allocation, caller
//! authentication, transactional atomicity) is out of scope: the
//! handlers receive already-authenticated identities and an
//! already-allocated record slot, and only validate, mutate and report.

pub mod errors;
pub mod handlers;
pub mod laws;
pub mod state;

pub use errors::ErrorCode;
pub use handlers::{create, decrement, increment};
pub use state::{Counter, Create, Increment, Pubkey};
