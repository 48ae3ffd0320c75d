//! Decisions of an MC session: which requests an operation sends, and what
//! its responses mean.

pub mod bits;
pub mod random_access;
pub mod reads;
pub mod state;
pub mod writes;

pub use state::{SessionConfig, SessionEvent, SessionLifecycleState};
