//! Link session: counters and timers, the decisions of a connection, and what
//! callers may request of it, commands among it.

pub mod commands;
pub mod duties;
pub mod link;
pub mod requests;
pub mod run;
pub mod state;

pub use self::link::{Priority, Request};
pub use self::requests::Session;
pub use self::state::{
    ApplicationState, ApplicationStateCell, SessionConfig, SessionEvent, SessionLifecycleState,
    SessionState,
};
