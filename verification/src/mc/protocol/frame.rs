//! MC frame structures.

pub mod addr;
pub mod builder;
pub mod command;
pub mod device;
pub mod format;
pub mod header;
pub mod message;
pub mod pdu;
pub mod route;

pub use message::{McAppBody, McMessage};
