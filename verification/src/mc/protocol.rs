//! MC protocol stack: frame structures, codec functions, session decisions
//! and batch planning.

pub mod answers;
pub mod codec;
pub mod error;
pub mod frame;
pub mod grouping;
pub mod memory;
pub mod merge;
pub mod order;
pub mod planner;
pub mod planning;
pub mod plans;
pub mod random;
pub mod session;
pub mod types;
