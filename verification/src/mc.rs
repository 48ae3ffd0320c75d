//! Mitsubishi MC protocol driver.

pub mod asked;
pub mod codec;
pub mod collect;
pub mod connector;
pub mod converter;
pub mod driver;
pub mod factory;
pub mod gathered;
pub mod handle;
pub mod metadata;
pub mod protocol;
pub mod told;
pub mod types;
pub mod values;
