//! IEC 60870-5-104 driver.

pub mod collected;
pub mod connector;
pub mod converter;
pub mod driver;
pub mod extract;
pub mod known;
pub mod metadata;
pub mod points;
pub mod protocol;
pub mod session;
pub mod settings;
pub mod supervisor;
pub mod told;
pub mod types;
pub mod written;
