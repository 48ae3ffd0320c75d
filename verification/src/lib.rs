//! Verified core of the southward drivers of an industrial gateway:
//! the IEC 60870-5-104 link (`iec104`) and the Mitsubishi MC protocol (`mc`).

pub mod clock;
pub mod gateway;
pub mod iec104;
pub mod mc;
pub mod offered;
pub mod published;
pub mod schema;
pub mod text;
pub mod wire;
pub mod worded;
