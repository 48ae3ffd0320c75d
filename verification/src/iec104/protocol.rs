//! IEC 60870-5-104 protocol: frames, link session and client settings.

pub mod client;
pub mod codec;
pub mod error;
pub mod frame;
pub mod session;
pub mod stream;

pub use self::client::{Client, ClientBuilder};
pub use self::error::Error;
pub use self::frame::asdu::{Asdu, Cause, CauseOfTransmission, TypeID};
pub use self::frame::cproc::{
    BitsString32CommandInfo, DoubleCommandInfo, SetPointCommandFloatInfo,
    SetPointCommandNormalInfo, SetPointCommandScaledInfo, SingleCommandInfo, StepCommandInfo,
};
pub use self::session::{Session, SessionConfig, SessionEvent, SessionLifecycleState};
