//! The APDU (Application Protocol Data Unit) command and response codec.

pub mod command;
pub mod response;

pub use command::Command;
pub use response::Response;
pub use response::StatusOutcome;
