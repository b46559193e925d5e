//! Real-time relay core of a small chat service: session authentication,
//! room membership, the process-wide broadcast relay and the per-connection
//! state machine.

pub mod token;
pub mod relay;
pub mod records;
pub mod auth;
pub mod directory;
pub mod msg;
pub mod channel;
pub mod conn;
pub mod clock;
pub mod api;
pub mod login;
