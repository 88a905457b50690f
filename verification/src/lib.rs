//! Core of a distributed HTTP load tester: result accounting, the state of
//! tests, users and endpoints, the master's division of users among workers,
//! the worker's handling of control messages, and the log buffer.
//!
//! Everything here is plain data and verified decision logic; network,
//! timers, files and the async runtime stay with the caller, which holds
//! these values behind its own locks.

pub mod accounting;
pub mod assoc;
pub mod endpoint;
pub mod endpoint_results;
pub mod logger;
pub mod master;
mod random;
pub mod results;
pub mod status;
pub mod text;
pub mod user;
pub mod worker;

pub use endpoint::{EndPoint, Method};
pub use endpoint_results::EndPointResults;
pub use logger::{LogType, Logger};
pub use master::{ControlWebSocketMessage, ResultsWebsocketMessage, State};
pub use results::{Measurement, Results, SentResults};
pub use status::Status;
pub use test::{Test, TestData};
pub use user::{User, UserBehaviour};
pub use worker::Worker;
