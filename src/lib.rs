//! Supervision of a download worker process: decoding of its embedded progress
//! protocol, fan-in of the events of its two output channels, and the terminal
//! outcome of a session.

pub mod event;
pub mod codec;
pub mod drainer;
pub mod aggregator;
pub mod session;
pub mod notify;
pub mod worker;
