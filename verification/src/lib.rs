//! The decision core of a network-attached relay controller.
//!
//! A small device joins a wireless network, listens on TCP port 80, and
//! switches one digital output on request, reporting its state on demand.
//! This crate holds everything about that device that is pure decision:
//! how a received buffer is matched against the recognized request lines,
//! how the relay state changes, which canned response goes out and in what
//! wire form, and in which order the per-connection steps may happen. The
//! caller supplies the outside work — radio, sockets, timers — and reports
//! each outcome to [`Controller`], which walks the fixed phase order:
//! join, wait for an address, then accept, read, respond, and close, one
//! connection at a time, until a failed or empty read ends the service.

pub mod controller;
pub mod dispatch;
pub mod relay;
pub mod response;
pub mod text;
pub mod wire;

pub use controller::Controller;
pub use controller::Phase;
pub use controller::ReadOutcome;
pub use dispatch::classify;
pub use dispatch::dispatch;
pub use dispatch::RequestKind;
pub use relay::RelayState;
pub use response::Response;
