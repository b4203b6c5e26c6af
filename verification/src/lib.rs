//! Connection establishment and graceful-shutdown coordination.
//!
//! The crate models the two state machines at the heart of an HTTP
//! client/server stack: a concurrent TCP dialer that races address
//! families per RFC 6555 (Happy Eyeballs), and a drain barrier that
//! notifies in-flight connection tasks of shutdown exactly once while
//! a supervisor awaits their completion.
//!
//! All I/O (resolving, dialing, timers, channels) happens outside the
//! library: a driver performs each directive the machines emit and
//! feeds the observed outcome back as an event. Every decision the
//! machines make is verified.

pub mod addr;
pub mod connect;
pub mod dialer;
pub mod drain;
pub mod error;
pub mod eyeballs;
pub mod ip;
pub mod server;

pub use addr::AddressList;
pub use addr::HostIp;
pub use addr::SockAddr;
pub use connect::Destination;
pub use connect::HttpConnecting;
pub use connect::HttpConnector;
pub use connect::HttpInfo;
pub use dialer::SequentialDialer;
pub use error::ConnectError;
pub use eyeballs::HappyEyeballs;
pub use server::Builder;
pub use server::Server;
