//! Transport and session lifecycle for two-party Yao protocols run by the
//! Obliv-C engine.
//!
//! The engine itself is reached through a fixed native interface that lives
//! outside this library. What is here, and proved, is everything that decides:
//! party assignment, which transport may be installed and when, the retry policy
//! for native connections, the checks that must pass before a protocol runs, and
//! the adapter that turns any duplex byte stream into a transport that never
//! reports a partial transfer as success.

pub mod address;
pub mod channel;
pub mod connect;
pub mod descriptor;
pub mod error;
pub mod memory;
pub mod transport;

pub use channel::{ByteChannel, Channel};
pub use connect::{Attempt, ConnectStep, Connecting};
pub use descriptor::{protocol_desc, Installed, PreconditionFailure, ProtocolDesc};
pub use error::ConnectionError;
pub use memory::MemoryStream;
pub use transport::{DuplexStream, StreamProtocolTransport};
