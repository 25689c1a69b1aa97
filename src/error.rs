use vstd::prelude::*;

verus! {

/// Error returned when a descriptor cannot be configured or connected.
#[derive(Debug, Clone, Copy, PartialEq, Eq, Structural)]
pub enum ConnectionError {
    /// The party id is not 1 or 2, or a transport is already installed.
    Configuration,
    /// A host or port string holds a NUL byte at the given position, so it
    /// cannot be handed to the native layer.
    Nul(usize),
    /// The native accept or connect call did not succeed, including running
    /// out of connection attempts.
    ConnectionFailed,
}

/// The text that describes each error.
pub open spec fn description_text(e: ConnectionError) -> Seq<char> {
    match e {
        ConnectionError::Configuration => "invalid protocol configuration"@,
        ConnectionError::Nul(_) => "address contains a nul byte"@,
        ConnectionError::ConnectionFailed => "connection attempt failed"@,
    }
}

impl ConnectionError {
    /// A short human readable description of the error.
    pub fn description(&self) -> (r: &'static str)
        ensures
            r@ == description_text(*self),
    {
        match self {
            ConnectionError::Configuration => "invalid protocol configuration",
            ConnectionError::Nul(_) => "address contains a nul byte",
            ConnectionError::ConnectionFailed => "connection attempt failed",
        }
    }
}

} // verus!
