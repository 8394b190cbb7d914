use vstd::prelude::*;
use vstd::string::*;

verus! {

/// Failures of ledger admission and of the network layer around the ledger.
#[derive(Debug, Clone, PartialEq, Eq)]
pub enum Error {
    /// The ledger holds no block yet.
    OutOfBounds,
    /// A link to the tip, or a recomputed digest, does not match.
    InvalidHash,
    /// A claimed hash lacks the difficulty prefix.
    InvalidPrefix,
    NetworkInfallible(String),
    NetworkMultiaddr(String),
    NetworkTransport(String),
    NetworkDial(String),
}

/// The text that describes an error.
pub open spec fn error_text(e: Error) -> Seq<char> {
    match e {
        Error::OutOfBounds => "OutOfBounds"@,
        Error::InvalidHash => "InvalidHash"@,
        Error::InvalidPrefix => "InvalidPrefix"@,
        Error::NetworkInfallible(s) => "Network Infallible Error: "@ + s@,
        Error::NetworkMultiaddr(s) => "Network Multiaddr Error: "@ + s@,
        Error::NetworkTransport(s) => "Network Transport Error: "@ + s@,
        Error::NetworkDial(s) => "Network Dial Error: "@ + s@,
    }
}

impl Error {
    /// A human-readable description of the error.
    pub fn message(&self) -> (r: String)
        ensures
            r@ == error_text(*self),
    {
        match self {
            Error::OutOfBounds => String::from_str("OutOfBounds"),
            Error::InvalidHash => String::from_str("InvalidHash"),
            Error::InvalidPrefix => String::from_str("InvalidPrefix"),
            Error::NetworkInfallible(s) => String::from_str("Network Infallible Error: ").concat(
                s.as_str(),
            ),
            Error::NetworkMultiaddr(s) => String::from_str("Network Multiaddr Error: ").concat(
                s.as_str(),
            ),
            Error::NetworkTransport(s) => String::from_str("Network Transport Error: ").concat(
                s.as_str(),
            ),
            Error::NetworkDial(s) => String::from_str("Network Dial Error: ").concat(s.as_str()),
        }
    }
}

} // verus!
