use vstd::prelude::*;

verus! {

/// Everything that can end a session.
#[derive(Debug, Clone, PartialEq, Eq)]
pub enum KalmanError {
    /// The socket failed.
    Io,
    /// A datagram filled the receive buffer; the payload is its length.
    MessageTooLong(usize),
    /// A datagram was not valid UTF-8.
    InvalidUtf8,
    /// A frame was malformed, of an unknown kind, or out of place.
    Parsing,
    /// The innovation covariance could not be inverted; the payload says why.
    Inversion(String),
}

} // verus!
