//! The flat transport error taxonomy.

use vstd::prelude::*;

verus! {

/// Errors specific to transport.
///
/// Every public operation of the crate reports failure through one of these
/// kinds; none of them is raised by panicking. Each kind carries a descriptive
/// cause string, except the timeout, which carries the configured wait in
/// milliseconds.
#[derive(Debug)]
pub enum TransportError {
    /// Error when sending (from the perspective of the local program).
    SendError(String),
    /// Error when receiving (from the perspective of the local program).
    ReceiveError(String),
    /// Error when establishing a connection.
    ConnectError(String),
    /// Error from a timeout after waiting the given number of milliseconds.
    ReceiveTimeout(u64),
    /// Error when serialising data.
    SerialiseError(String),
    /// Error when deserialising data.
    DeserialiseError(String),
}

#[verifier::external_type_specification]
#[verifier::external_body]
pub struct ExIoError(std::io::Error);

/// Relies on std's `Debug` formatting of `std::io::Error` for a
/// human-readable cause string; nothing is claimed of the text.
#[verifier::external_body]
fn io_error_text(e: &std::io::Error) -> String {
    format!("{:?}", e)
}

impl TransportError {
    /// Wrap an I/O failure seen while sending.
    pub fn io_send(e: std::io::Error) -> (r: Self)
        ensures
            r is SendError,
    {
        TransportError::SendError(io_error_text(&e))
    }

    /// Wrap an I/O failure seen while receiving.
    pub fn io_receive(e: std::io::Error) -> (r: Self)
        ensures
            r is ReceiveError,
    {
        TransportError::ReceiveError(io_error_text(&e))
    }
}

} // verus!
