//! The failure taxonomy shared by every endpoint.

use vstd::prelude::*;

verus! {

/// Everything that can go wrong between issuing a request and handing
/// back a typed payload.
#[derive(Debug, Clone, PartialEq, Eq)]
pub enum ProxerError {
    /// The session could not be established (TLS or client setup failed).
    Connect(String),
    /// A single request failed at the network level.
    Transport(String),
    /// The response body was not valid JSON or did not match the
    /// expected shape; carries the parse diagnostic.
    Decode(String),
    /// The remote service reported a logical failure through the
    /// envelope's `error` field.
    Api { code: u64, message: String },
    /// The envelope carried a success code but no payload: a protocol
    /// violation on the remote side.
    MissingData,
}

} // verus!
