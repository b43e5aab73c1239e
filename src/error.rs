//! Failures of the store client, the stream and the credential protocol.

use vstd::prelude::*;

verus! {

/// An error reported by the store itself (`{"Message", "Code", "Type"}`).
#[derive(Debug)]
pub struct StoreError {
    pub message: String,
    pub code: u64,
    pub error_type: String,
}

/// What went wrong in one operation.
#[derive(Debug)]
pub enum ClientError {
    /// The network or the HTTP exchange failed.
    Transport,
    /// A value could not be encoded for the store or the signer.
    Encoding,
    /// A response did not have the expected shape or content.
    Decoding,
    /// A stream record matched none of the known shapes.
    ProtocolDecode,
    /// The store answered with an error record.
    Store(StoreError),
    /// A signature does not match the address it claims.
    Verification,
}

} // verus!
