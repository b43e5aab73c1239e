//! The request side of the content-addressed store client: where requests go,
//! what they carry, and how the identifiers in its answers are read.

use vstd::prelude::*;
use crate::content::{ContentId, PeerId, cid_text_of, peer_id_from_str, peer_text_of_str};
use crate::error::ClientError;

verus! {

/// Address of the store's API when the device keeps none.
pub const DEFAULT_URI: &'static str = "http://127.0.0.1:5001/api/v0/";

/// The API address to use, and whether the default must be kept on the device
/// for the next session.
pub fn base_address(stored: Option<&str>) -> (r: (String, bool))
    ensures
        match stored {
            Some(s) => r.0@ == s@ && !r.1,
            None => r.0@ == DEFAULT_URI@ && r.1,
        },
{
    match stored {
        Some(s) => (String::from_str(s), false),
        None => (String::from_str(DEFAULT_URI), true),
    }
}

/// The argument of a node fetch: the identifier, followed by a path inside the node.
pub fn dag_get_origin(cid: &ContentId, path: Option<&str>) -> (r: String)
    ensures
        match path {
            Some(p) => r@ == cid@ + p@,
            None => r@ == cid@,
        },
{
    let mut origin = String::from_str(cid.as_str());
    if let Some(p) = path {
        origin.append(p);
    }
    origin
}

/// Reads the identifier that the store answered with (`{"Cid": {"/": ...}}`
/// after a put, `{"Path": ...}` after a name resolution).
pub fn cid_from_answer(text: &str) -> (r: Result<ContentId, ClientError>)
    ensures
        match r {
            Ok(c) => cid_text_of(text@) == Some(c@),
            Err(e) => cid_text_of(text@) is None && e is Decoding,
        },
{
    match ContentId::parse(text) {
        Some(c) => Ok(c),
        None => Err(ClientError::Decoding),
    }
}

/// Reads the identity that the node answered with (`{"ID": ...}`).
pub fn peer_from_answer(id: &str) -> (r: Result<PeerId, ClientError>)
    ensures
        match r {
            Ok(p) => peer_text_of_str(id@) == Some(p@),
            Err(e) => peer_text_of_str(id@) is None && e is Decoding,
        },
{
    match peer_id_from_str(id) {
        Some(p) => Ok(p),
        None => Err(ClientError::Decoding),
    }
}

} // verus!
