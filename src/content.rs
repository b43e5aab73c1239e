//! Content identifiers and peer identities, held in their canonical text form.

use vstd::prelude::*;

verus! {

/// What `Cid::try_from` followed by `to_string` yields for a text, if it parses.
pub uninterp spec fn cid_text_of(s: Seq<char>) -> Option<Seq<char>>;

/// What multibase decoding yields for the base with the given code.
pub uninterp spec fn multibase_decoded(code: char, s: Seq<char>) -> Option<Seq<u8>>;

/// The text of a version 1 identifier with the given codec over a multihash.
pub uninterp spec fn cid_v1_text_of(codec: u64, multihash: Seq<u8>) -> Option<Seq<char>>;

/// Codec of a libp2p public key, under which a peer identity is written.
pub const LIBP2P_KEY_CODEC: u64 = 0x70;

/// Multibase code of padded base64, in which the stream carries its fields.
pub const BASE64_PAD_CODE: char = 'M';

/// Multibase code of base58btc, in which a node writes its identity.
pub const BASE58_BTC_CODE: char = 'z';

/// Relies on `cid::Cid::try_from(&str)` to parse an identifier and on its
/// `Display` impl to write it back in canonical form.
#[verifier::external_body]
fn canonical_cid_text(s: &str) -> (r: Option<String>)
    ensures
        match r {
            Some(t) => cid_text_of(s@) == Some(t@),
            None => cid_text_of(s@) is None,
        },
{
    match cid::Cid::try_from(s) {
        Ok(c) => Some(c.to_string()),
        Err(_) => None,
    }
}

/// Relies on `multibase::Base::from_code` and `Base::decode` to decode a text
/// in the base named by its code.
#[verifier::external_body]
pub(crate) fn multibase_decode(code: char, s: &str) -> (r: Option<Vec<u8>>)
    ensures
        match r {
            Some(b) => multibase_decoded(code, s@) == Some(b@),
            None => multibase_decoded(code, s@) is None,
        },
{
    match cid::multibase::Base::from_code(code) {
        Ok(base) => base.decode(s).ok(),
        Err(_) => None,
    }
}

/// Relies on `multihash::MultihashGeneric::from_bytes` to read a multihash and
/// on `cid::Cid::new_v1` and its `Display` impl to write the identifier.
#[verifier::external_body]
fn cid_v1_text(codec: u64, multihash: &[u8]) -> (r: Option<String>)
    ensures
        match r {
            Some(t) => cid_v1_text_of(codec, multihash@) == Some(t@),
            None => cid_v1_text_of(codec, multihash@) is None,
        },
{
    match cid::multihash::MultihashGeneric::from_bytes(multihash) {
        Ok(mh) => Some(cid::Cid::new_v1(codec, mh).to_string()),
        Err(_) => None,
    }
}

/// An identifier of a node in the content-addressed store, or of a peer.
/// The text is always in the canonical form that the identifier library writes.
pub struct ContentId {
    pub text: String,
}

/// A peer identity is written as a content identifier over the peer's key.
pub type PeerId = ContentId;

impl ContentId {
    /// The canonical text of the identifier.
    pub open spec fn view(&self) -> Seq<char> {
        self.text@
    }

    /// Parses an identifier; `None` where the text is no identifier.
    pub fn parse(s: &str) -> (r: Option<ContentId>)
        ensures
            match r {
                Some(c) => cid_text_of(s@) == Some(c.view()),
                None => cid_text_of(s@) is None,
            },
    {
        match canonical_cid_text(s) {
            Some(text) => Some(ContentId { text }),
            None => None,
        }
    }

    /// The canonical text of the identifier.
    pub fn as_str(&self) -> (r: &str)
        ensures
            r@ == self.view(),
    {
        self.text.as_str()
    }

    pub fn clone_id(&self) -> (r: ContentId)
        ensures
            r.view() == self.view(),
    {
        ContentId { text: self.text.clone() }
    }
}

/// The peer identity whose multihash bytes are `key_hash`.
pub open spec fn peer_text_of_key(key_hash: Seq<u8>) -> Option<Seq<char>> {
    cid_v1_text_of(LIBP2P_KEY_CODEC, key_hash)
}

/// Writes the multihash of a peer's public key as a peer identity.
pub fn peer_id_from_key_bytes(key_hash: &[u8]) -> (r: Option<PeerId>)
    ensures
        match r {
            Some(p) => peer_text_of_key(key_hash@) == Some(p.view()),
            None => peer_text_of_key(key_hash@) is None,
        },
{
    match cid_v1_text(LIBP2P_KEY_CODEC, key_hash) {
        Some(text) => Some(ContentId { text }),
        None => None,
    }
}

/// The peer identity that a node's base58btc identity string stands for.
pub open spec fn peer_text_of_str(s: Seq<char>) -> Option<Seq<char>> {
    match multibase_decoded(BASE58_BTC_CODE, s) {
        Some(bytes) => peer_text_of_key(bytes),
        None => None,
    }
}

/// Reads the identity a node reports (base58btc multihash, as in `Qm...`).
pub fn peer_id_from_str(s: &str) -> (r: Option<PeerId>)
    ensures
        match r {
            Some(p) => peer_text_of_str(s@) == Some(p.view()),
            None => peer_text_of_str(s@) is None,
        },
{
    match multibase_decode(BASE58_BTC_CODE, s) {
        Some(bytes) => peer_id_from_key_bytes(bytes.as_slice()),
        None => None,
    }
}

} // verus!
