//! The signed chat credential: its canonical payload, the envelope that a
//! wallet signs, and the check that the signature recovers the claimed address.

use vstd::prelude::*;
use crate::content::ContentId;

verus! {

/// What `serde_json::to_vec` yields for a string: its JSON literal, quotes included.
pub uninterp spec fn json_text_of(s: Seq<char>) -> Option<Seq<u8>>;

/// The Keccak-256 digest of the bytes.
pub uninterp spec fn keccak256_of(b: Seq<u8>) -> Seq<u8>;

/// The address whose key made the compact signature over the digest.
pub uninterp spec fn recovered_of(digest: Seq<u8>, signature: Seq<u8>, recovery_id: i32) -> Option<Seq<u8>>;

/// Relies on `serde_json::to_vec` on a `&str`: the quoted, escaped literal.
#[verifier::external_body]
pub(crate) fn json_text(s: &str) -> (r: Option<Vec<u8>>)
    ensures
        match r {
            Some(b) => json_text_of(s@) == Some(b@),
            None => json_text_of(s@) is None,
        },
{
    serde_json::to_vec(s).ok()
}

/// Relies on `web3::signing::keccak256`.
#[verifier::external_body]
fn keccak256(b: &[u8]) -> (r: [u8; 32])
    ensures
        r@ == keccak256_of(b@),
{
    web3::signing::keccak256(b)
}

/// Relies on `web3::signing::recover`, which refuses a recovery id outside
/// `0..=3`, a signature that is not 64 bytes and a digest that is not 32.
#[verifier::external_body]
fn recover(digest: &[u8], signature: &[u8], recovery_id: i32) -> (r: Option<[u8; 20]>)
    ensures
        match r {
            Some(a) => recovered_of(digest@, signature@, recovery_id) == Some(a@),
            None => recovered_of(digest@, signature@, recovery_id) is None,
        },
        (recovery_id < 0 || recovery_id > 3 || signature@.len() != 64 || digest@.len() != 32)
            ==> r is None,
{
    match web3::signing::recover(digest, signature, recovery_id) {
        Ok(a) => Some(a.to_fixed_bytes()),
        Err(_) => None,
    }
}

/// The signable unit: a peer identity and the name its owner chose.
pub struct ChatId {
    pub peer_id: ContentId,
    pub name: String,
}

/// A chat identity signed by a wallet address.
pub struct SignedMessage {
    pub address: [u8; 20],
    pub data: ChatId,
    pub signature: [u8; 65],
}

/// `{"peer_id":`
pub open spec fn peer_key() -> Seq<u8> {
    seq![123u8, 34, 112, 101, 101, 114, 95, 105, 100, 34, 58]
}

/// `,"name":`
pub open spec fn name_key() -> Seq<u8> {
    seq![44u8, 34, 110, 97, 109, 101, 34, 58]
}

/// The canonical encoding of a chat identity: `{"peer_id":<peer>,"name":<name>}`.
pub open spec fn identity_payload(peer: Seq<char>, name: Seq<char>) -> Option<Seq<u8>> {
    match (json_text_of(peer), json_text_of(name)) {
        (Some(p), Some(n)) => Some(peer_key() + p + name_key() + n + seq![125u8]),
        _ => None,
    }
}

/// Decimal digits of `n` in ASCII, most significant first.
pub open spec fn decimal(n: nat) -> Seq<u8>
    decreases n,
{
    if n < 10 {
        seq![(48 + n) as u8]
    } else {
        decimal(n / 10) + seq![(48 + n % 10) as u8]
    }
}

/// `"\x19Ethereum Signed Message:\n"`, the prefix of a personal message.
pub open spec fn personal_prefix() -> Seq<u8> {
    seq![0x19u8, 69, 116, 104, 101, 114, 101, 117, 109, 32,
        83, 105, 103, 110, 101, 100, 32,
        77, 101, 115, 115, 97, 103, 101, 58, 10]
}

/// The bytes a wallet hashes when asked to sign `m` as a personal message.
pub open spec fn personal_message(m: Seq<u8>) -> Seq<u8> {
    personal_prefix() + decimal(m.len()) + m
}

/// The signature recovers `address` over the personal message `payload`.
/// The last byte of the signature is the recovery id plus 27.
pub open spec fn signature_matches(address: Seq<u8>, payload: Seq<u8>, signature: Seq<u8>) -> bool {
    signature.len() == 65
        && recovered_of(
            keccak256_of(personal_message(payload)),
            signature.subrange(0, 64),
            (signature[64] - 27) as i32,
        ) == Some(address)
}

/// A credential is valid when its payload encodes and its signature recovers
/// its address over that payload.
pub open spec fn credential_valid(address: Seq<u8>, peer: Seq<char>, name: Seq<char>, signature: Seq<u8>) -> bool {
    match identity_payload(peer, name) {
        Some(p) => signature_matches(address, p, signature),
        None => false,
    }
}

pub(crate) fn push_all(out: &mut Vec<u8>, src: &[u8])
    ensures
        final(out)@ == old(out)@ + src@,
{
    let mut i: usize = 0;
    while i < src.len()
        invariant
            i <= src@.len(),
            out@ == old(out)@ + src@.subrange(0, i as int),
        decreases src@.len() - i,
    {
        out.push(src[i]);
        i = i + 1;
        assert(src@.subrange(0, i as int) == src@.subrange(0, i - 1) + seq![src@[i - 1]]);
    }
    assert(src@.subrange(0, src@.len() as int) == src@);
}

fn push_decimal(out: &mut Vec<u8>, n: usize)
    ensures
        final(out)@ == old(out)@ + decimal(n as nat),
    decreases n,
{
    if n < 10 {
        out.push(48 + n as u8);
    } else {
        push_decimal(out, n / 10);
        out.push(48 + (n % 10) as u8);
    }
}

/// Encodes `{peer_id, name}` as the bytes a wallet is asked to sign.
pub fn signing_payload_of(peer: &ContentId, name: &String) -> (r: Option<Vec<u8>>)
    ensures
        match r {
            Some(b) => identity_payload(peer@, name@) == Some(b@),
            None => identity_payload(peer@, name@) is None,
        },
{
    let peer = match json_text(peer.as_str()) {
        Some(p) => p,
        None => return None,
    };
    let name = match json_text(name.as_str()) {
        Some(n) => n,
        None => return None,
    };
    let mut out: Vec<u8> = vec![123u8, 34, 112, 101, 101, 114, 95, 105, 100, 34, 58];
    push_all(&mut out, peer.as_slice());
    push_all(&mut out, &[44u8, 34, 110, 97, 109, 101, 34, 58]);
    push_all(&mut out, name.as_slice());
    out.push(125);
    assert(out@ == peer_key() + peer@ + name_key() + name@ + seq![125u8]);
    Some(out)
}

impl ChatId {
    /// Encodes the identity as the bytes a wallet is asked to sign.
    pub fn signing_payload(&self) -> (r: Option<Vec<u8>>)
        ensures
            match r {
                Some(b) => identity_payload(self.peer_id@, self.name@) == Some(b@),
                None => identity_payload(self.peer_id@, self.name@) is None,
            },
    {
        signing_payload_of(&self.peer_id, &self.name)
    }
}

/// Builds the personal message that a wallet hashes and signs for `payload`.
pub fn personal_message_of(payload: &[u8]) -> (r: Vec<u8>)
    ensures
        r@ == personal_message(payload@),
{
    let mut out: Vec<u8> = vec![0x19u8, 69, 116, 104, 101, 114, 101, 117, 109, 32,
        83, 105, 103, 110, 101, 100, 32,
        77, 101, 115, 115, 97, 103, 101, 58, 10];
    push_decimal(&mut out, payload.len());
    push_all(&mut out, payload);
    out
}

/// Checks that `signature` recovers `address` over the personal message `payload`.
pub fn signature_verifies(address: &[u8; 20], payload: &[u8], signature: &[u8; 65]) -> (r: bool)
    ensures
        r == signature_matches(address@, payload@, signature@),
{
    let message = personal_message_of(payload);
    let digest = keccak256(message.as_slice());
    let mut compact: Vec<u8> = Vec::new();
    push_all(&mut compact, &signature[0..64]);
    let recovery_id: i32 = signature[64] as i32 - 27;
    match recover(digest.as_slice(), compact.as_slice(), recovery_id) {
        Some(a) => {
            let mut same = true;
            let mut i: usize = 0;
            while i < 20
                invariant
                    i <= 20,
                    same == (forall|j: int| 0 <= j < i ==> a@[j] == address@[j]),
                decreases 20 - i,
            {
                same = same && a[i] == address[i];
                i = i + 1;
            }
            assert(same ==> a@ == address@);
            same
        },
        None => false,
    }
}

impl SignedMessage {
    /// A view of the credential's validity, over its fields.
    pub open spec fn valid(&self) -> bool {
        credential_valid(self.address@, self.data.peer_id@, self.data.name@, self.signature@)
    }

    /// Checks the credential without any network access: the payload is
    /// encoded canonically and the signature must recover the address.
    pub fn verify(&self) -> (r: bool)
        ensures
            r == self.valid(),
    {
        match self.data.signing_payload() {
            Some(p) => signature_verifies(&self.address, p.as_slice(), &self.signature),
            None => false,
        }
    }
}

} // verus!

verus! {

/// A credential verifies exactly when its signature recovers its own address
/// over the personal message of its canonical payload: a signature that the
/// address's key made over that payload verifies, and any signature or
/// payload from which another address is recovered does not.
pub proof fn credential_integrity(address: Seq<u8>, peer: Seq<char>, name: Seq<char>, signature: Seq<u8>, payload: Seq<u8>)
    requires
        identity_payload(peer, name) == Some(payload),
        signature.len() == 65,
    ensures
        credential_valid(address, peer, name, signature) <==> recovered_of(
            keccak256_of(personal_message(payload)),
            signature.subrange(0, 64),
            (signature[64] - 27) as i32,
        ) == Some(address),
{
}

} // verus!
