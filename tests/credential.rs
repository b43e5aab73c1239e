use chat_identity::content::peer_id_from_str;
use chat_identity::credential::{personal_message_of, signing_payload_of};
use chat_identity::{ChatId, ChatMessage, ContentId, SignedMessage};
use web3::signing::{keccak256, Key, SecretKeyRef};

fn secret() -> secp256k1::SecretKey {
    secp256k1::SecretKey::from_slice(&[0x22u8; 32]).unwrap()
}

fn signed(name: &str) -> SignedMessage {
    let peer_id = peer_id_from_str("QmYwAPJzv5CZsnA625s3Xf2nemtYgPpHdWEz79ojWnPbdG").unwrap();
    let name = name.to_string();
    let payload = signing_payload_of(&peer_id, &name).unwrap();
    let digest = keccak256(&personal_message_of(&payload));
    let key = secret();
    let sig = SecretKeyRef::new(&key).sign(&digest, None).unwrap();
    let mut signature = [0u8; 65];
    signature[..32].copy_from_slice(sig.r.as_bytes());
    signature[32..64].copy_from_slice(sig.s.as_bytes());
    signature[64] = sig.v as u8;
    SignedMessage {
        address: SecretKeyRef::new(&key).address().to_fixed_bytes(),
        data: ChatId { peer_id, name },
        signature,
    }
}

#[test]
fn genuine_credential_verifies() {
    assert!(signed("alice").verify());
}

#[test]
fn flipped_signature_bit_fails() {
    for byte in [0usize, 31, 40, 63, 64] {
        let mut c = signed("alice");
        c.signature[byte] ^= 1;
        assert!(!c.verify(), "byte {}", byte);
    }
}

#[test]
fn flipped_payload_bit_fails() {
    let mut c = signed("alice");
    c.data.name = "alicf".to_string();
    assert!(!c.verify());
}

#[test]
fn zero_signature_fails() {
    let mut c = signed("alice");
    c.signature = [0u8; 65];
    assert!(!c.verify());
}

#[test]
fn personal_message_has_prefix_and_length() {
    let payload = vec![b'x'; 123];
    let m = personal_message_of(&payload);
    let mut expected = b"\x19Ethereum Signed Message:\n123".to_vec();
    expected.extend_from_slice(&payload);
    assert_eq!(m, expected);
    let short = personal_message_of(b"ab");
    assert_eq!(short, b"\x19Ethereum Signed Message:\n2ab".to_vec());
    let empty = personal_message_of(b"");
    assert_eq!(empty, b"\x19Ethereum Signed Message:\n0".to_vec());
}

#[test]
fn signing_payload_escapes_name() {
    let peer = ContentId::parse("bafyreihvbmv7rgtqa5zlg4v2l7elbo5hwshrhzg5dfjphe54qdg2ay5s2i").unwrap();
    let payload = signing_payload_of(&peer, &"a\"b".to_string()).unwrap();
    assert_eq!(
        String::from_utf8(payload).unwrap(),
        "{\"peer_id\":\"bafyreihvbmv7rgtqa5zlg4v2l7elbo5hwshrhzg5dfjphe54qdg2ay5s2i\",\"name\":\"a\\\"b\"}"
    );
}

#[test]
fn chat_message_frames_text_and_link() {
    let m = ChatMessage {
        text: "x".to_string(),
        signature: ContentId::parse("bafyreihvbmv7rgtqa5zlg4v2l7elbo5hwshrhzg5dfjphe54qdg2ay5s2i").unwrap(),
    };
    let bytes = m.encode().unwrap();
    assert_eq!(
        String::from_utf8(bytes).unwrap(),
        "{\"message\":{\"Text\":\"x\"},\"signature\":{\"/\":\"bafyreihvbmv7rgtqa5zlg4v2l7elbo5hwshrhzg5dfjphe54qdg2ay5s2i\"}}"
    );
}
