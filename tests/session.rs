use chat_identity::content::peer_id_from_str;
use chat_identity::credential::{personal_message_of, signing_payload_of};
use chat_identity::session::SIGN_MSG_KEY;
use chat_identity::{
    ChatId, ClientError, ContentId, Effect, Inputs, Msg, SessionState, SignedMessage,
};
use web3::signing::{keccak256, Key, SecretKeyRef};

const PEER: &str = "QmYwAPJzv5CZsnA625s3Xf2nemtYgPpHdWEz79ojWnPbdG";
const STORED: &str = "bafyreihvbmv7rgtqa5zlg4v2l7elbo5hwshrhzg5dfjphe54qdg2ay5s2i";

fn secret() -> secp256k1::SecretKey {
    secp256k1::SecretKey::from_slice(&[0x11u8; 32]).unwrap()
}

fn wallet_address() -> [u8; 20] {
    SecretKeyRef::new(&secret()).address().to_fixed_bytes()
}

fn wallet_sign(payload: &[u8]) -> [u8; 65] {
    let digest = keccak256(&personal_message_of(payload));
    let key = secret();
    let sig = SecretKeyRef::new(&key).sign(&digest, None).unwrap();
    let mut out = [0u8; 65];
    out[..32].copy_from_slice(sig.r.as_bytes());
    out[32..64].copy_from_slice(sig.s.as_bytes());
    out[64] = sig.v as u8;
    out
}

fn peer() -> ContentId {
    peer_id_from_str(PEER).unwrap()
}

fn valid_credential(name: &str) -> SignedMessage {
    let peer_id = peer();
    let name = name.to_string();
    let payload = signing_payload_of(&peer_id, &name).unwrap();
    let signature = wallet_sign(&payload);
    SignedMessage {
        address: wallet_address(),
        data: ChatId { peer_id, name },
        signature,
    }
}

fn ready_session() -> Inputs {
    let (mut s, _) = Inputs::create(Some(ContentId::parse(STORED).unwrap()));
    s.update(Msg::Recover(Ok(valid_credential("alice"))));
    assert!(s.state == SessionState::Ready);
    s
}

#[test]
fn fresh_session_reaches_ready() {
    let (mut s, effects) = Inputs::create(None);
    assert!(s.state == SessionState::AwaitingWallet);
    assert!(effects.is_empty());

    let u = s.update(Msg::Connect);
    assert_eq!(u.effects.len(), 2);
    assert!(matches!(u.effects[0], Effect::RequestAccounts));
    assert!(matches!(u.effects[1], Effect::RequestPeerId));

    let address = wallet_address();
    let u = s.update(Msg::Account(Ok(address)));
    assert!(matches!(u.effects.as_slice(), [Effect::ReverseResolve(a)] if *a == address));

    let u = s.update(Msg::PeerID(Ok(peer())));
    assert!(u.effects.is_empty());

    let u = s.update(Msg::AccountName(Err(ClientError::Transport)));
    assert!(u.render);
    assert!(s.state == SessionState::AwaitingName);
    assert_eq!(s.name.as_deref(), Some(""));

    s.update(Msg::SetName("alice".to_string()));
    let u = s.update(Msg::SubmitName);
    assert!(s.state == SessionState::AwaitingSignature);
    let payload = match u.effects.as_slice() {
        [Effect::Sign { address: a, payload }] => {
            assert_eq!(*a, address);
            payload.clone()
        }
        _ => panic!("expected one signing request"),
    };
    let expected = format!("{{\"peer_id\":\"{}\",\"name\":\"alice\"}}", peer().text);
    assert_eq!(payload, expected.into_bytes());

    let u = s.update(Msg::Signed(Ok(wallet_sign(&payload))));
    match u.effects.as_slice() {
        [Effect::PutCredential(c)] => {
            assert!(c.verify());
            assert_eq!(c.address, address);
            assert_eq!(c.data.name, "alice");
        }
        _ => panic!("expected the credential to be stored"),
    }

    let cid = ContentId::parse(STORED).unwrap();
    let u = s.update(Msg::Minted(Ok(cid)));
    assert!(matches!(u.effects.as_slice(), [Effect::StoreCredentialId(k)] if k.text == STORED));
    assert!(s.state == SessionState::Ready);
    assert_eq!(s.sign_msg_cid.as_ref().map(|c| c.text.as_str()), Some(STORED));
    assert_eq!(SIGN_MSG_KEY, "signed_message");
}

#[test]
fn send_refused_before_credential() {
    let (mut s, _) = Inputs::create(None);
    s.update(Msg::Account(Ok(wallet_address())));
    s.update(Msg::PeerID(Ok(peer())));
    s.update(Msg::AccountName(Ok("bob".to_string())));
    assert!(s.state == SessionState::AwaitingName);
    s.update(Msg::SetText("hello".to_string()));
    let u = s.update(Msg::Enter);
    assert!(!u.render);
    assert!(u.effects.is_empty());
    assert_eq!(s.temp_msg, "hello");
    let u = s.update(Msg::SetText("hello\n".to_string()));
    assert!(u.effects.is_empty());
    assert_eq!(s.temp_msg, "hello\n");
}

#[test]
fn tampered_recovered_credential_is_forgotten() {
    let (mut s, effects) = Inputs::create(Some(ContentId::parse(STORED).unwrap()));
    assert!(matches!(effects.as_slice(), [Effect::GetCredential(c)] if c.text == STORED));
    let mut cred = valid_credential("alice");
    cred.address[0] ^= 0xff;
    let u = s.update(Msg::Recover(Ok(cred)));
    assert!(matches!(u.effects.as_slice(), [Effect::ForgetCredentialId]));
    assert!(s.state == SessionState::AwaitingWallet);
    assert!(s.sign_msg_cid.is_none());
}

#[test]
fn undecodable_recovered_node_is_forgotten() {
    let (mut s, _) = Inputs::create(Some(ContentId::parse(STORED).unwrap()));
    let u = s.update(Msg::Recover(Err(ClientError::Decoding)));
    assert!(matches!(u.effects.as_slice(), [Effect::ForgetCredentialId]));
    assert!(s.state == SessionState::AwaitingWallet);
}

#[test]
fn recovery_twice_is_the_same_and_never_signs() {
    let first = ready_session();
    let second = ready_session();
    assert_eq!(first.sign_msg_cid.as_ref().unwrap().text, STORED);
    assert_eq!(second.sign_msg_cid.as_ref().unwrap().text, STORED);
    let mut s = first;
    let u = s.update(Msg::Recover(Ok(valid_credential("alice"))));
    assert!(!u.render);
    assert!(u.effects.is_empty());
    assert!(s.state == SessionState::Ready);
}

#[test]
fn ready_session_publishes_on_newline() {
    let mut s = ready_session();
    let u = s.update(Msg::SetText("hi".to_string()));
    assert!(u.effects.is_empty());
    let u = s.update(Msg::SetText("hi\n".to_string()));
    let expected = format!(
        "{{\"message\":{{\"Text\":\"hi\\n\"}},\"signature\":{{\"/\":\"{}\"}}}}",
        STORED
    );
    match u.effects.as_slice() {
        [Effect::Publish(bytes)] => assert_eq!(bytes.clone(), expected.into_bytes()),
        _ => panic!("expected one publish"),
    }
}

#[test]
fn wallet_error_reverts_to_connect() {
    let (mut s, _) = Inputs::create(None);
    s.update(Msg::AccountName(Ok(String::new())));
    let u = s.update(Msg::Account(Err(ClientError::Transport)));
    assert!(u.render);
    assert!(s.state == SessionState::AwaitingWallet);
    s.update(Msg::AccountName(Ok(String::new())));
    s.update(Msg::PeerID(Err(ClientError::Transport)));
    assert!(s.state == SessionState::AwaitingWallet);
}

#[test]
fn submit_without_peer_identity_does_nothing() {
    let (mut s, _) = Inputs::create(None);
    s.update(Msg::Account(Ok(wallet_address())));
    s.update(Msg::AccountName(Ok("carol".to_string())));
    assert!(s.state == SessionState::AwaitingWallet);
    let u = s.update(Msg::SubmitName);
    assert!(u.effects.is_empty());
    assert!(s.state == SessionState::AwaitingWallet);
    assert_eq!(s.name.as_deref(), Some("carol"));
}

#[test]
fn peer_identity_arriving_last_asks_for_name() {
    let (mut s, _) = Inputs::create(None);
    s.update(Msg::Account(Ok(wallet_address())));
    s.update(Msg::AccountName(Ok("frank".to_string())));
    assert!(s.state == SessionState::AwaitingWallet);
    let u = s.update(Msg::PeerID(Ok(peer())));
    assert!(u.render);
    assert!(s.state == SessionState::AwaitingName);
}

#[test]
fn signature_from_another_key_is_discarded() {
    let (mut s, _) = Inputs::create(None);
    s.update(Msg::Account(Ok([7u8; 20])));
    s.update(Msg::PeerID(Ok(peer())));
    s.update(Msg::AccountName(Ok("dave".to_string())));
    let u = s.update(Msg::SubmitName);
    let payload = match u.effects.as_slice() {
        [Effect::Sign { payload, .. }] => payload.clone(),
        _ => panic!("expected one signing request"),
    };
    let u = s.update(Msg::Signed(Ok(wallet_sign(&payload))));
    assert!(u.effects.is_empty());
    assert!(s.state == SessionState::AwaitingWallet);
    assert!(s.sign_msg_content.is_none());
}

#[test]
fn signer_error_discards_identity() {
    let (mut s, _) = Inputs::create(None);
    s.update(Msg::Account(Ok(wallet_address())));
    s.update(Msg::PeerID(Ok(peer())));
    s.update(Msg::AccountName(Ok("erin".to_string())));
    s.update(Msg::SubmitName);
    let u = s.update(Msg::Signed(Err(ClientError::Transport)));
    assert!(u.render);
    assert!(s.state == SessionState::AwaitingWallet);
    assert!(s.sign_msg_content.is_none());
}

#[test]
fn store_error_after_signing_reverts() {
    let mut s = ready_session();
    let u = s.update(Msg::Minted(Err(ClientError::Transport)));
    assert!(u.render);
    assert!(s.state == SessionState::AwaitingWallet);
}
