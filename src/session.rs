//! The chat session: from a wallet connection to a signed, stored credential,
//! then the composition of outgoing messages.
//!
//! Every completion of outside work comes back as a `Msg`; `Inputs::update`
//! moves the session to its next state and returns, as data, the outside work
//! to start next (`Effect`). Nothing here waits or performs I/O.

use vstd::prelude::*;
use crate::content::{ContentId, PeerId};
use crate::credential::{ChatId, SignedMessage, identity_payload, signing_payload_of};
use crate::error::ClientError;
use crate::message::{ChatMessage, chat_message_bytes};

verus! {

/// Key under which the identifier of the stored credential is kept on the device.
pub const SIGN_MSG_KEY: &'static str = "signed_message";

/// Relies on `str::ends_with` with a `char` pattern.
#[verifier::external_body]
fn ends_with_char(s: &str, c: char) -> (r: bool)
    ensures
        r == (s@.len() > 0 && s@.last() == c),
{
    s.ends_with(c)
}

/// Where the session stands in the credential protocol.
#[derive(PartialEq, Eq, Structural)]
pub enum SessionState {
    /// Waiting for the wallet to give an address and the node its identity.
    AwaitingWallet,
    /// The address is known; the user picks a display name.
    AwaitingName,
    /// The identity was handed to the wallet for signing.
    AwaitingSignature,
    /// A verified credential is stored; messages can be sent.
    Ready,
}

/// An event that the session reacts to: user input, or the result of outside work.
pub enum Msg {
    /// The text being composed changed.
    SetText(String),
    /// The user asked to send the text.
    Enter,
    /// The user asked to connect the wallet.
    Connect,
    /// The node reported its identity.
    PeerID(Result<PeerId, ClientError>),
    /// The wallet gave an account address.
    Account(Result<[u8; 20], ClientError>),
    /// The reverse lookup of the address gave a name.
    AccountName(Result<String, ClientError>),
    /// The display name being edited changed.
    SetName(String),
    /// The user submitted the display name.
    SubmitName,
    /// The wallet signed the identity payload.
    Signed(Result<[u8; 65], ClientError>),
    /// The signed credential was stored under this identifier.
    Minted(Result<ContentId, ClientError>),
    /// The credential of an earlier session was fetched.
    Recover(Result<SignedMessage, ClientError>),
}

/// Outside work that the session asks its driver to start.
pub enum Effect {
    /// Ask the wallet for its accounts; answer with `Msg::Account`.
    RequestAccounts,
    /// Ask the node for its identity; answer with `Msg::PeerID`.
    RequestPeerId,
    /// Look up a name for the address; answer with `Msg::AccountName`.
    ReverseResolve([u8; 20]),
    /// Ask the wallet to sign the payload as a personal message; answer with `Msg::Signed`.
    Sign { address: [u8; 20], payload: Vec<u8> },
    /// Store the credential as a node; answer with `Msg::Minted`.
    PutCredential(SignedMessage),
    /// Fetch the credential stored at this identifier; answer with `Msg::Recover`.
    GetCredential(ContentId),
    /// Keep this identifier on the device under `SIGN_MSG_KEY`.
    StoreCredentialId(ContentId),
    /// Remove what the device keeps under `SIGN_MSG_KEY`.
    ForgetCredentialId,
    /// Publish these bytes on the chat topic.
    Publish(Vec<u8>),
}

/// What one step of the session returns.
pub struct Update {
    /// Whether what the session shows has changed.
    pub render: bool,
    /// Outside work to start, in order.
    pub effects: Vec<Effect>,
}

/// The state of one chat session. A ready session always has the identifier
/// of its credential (see `Inputs::wf`).
pub struct Inputs {
    pub state: SessionState,
    /// The text being composed.
    pub temp_msg: String,
    pub address: Option<[u8; 20]>,
    pub peer_id: Option<PeerId>,
    pub name: Option<String>,
    /// The identity handed to the wallet, kept until the signature comes back.
    pub sign_msg_content: Option<ChatId>,
    /// The identifier of the verified, stored credential.
    pub sign_msg_cid: Option<ContentId>,
    /// The identifier of an earlier credential being fetched and checked.
    pub recovering: Option<ContentId>,
}

impl Inputs {
    /// Messages can only be sent with a credential to refer to.
    pub open spec fn wf(&self) -> bool {
        self.state == SessionState::Ready ==> self.sign_msg_cid is Some
    }
}

/// Nothing to show again and nothing to start.
pub open spec fn quiet(u: Update) -> bool {
    !u.render && u.effects@.len() == 0
}

/// Something to show again, and nothing to start.
pub open spec fn shown(u: Update) -> bool {
    u.render && u.effects@.len() == 0
}

/// A fresh session: nothing known, and a fetch of the earlier credential if
/// the device keeps its identifier.
pub open spec fn created(stored: Option<ContentId>, s: Inputs, effects: Seq<Effect>) -> bool {
    &&& s.state == SessionState::AwaitingWallet
    &&& s.temp_msg@.len() == 0
    &&& s.address is None && s.peer_id is None && s.name is None
    &&& s.sign_msg_content is None && s.sign_msg_cid is None
    &&& match stored {
        Some(c) => {
            &&& s.recovering == Some(c)
            &&& effects.len() == 1
            &&& effects[0] matches Effect::GetCredential(g) && g@ == c@
        },
        None => s.recovering is None && effects.len() == 0,
    }
}

/// Sending: only a ready session with a stored credential publishes, and
/// the session itself never changes.
pub open spec fn send_step(o: Inputs, n: Inputs, u: Update) -> bool {
    &&& n == o
    &&& match (o.state, o.sign_msg_cid) {
        (SessionState::Ready, Some(c)) => match chat_message_bytes(o.temp_msg@, c@) {
            Some(b) => {
                &&& u.render
                &&& u.effects@.len() == 1
                &&& u.effects@[0] matches Effect::Publish(p) && p@ == b
            },
            None => quiet(u),
        },
        _ => quiet(u),
    }
}

/// The composed text changes; a text that ends with a newline is sent.
pub open spec fn chat_input_step(o: Inputs, n: Inputs, text: String, u: Update) -> bool {
    let typed = Inputs { temp_msg: text, ..o };
    if text@.len() > 0 && text@.last() == '\n' {
        send_step(typed, n, u)
    } else {
        n == typed && quiet(u)
    }
}

/// Connecting asks the wallet and the node at once, and changes nothing yet.
pub open spec fn connect_step(o: Inputs, n: Inputs, u: Update) -> bool {
    n == o && !u.render && u.effects@ == seq![Effect::RequestAccounts, Effect::RequestPeerId]
}

/// Any failure of outside work sends the session back to the wallet step.
pub open spec fn reverted(o: Inputs, n: Inputs, u: Update) -> bool {
    n == (Inputs { state: SessionState::AwaitingWallet, ..o }) && shown(u)
}

/// The peer identity is kept; with the address and the outcome of the name
/// lookup already in, the user is asked for a name.
pub open spec fn peer_id_step(o: Inputs, n: Inputs, res: Result<PeerId, ClientError>, u: Update) -> bool {
    match res {
        Ok(p) => {
            let ready_for_name = o.state == SessionState::AwaitingWallet && o.address is Some && o.name is Some;
            &&& n == (Inputs {
                peer_id: Some(p),
                state: if ready_for_name { SessionState::AwaitingName } else { o.state },
                ..o
            })
            &&& u.render == ready_for_name
            &&& u.effects@.len() == 0
        },
        Err(_) => reverted(o, n, u),
    }
}

/// The address is kept and a name is looked up for it.
pub open spec fn account_step(o: Inputs, n: Inputs, res: Result<[u8; 20], ClientError>, u: Update) -> bool {
    match res {
        Ok(a) => n == (Inputs { address: Some(a), ..o }) && !u.render
            && u.effects@ == seq![Effect::ReverseResolve(a)],
        Err(_) => reverted(o, n, u),
    }
}

/// The looked-up name becomes the proposed display name; a failed lookup
/// proposes an empty one. The user is asked for a name once the peer
/// identity is known too.
pub open spec fn account_name_step(o: Inputs, n: Inputs, res: Result<String, ClientError>, u: Update) -> bool {
    &&& n == (Inputs {
        name: n.name,
        state: if o.address is Some && o.peer_id is Some { SessionState::AwaitingName } else { o.state },
        ..o
    })
    &&& shown(u)
    &&& match res {
        Ok(s) => n.name == Some(s),
        Err(_) => n.name matches Some(s) && s@.len() == 0,
    }
}

/// Editing the name only changes the proposed name.
pub open spec fn name_input_step(o: Inputs, n: Inputs, name: String, u: Update) -> bool {
    n == (Inputs { name: Some(name), ..o }) && quiet(u)
}

/// Submitting the name hands `{peer_id, name}` to the wallet for signing, if
/// the name, the address and the peer identity are all known; otherwise
/// nothing happens.
pub open spec fn name_submit_step(o: Inputs, n: Inputs, u: Update) -> bool {
    match (o.name, o.address, o.peer_id) {
        (Some(name), Some(address), Some(peer)) => match identity_payload(peer@, name@) {
            Some(p) => {
                &&& n == (Inputs {
                    state: SessionState::AwaitingSignature,
                    name: None,
                    peer_id: None,
                    sign_msg_content: Some(ChatId { peer_id: peer, name: name }),
                    ..o
                })
                &&& u.render
                &&& u.effects@.len() == 1
                &&& u.effects@[0] matches Effect::Sign { address: a, payload: b } && a == address && b@ == p
            },
            None => reverted(o, n, u),
        },
        _ => n == o && quiet(u),
    }
}

/// A signature is trusted only once it recovers the address: then the
/// credential is stored. A wallet error or a signature that does not verify
/// discards the identity and sends the session back to the wallet step.
pub open spec fn signature_step(o: Inputs, n: Inputs, res: Result<[u8; 65], ClientError>, u: Update) -> bool {
    match res {
        Err(_) => n == (Inputs { state: SessionState::AwaitingWallet, sign_msg_content: None, ..o }) && shown(u),
        Ok(sig) => match (o.address, o.sign_msg_content) {
            (Some(address), Some(data)) => {
                let cred = SignedMessage { address: address, data: data, signature: sig };
                if cred.valid() {
                    n == (Inputs { address: None, sign_msg_content: None, ..o }) && !u.render
                        && u.effects@ == seq![Effect::PutCredential(cred)]
                } else {
                    n == (Inputs {
                        state: SessionState::AwaitingWallet,
                        address: None,
                        sign_msg_content: None,
                        ..o
                    }) && shown(u)
                }
            },
            _ => n == o && quiet(u),
        },
    }
}

/// Once stored, the credential's identifier is kept on the device and the
/// session is ready.
pub open spec fn minted_step(o: Inputs, n: Inputs, res: Result<ContentId, ClientError>, u: Update) -> bool {
    match res {
        Ok(c) => {
            &&& n == (Inputs { state: SessionState::Ready, sign_msg_cid: Some(c), ..o })
            &&& u.render
            &&& u.effects@.len() == 1
            &&& u.effects@[0] matches Effect::StoreCredentialId(k) && k@ == c@
        },
        Err(_) => reverted(o, n, u),
    }
}

/// An earlier credential makes the session ready without signing again, if
/// it verifies; otherwise its identifier is forgotten and the session starts
/// at the wallet step.
pub open spec fn recovered_step(o: Inputs, n: Inputs, res: Result<SignedMessage, ClientError>, u: Update) -> bool {
    match o.recovering {
        None => n == o && quiet(u),
        Some(c) => match res {
            Ok(m) if m.valid() => n == (Inputs {
                state: SessionState::Ready,
                sign_msg_cid: Some(c),
                recovering: None,
                ..o
            }) && shown(u),
            _ => n == (Inputs { state: SessionState::AwaitingWallet, recovering: None, ..o })
                && u.render && u.effects@ == seq![Effect::ForgetCredentialId],
        },
    }
}

/// One step of the session on any event.
pub open spec fn step(o: Inputs, n: Inputs, msg: Msg, u: Update) -> bool {
    match msg {
        Msg::SetText(text) => chat_input_step(o, n, text, u),
        Msg::Enter => send_step(o, n, u),
        Msg::Connect => connect_step(o, n, u),
        Msg::PeerID(res) => peer_id_step(o, n, res, u),
        Msg::Account(res) => account_step(o, n, res, u),
        Msg::AccountName(res) => account_name_step(o, n, res, u),
        Msg::SetName(name) => name_input_step(o, n, name, u),
        Msg::SubmitName => name_submit_step(o, n, u),
        Msg::Signed(res) => signature_step(o, n, res, u),
        Msg::Minted(res) => minted_step(o, n, res, u),
        Msg::Recover(res) => recovered_step(o, n, res, u),
    }
}

fn quiet_update() -> (u: Update)
    ensures
        quiet(u),
{
    Update { render: false, effects: Vec::new() }
}

fn shown_update() -> (u: Update)
    ensures
        shown(u),
{
    Update { render: true, effects: Vec::new() }
}

impl Inputs {
    /// Starts a session. `stored` is what the device keeps under `SIGN_MSG_KEY`.
    pub fn create(stored: Option<ContentId>) -> (r: (Inputs, Vec<Effect>))
        ensures
            created(stored, r.0, r.1@),
            r.0.wf(),
    {
        let mut effects: Vec<Effect> = Vec::new();
        let recovering = match stored {
            Some(c) => {
                effects.push(Effect::GetCredential(c.clone_id()));
                Some(c)
            },
            None => None,
        };
        let s = Inputs {
            state: SessionState::AwaitingWallet,
            temp_msg: String::new(),
            address: None,
            peer_id: None,
            name: None,
            sign_msg_content: None,
            sign_msg_cid: None,
            recovering,
        };
        (s, effects)
    }

    /// Handles one event.
    pub fn update(&mut self, msg: Msg) -> (u: Update)
        ensures
            step(*old(self), *final(self), msg, u),
            old(self).wf() ==> final(self).wf(),
    {
        match msg {
            Msg::SetText(text) => self.on_chat_input(text),
            Msg::Enter => self.send_message(),
            Msg::Connect => self.connect_account(),
            Msg::PeerID(res) => self.on_peer_id(res),
            Msg::Account(res) => self.on_account_connected(res),
            Msg::AccountName(res) => self.on_account_name(res),
            Msg::SetName(name) => self.on_name_input(name),
            Msg::SubmitName => self.on_name_submit(),
            Msg::Signed(res) => self.on_signature(res),
            Msg::Minted(res) => self.on_signed_msg_added(res),
            Msg::Recover(res) => self.on_signed_msg_recovered(res),
        }
    }

    /// Publishes the composed text, with a reference to the stored credential.
    pub fn send_message(&mut self) -> (u: Update)
        ensures
            send_step(*old(self), *final(self), u),
    {
        let cid = match (&self.state, &self.sign_msg_cid) {
            (SessionState::Ready, Some(c)) => c.clone_id(),
            _ => return quiet_update(),
        };
        let chat_msg = ChatMessage { text: self.temp_msg.clone(), signature: cid };
        match chat_msg.encode() {
            Some(bytes) => {
                let mut effects: Vec<Effect> = Vec::new();
                effects.push(Effect::Publish(bytes));
                Update { render: true, effects }
            },
            None => quiet_update(),
        }
    }

    /// Asks the wallet for an address and the node for its identity, together.
    pub fn connect_account(&self) -> (u: Update)
        ensures
            !u.render && u.effects@ == seq![Effect::RequestAccounts, Effect::RequestPeerId],
    {
        let mut effects: Vec<Effect> = Vec::new();
        effects.push(Effect::RequestAccounts);
        effects.push(Effect::RequestPeerId);
        Update { render: false, effects }
    }

    pub fn on_chat_input(&mut self, text: String) -> (u: Update)
        ensures
            chat_input_step(*old(self), *final(self), text, u),
    {
        let ends = ends_with_char(text.as_str(), '\n');
        self.temp_msg = text;
        if ends {
            self.send_message()
        } else {
            quiet_update()
        }
    }

    pub fn on_name_input(&mut self, name: String) -> (u: Update)
        ensures
            name_input_step(*old(self), *final(self), name, u),
    {
        self.name = Some(name);
        quiet_update()
    }

    pub fn on_peer_id(&mut self, res: Result<PeerId, ClientError>) -> (u: Update)
        ensures
            peer_id_step(*old(self), *final(self), res, u),
    {
        match res {
            Ok(p) => {
                let ready_for_name = self.state == SessionState::AwaitingWallet
                    && self.address.is_some() && self.name.is_some();
                self.peer_id = Some(p);
                if ready_for_name {
                    self.state = SessionState::AwaitingName;
                    shown_update()
                } else {
                    quiet_update()
                }
            },
            Err(_) => {
                self.state = SessionState::AwaitingWallet;
                shown_update()
            },
        }
    }

    /// The wallet gave an address: look up a name for it.
    pub fn on_account_connected(&mut self, res: Result<[u8; 20], ClientError>) -> (u: Update)
        ensures
            account_step(*old(self), *final(self), res, u),
    {
        match res {
            Ok(a) => {
                self.address = Some(a);
                let mut effects: Vec<Effect> = Vec::new();
                effects.push(Effect::ReverseResolve(a));
                Update { render: false, effects }
            },
            Err(_) => {
                self.state = SessionState::AwaitingWallet;
                shown_update()
            },
        }
    }

    /// The lookup of a name ended; a failure is no reason to stop.
    pub fn on_account_name(&mut self, res: Result<String, ClientError>) -> (u: Update)
        ensures
            account_name_step(*old(self), *final(self), res, u),
    {
        let name = match res {
            Ok(s) => s,
            Err(_) => String::new(),
        };
        self.name = Some(name);
        if self.address.is_some() && self.peer_id.is_some() {
            self.state = SessionState::AwaitingName;
        }
        shown_update()
    }

    /// The user submitted the name: hand the identity to the wallet.
    pub fn on_name_submit(&mut self) -> (u: Update)
        ensures
            name_submit_step(*old(self), *final(self), u),
    {
        let address = match self.address {
            Some(a) => a,
            None => return quiet_update(),
        };
        let payload = match (&self.peer_id, &self.name) {
            (Some(peer), Some(name)) => signing_payload_of(peer, name),
            _ => return quiet_update(),
        };
        let payload = match payload {
            Some(p) => p,
            None => {
                self.state = SessionState::AwaitingWallet;
                return shown_update();
            },
        };
        let name = match self.name.take() {
            Some(n) => n,
            None => return quiet_update(),
        };
        let peer_id = match self.peer_id.take() {
            Some(p) => p,
            None => return quiet_update(),
        };
        self.sign_msg_content = Some(ChatId { peer_id, name });
        self.state = SessionState::AwaitingSignature;
        let mut effects: Vec<Effect> = Vec::new();
        effects.push(Effect::Sign { address, payload });
        Update { render: true, effects }
    }

    /// The wallet answered: verify the signature before the credential is stored.
    pub fn on_signature(&mut self, res: Result<[u8; 65], ClientError>) -> (u: Update)
        ensures
            signature_step(*old(self), *final(self), res, u),
    {
        let signature = match res {
            Ok(sig) => sig,
            Err(_) => {
                self.sign_msg_content = None;
                self.state = SessionState::AwaitingWallet;
                return shown_update();
            },
        };
        if self.address.is_none() || self.sign_msg_content.is_none() {
            return quiet_update();
        }
        let address = match self.address.take() {
            Some(a) => a,
            None => return quiet_update(),
        };
        let data = match self.sign_msg_content.take() {
            Some(d) => d,
            None => return quiet_update(),
        };
        let signed_msg = SignedMessage { address, data, signature };
        if signed_msg.verify() {
            let mut effects: Vec<Effect> = Vec::new();
            effects.push(Effect::PutCredential(signed_msg));
            Update { render: false, effects }
        } else {
            self.state = SessionState::AwaitingWallet;
            shown_update()
        }
    }

    /// The credential was stored: keep its identifier and get ready to chat.
    pub fn on_signed_msg_added(&mut self, res: Result<ContentId, ClientError>) -> (u: Update)
        ensures
            minted_step(*old(self), *final(self), res, u),
    {
        match res {
            Ok(cid) => {
                let mut effects: Vec<Effect> = Vec::new();
                effects.push(Effect::StoreCredentialId(cid.clone_id()));
                self.sign_msg_cid = Some(cid);
                self.state = SessionState::Ready;
                Update { render: true, effects }
            },
            Err(_) => {
                self.state = SessionState::AwaitingWallet;
                shown_update()
            },
        }
    }

    /// The credential of an earlier session came back: trust it only if it verifies.
    pub fn on_signed_msg_recovered(&mut self, res: Result<SignedMessage, ClientError>) -> (u: Update)
        ensures
            recovered_step(*old(self), *final(self), res, u),
    {
        let cid = match self.recovering.take() {
            Some(c) => c,
            None => return quiet_update(),
        };
        let valid = match &res {
            Ok(m) => m.verify(),
            Err(_) => false,
        };
        if valid {
            self.sign_msg_cid = Some(cid);
            self.state = SessionState::Ready;
            shown_update()
        } else {
            self.state = SessionState::AwaitingWallet;
            let mut effects: Vec<Effect> = Vec::new();
            effects.push(Effect::ForgetCredentialId);
            Update { render: true, effects }
        }
    }
}

} // verus!

verus! {

/// Recovery asks for no signature: a session started from a stored
/// identifier whose credential verifies becomes ready under that identifier,
/// the same way in every session started from it, and a second answer to the
/// same fetch changes nothing.
pub proof fn recovery_idempotent(
    c: ContentId,
    m: SignedMessage,
    s1: Inputs,
    e1: Seq<Effect>,
    n1: Inputs,
    u1: Update,
    s2: Inputs,
    e2: Seq<Effect>,
    n2: Inputs,
    u2: Update,
    again: Inputs,
    u3: Update,
)
    requires
        m.valid(),
        created(Some(c), s1, e1),
        recovered_step(s1, n1, Ok(m), u1),
        created(Some(c), s2, e2),
        recovered_step(s2, n2, Ok(m), u2),
        recovered_step(n1, again, Ok(m), u3),
    ensures
        n1.state == SessionState::Ready,
        n1.sign_msg_cid == Some(c),
        n2.state == n1.state,
        n2.sign_msg_cid == n1.sign_msg_cid,
        forall|i: int| 0 <= i < e1.len() ==> !(e1[i] is Sign),
        forall|i: int| 0 <= i < u1.effects@.len() ==> !(u1.effects@[i] is Sign),
        again == n1,
        quiet(u3),
{
}

/// Every step keeps a ready session's credential identifier.
pub proof fn step_keeps_wf(o: Inputs, n: Inputs, msg: Msg, u: Update)
    requires
        o.wf(),
        step(o, n, msg, u),
    ensures
        n.wf(),
{
}

/// A stored identifier whose node does not decode, or decodes to a
/// credential that does not verify, is forgotten, and the session starts at
/// the wallet step.
pub proof fn corrupt_recovery_restarts(
    c: ContentId,
    s: Inputs,
    e: Seq<Effect>,
    res: Result<SignedMessage, ClientError>,
    n: Inputs,
    u: Update,
)
    requires
        created(Some(c), s, e),
        recovered_step(s, n, res, u),
        match res {
            Ok(m) => !m.valid(),
            Err(_) => true,
        },
    ensures
        n.state == SessionState::AwaitingWallet,
        n.recovering is None,
        n.sign_msg_cid is None,
        u.effects@ == seq![Effect::ForgetCredentialId],
{
}

} // verus!
