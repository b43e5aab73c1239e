//! The chat message published on a topic: a text and a reference to the
//! sender's stored credential.

use vstd::prelude::*;
use crate::content::ContentId;
use crate::credential::{json_text, json_text_of, push_all};

verus! {

/// `{"message":{"Text":`
pub open spec fn text_key() -> Seq<u8> {
    seq![123u8, 34, 109, 101, 115, 115, 97, 103, 101, 34, 58, 123, 34, 84, 101, 120, 116, 34, 58]
}

/// `},"signature":{"/":`
pub open spec fn link_key() -> Seq<u8> {
    seq![125u8, 44, 34, 115, 105, 103, 110, 97, 116, 117, 114, 101, 34, 58, 123, 34, 47, 34, 58]
}

/// The wire form of a text message that refers to the credential `cid`:
/// `{"message":{"Text":<text>},"signature":{"/":<cid>}}`.
pub open spec fn chat_message_bytes(text: Seq<char>, cid: Seq<char>) -> Option<Seq<u8>> {
    match (json_text_of(text), json_text_of(cid)) {
        (Some(t), Some(c)) => Some(text_key() + t + link_key() + c + seq![125u8, 125]),
        _ => None,
    }
}

/// A text message and the identifier of its sender's credential.
pub struct ChatMessage {
    pub text: String,
    pub signature: ContentId,
}

impl ChatMessage {
    /// Encodes the message for publishing; `None` where a field cannot be encoded.
    pub fn encode(&self) -> (r: Option<Vec<u8>>)
        ensures
            match r {
                Some(b) => chat_message_bytes(self.text@, self.signature@) == Some(b@),
                None => chat_message_bytes(self.text@, self.signature@) is None,
            },
    {
        let text = match json_text(self.text.as_str()) {
            Some(t) => t,
            None => return None,
        };
        let cid = match json_text(self.signature.as_str()) {
            Some(c) => c,
            None => return None,
        };
        let mut out: Vec<u8> = vec![123u8, 34, 109, 101, 115, 115, 97, 103, 101, 34, 58, 123, 34, 84, 101, 120, 116, 34, 58];
        push_all(&mut out, text.as_slice());
        push_all(&mut out, &[125u8, 44, 34, 115, 105, 103, 110, 97, 116, 117, 114, 101, 34, 58, 123, 34, 47, 34, 58]);
        push_all(&mut out, cid.as_slice());
        out.push(125);
        out.push(125);
        assert(out@ == text_key() + text@ + link_key() + cid@ + seq![125u8, 125]);
        Some(out)
    }
}

} // verus!
