//! The inbound side of a topic: each line of the subscription stream becomes
//! an event, an error, or the end of the stream; a cancelled subscription
//! delivers nothing more.

use vstd::prelude::*;
use crate::content::{BASE64_PAD_CODE, PeerId, multibase_decode, multibase_decoded, peer_id_from_key_bytes, peer_text_of_key};
use crate::error::{ClientError, StoreError};

verus! {

/// One delivery on a topic: who sent it, and the bytes sent.
pub struct StreamEvent {
    pub sender: PeerId,
    pub data: Vec<u8>,
}

/// What a delivery record `{from, data}` decodes to: the sender's identity
/// written as a peer identity, and the payload. `None` where a field does not decode.
pub open spec fn delivery_of(from: Seq<char>, data: Seq<char>) -> Option<(Seq<char>, Seq<u8>)> {
    match (multibase_decoded(BASE64_PAD_CODE, from), multibase_decoded(BASE64_PAD_CODE, data)) {
        (Some(key), Some(payload)) => match peer_text_of_key(key) {
            Some(sender) => Some((sender, payload)),
            None => None,
        },
        _ => None,
    }
}

/// Decodes the two base64 fields of a delivery record.
pub fn decode_delivery(from: &str, data: &str) -> (r: Result<StreamEvent, ClientError>)
    ensures
        match r {
            Ok(e) => delivery_of(from@, data@) == Some((e.sender@, e.data@)),
            Err(err) => delivery_of(from@, data@) is None && err is Decoding,
        },
{
    let key = match multibase_decode(BASE64_PAD_CODE, from) {
        Some(k) => k,
        None => return Err(ClientError::Decoding),
    };
    let payload = match multibase_decode(BASE64_PAD_CODE, data) {
        Some(p) => p,
        None => return Err(ClientError::Decoding),
    };
    match peer_id_from_key_bytes(key.as_slice()) {
        Some(sender) => Ok(StreamEvent { sender, data: payload }),
        None => Err(ClientError::Decoding),
    }
}

/// One line of the stream, read as the delivery shape if it has it, else as
/// the error shape, else neither.
pub enum Record {
    Delivery { from: String, data: String },
    Failure(StoreError),
    Malformed,
}

/// Reads a stream line by its shape, the delivery shape first: `delivery` and
/// `failure` are the line read as each shape, where it has that shape.
pub fn classify_record(delivery: Option<(String, String)>, failure: Option<StoreError>) -> (r: Record)
    ensures
        match (delivery, failure) {
            (Some((from, data)), _) => r == (Record::Delivery { from: from, data: data }),
            (None, Some(e)) => r == Record::Failure(e),
            (None, None) => r is Malformed,
        },
{
    match delivery {
        Some((from, data)) => Record::Delivery { from, data },
        None => match failure {
            Some(e) => Record::Failure(e),
            None => Record::Malformed,
        },
    }
}

/// The state of one subscription.
pub struct Subscription {
    /// The owner of the subscription gave it up.
    pub cancelled: bool,
    /// The stream ended on an error.
    pub ended: bool,
}

/// What a subscription hands to its consumer for one line.
pub open spec fn record_outcome(s: Subscription, rec: Record, r: Option<Result<StreamEvent, ClientError>>) -> bool {
    if s.cancelled || s.ended {
        r is None
    } else {
        match rec {
            Record::Delivery { from, data } => match delivery_of(from@, data@) {
                Some((sender, payload)) => r matches Some(Ok(e)) && e.sender@ == sender && e.data@ == payload,
                None => r matches Some(Err(e)) && e is Decoding,
            },
            Record::Failure(e) => r == Some(Err::<StreamEvent, ClientError>(ClientError::Store(e))),
            Record::Malformed => r matches Some(Err(e)) && e is ProtocolDecode,
        }
    }
}

/// Whether a subscription still hands events on.
pub open spec fn delivers(s: Subscription) -> bool {
    !s.cancelled && !s.ended
}

/// Whether a line ends the stream: it has no known shape, or is a delivery
/// whose fields do not decode.
pub open spec fn ends_stream(rec: Record) -> bool {
    match rec {
        Record::Delivery { from, data } => delivery_of(from@, data@) is None,
        Record::Failure(_) => false,
        Record::Malformed => true,
    }
}

/// The subscription after one line.
pub open spec fn next_sub(s: Subscription, rec: Record) -> Subscription {
    Subscription { cancelled: s.cancelled, ended: s.ended || (delivers(s) && ends_stream(rec)) }
}

/// How a line changes the subscription.
pub open spec fn record_step(s: Subscription, rec: Record, n: Subscription) -> bool {
    n == next_sub(s, rec)
}

/// The subscription after a sequence of lines.
pub open spec fn after_lines(s: Subscription, recs: Seq<Record>) -> Subscription
    decreases recs.len(),
{
    if recs.len() == 0 {
        s
    } else {
        next_sub(after_lines(s, recs.drop_last()), recs.last())
    }
}

impl Subscription {
    pub fn new() -> (r: Subscription)
        ensures
            delivers(r),
    {
        Subscription { cancelled: false, ended: false }
    }

    /// Whether events are still handed on.
    pub fn is_open(&self) -> (r: bool)
        ensures
            r == delivers(*self),
    {
        !self.cancelled && !self.ended
    }

    /// The owner gives the subscription up; the connection may be released.
    pub fn cancel(&mut self)
        ensures
            final(self).cancelled,
            final(self).ended == old(self).ended,
    {
        self.cancelled = true;
    }

    /// The connection failed: the stream ends with a transport error, unless
    /// it had already been given up or had ended.
    pub fn on_disconnect(&mut self) -> (r: Option<Result<StreamEvent, ClientError>>)
        ensures
            final(self).cancelled == old(self).cancelled,
            final(self).ended == (old(self).ended || delivers(*old(self))),
            delivers(*old(self)) ==> (r matches Some(Err(e)) && e is Transport),
            !delivers(*old(self)) ==> r is None,
    {
        if self.cancelled || self.ended {
            None
        } else {
            self.ended = true;
            Some(Err(ClientError::Transport))
        }
    }

    /// Handles one line of the stream.
    pub fn on_record(&mut self, rec: Record) -> (r: Option<Result<StreamEvent, ClientError>>)
        ensures
            record_outcome(*old(self), rec, r),
            record_step(*old(self), rec, *final(self)),
    {
        if self.cancelled || self.ended {
            return None;
        }
        match rec {
            Record::Delivery { from, data } => match decode_delivery(from.as_str(), data.as_str()) {
                Ok(e) => Some(Ok(e)),
                Err(e) => {
                    self.ended = true;
                    Some(Err(e))
                },
            },
            Record::Failure(e) => Some(Err(ClientError::Store(e))),
            Record::Malformed => {
                self.ended = true;
                Some(Err(ClientError::ProtocolDecode))
            },
        }
    }
}

proof fn closed_stays_closed(s: Subscription, recs: Seq<Record>)
    requires
        !delivers(s),
    ensures
        !delivers(after_lines(s, recs)),
        s.cancelled ==> after_lines(s, recs).cancelled,
    decreases recs.len(),
{
    if recs.len() > 0 {
        closed_stays_closed(s, recs.drop_last());
    }
}

/// Once a subscription is cancelled, none of the lines that still arrive,
/// whatever they hold, yields an event.
pub proof fn cancelled_delivers_nothing(s: Subscription, recs: Seq<Record>)
    requires
        s.cancelled,
    ensures
        forall|i: int, r: Option<Result<StreamEvent, ClientError>>|
            0 <= i < recs.len() && #[trigger] record_outcome(after_lines(s, recs.take(i)), recs[i], r)
                ==> r is None,
{
    assert forall|i: int, r: Option<Result<StreamEvent, ClientError>>|
        0 <= i < recs.len() && #[trigger] record_outcome(after_lines(s, recs.take(i)), recs[i], r)
            implies r is None by {
        closed_stays_closed(s, recs.take(i));
    }
}

/// A line of neither known shape ends the stream with a decode error, and
/// none of the lines after it yields anything.
pub proof fn malformed_ends_stream(s: Subscription, r: Option<Result<StreamEvent, ClientError>>, later: Seq<Record>)
    requires
        delivers(s),
        record_outcome(s, Record::Malformed, r),
    ensures
        r matches Some(Err(e)) && e is ProtocolDecode,
        forall|i: int, q: Option<Result<StreamEvent, ClientError>>|
            0 <= i < later.len()
                && #[trigger] record_outcome(after_lines(next_sub(s, Record::Malformed), later.take(i)), later[i], q)
                ==> q is None,
{
    let n = next_sub(s, Record::Malformed);
    assert forall|i: int, q: Option<Result<StreamEvent, ClientError>>|
        0 <= i < later.len()
            && #[trigger] record_outcome(after_lines(n, later.take(i)), later[i], q)
            implies q is None by {
        closed_stays_closed(n, later.take(i));
    }
}

} // verus!
