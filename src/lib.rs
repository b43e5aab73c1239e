//! Identity and messaging protocol engine of a content-addressed chat client.
//!
//! The library holds the decisions of the protocol: which requests to make,
//! how a credential is framed and checked, how an inbound record becomes an
//! event, and how a chat session moves between its states. The network and
//! the wallet are driven by the caller, who hands the results back.

pub mod content;
pub mod credential;
pub mod error;
pub mod message;
pub mod pages;
pub mod pubsub;
pub mod session;
pub mod store;

pub use content::{ContentId, PeerId};
pub use credential::{ChatId, SignedMessage};
pub use error::{ClientError, StoreError};
pub use message::ChatMessage;
pub use pages::{Home, Start};
pub use pubsub::{Record, StreamEvent, Subscription};
pub use session::{Effect, Inputs, Msg, SessionState, Update};
