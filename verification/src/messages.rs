//! The message values the provider carries between host and backend.

use vstd::prelude::*;

verus! {

/// An outbound message submitted by the caller to be published.
pub struct PubMessage {
    pub subject: String,
    pub reply_to: Option<String>,
    pub body: Vec<u8>,
}

/// An inbound request: the caller asks for one message from the queue.
pub struct RequestMessage {
    pub subject: String,
    pub body: Vec<u8>,
}

/// A reply built from one message received from the queue.
pub struct ReplyMessage {
    pub subject: String,
    pub reply_to: Option<String>,
    pub body: Vec<u8>,
}

/// The fixed subject every reply carries: the receive is a blind poll, so no
/// subject from the queue correlates with the original request.
pub open spec fn reply_subject() -> Seq<char> {
    "hello"@
}

} // verus!
