//! The message router: publish and request as small state machines.
//!
//! Each operation follows the per-call sequence look-up, resolve, operate.
//! The look-up and every decision are verified here; the two backend calls
//! (queue enumeration, then one send or one receive) are performed by the
//! embedding process, which drives a machine by performing the call its
//! current state asks for and handing the outcome to the next step. A
//! backend failure arrives as that call's own rendering of the error.

use vstd::prelude::*;

use crate::errors::{BackendOp, MessagingError};
use crate::messages::{PubMessage, ReplyMessage, reply_subject};
use crate::resolver;
use crate::resolver::selected_queue;

verus! {

/// One publish operation in flight.
pub enum PublishState {
    /// The embedding process must enumerate the connection's queues and hand
    /// the outcome to `publish_on_queues`.
    ListingQueues { actor_id: String, client: aws_sdk_sqs::Client, body: Vec<u8> },
    /// The embedding process must send `body` to `queue_url` over `client`
    /// and hand the outcome to `publish_on_sent`.
    Sending { actor_id: String, client: aws_sdk_sqs::Client, queue_url: String, body: Vec<u8> },
    /// The operation is over; no further backend call belongs to it.
    Done { result: Result<(), MessagingError> },
}

/// One request operation in flight.
pub enum RequestState {
    /// The embedding process must enumerate the connection's queues and hand
    /// the outcome to `request_on_queues`.
    ListingQueues { actor_id: String, client: aws_sdk_sqs::Client },
    /// The embedding process must issue one receive against `queue_url` over
    /// `client` and hand the received bodies to `request_on_received`.
    Receiving { actor_id: String, client: aws_sdk_sqs::Client, queue_url: String },
    /// The operation is over; no further backend call belongs to it.
    Done { result: Result<ReplyMessage, MessagingError> },
}

/// How a publish operation starts from the registry's current mapping: the
/// actor's connection is looked up, and a missing entry ends the operation
/// with `NoConnection` before any backend call.
pub open spec fn publish_start_spec(
    links: Map<Seq<char>, aws_sdk_sqs::Client>,
    actor_id: String,
    msg: PubMessage,
) -> PublishState {
    if links.contains_key(actor_id@) {
        PublishState::ListingQueues { actor_id, client: links[actor_id@], body: msg.body }
    } else {
        PublishState::Done { result: Err(MessagingError::NoConnection { actor_id }) }
    }
}

/// How the queue-enumeration outcome advances a publish operation: an empty
/// enumeration ends it with `NoQueueAvailable`, a failure ends it with the
/// wrapped backend error, and otherwise the first listed queue is selected.
pub open spec fn publish_queues_spec(
    s: PublishState,
    queues: Result<Vec<String>, String>,
) -> PublishState {
    match s {
        PublishState::ListingQueues { actor_id, client, body } => match queues {
            Ok(urls) => if urls@.len() == 0 {
                PublishState::Done { result: Err(MessagingError::NoQueueAvailable) }
            } else {
                PublishState::Sending {
                    actor_id,
                    client,
                    queue_url: selected_queue(urls@),
                    body,
                }
            },
            Err(detail) => PublishState::Done {
                result: Err(
                    MessagingError::BackendError { op: BackendOp::ListQueues, actor_id, detail },
                ),
            },
        },
        _ => s,
    }
}

/// How the send outcome finishes a publish operation: success once the
/// backend acknowledged the send, else the wrapped backend error.
pub open spec fn publish_sent_spec(s: PublishState, outcome: Result<(), String>) -> PublishState {
    match s {
        PublishState::Sending { actor_id, .. } => match outcome {
            Ok(_) => PublishState::Done { result: Ok(()) },
            Err(detail) => PublishState::Done {
                result: Err(
                    MessagingError::BackendError { op: BackendOp::SendMessage, actor_id, detail },
                ),
            },
        },
        _ => s,
    }
}

/// Advances a publish operation with the queue-enumeration outcome. States
/// other than `ListingQueues` are not waiting for this event and are
/// returned unchanged.
pub fn publish_on_queues(s: PublishState, queues: Result<Vec<String>, String>) -> (r: PublishState)
    ensures
        r == publish_queues_spec(s, queues),
{
    match s {
        PublishState::ListingQueues { actor_id, client, body } => match queues {
            Ok(urls) => match resolver::resolve_queue(&urls) {
                Ok(queue_url) => PublishState::Sending { actor_id, client, queue_url, body },
                Err(e) => PublishState::Done { result: Err(e) },
            },
            Err(detail) => PublishState::Done {
                result: Err(
                    MessagingError::BackendError { op: BackendOp::ListQueues, actor_id, detail },
                ),
            },
        },
        other => other,
    }
}

/// Finishes a publish operation with the send outcome. States other than
/// `Sending` are not waiting for this event and are returned unchanged.
pub fn publish_on_sent(s: PublishState, outcome: Result<(), String>) -> (r: PublishState)
    ensures
        r == publish_sent_spec(s, outcome),
{
    match s {
        PublishState::Sending { actor_id, client: _, queue_url: _, body: _ } => match outcome {
            Ok(_) => PublishState::Done { result: Ok(()) },
            Err(detail) => PublishState::Done {
                result: Err(
                    MessagingError::BackendError { op: BackendOp::SendMessage, actor_id, detail },
                ),
            },
        },
        other => other,
    }
}

/// How a request operation starts from the registry's current mapping:
/// exactly as a publish does.
pub open spec fn request_start_spec(
    links: Map<Seq<char>, aws_sdk_sqs::Client>,
    actor_id: String,
) -> RequestState {
    if links.contains_key(actor_id@) {
        RequestState::ListingQueues { actor_id, client: links[actor_id@] }
    } else {
        RequestState::Done { result: Err(MessagingError::NoConnection { actor_id }) }
    }
}

/// How the queue-enumeration outcome advances a request operation.
pub open spec fn request_queues_spec(
    s: RequestState,
    queues: Result<Vec<String>, String>,
) -> RequestState {
    match s {
        RequestState::ListingQueues { actor_id, client } => match queues {
            Ok(urls) => if urls@.len() == 0 {
                RequestState::Done { result: Err(MessagingError::NoQueueAvailable) }
            } else {
                RequestState::Receiving { actor_id, client, queue_url: selected_queue(urls@) }
            },
            Err(detail) => RequestState::Done {
                result: Err(
                    MessagingError::BackendError { op: BackendOp::ListQueues, actor_id, detail },
                ),
            },
        },
        _ => s,
    }
}

/// How the receive outcome finishes a request operation: zero received
/// messages are the failure `NoMessageAvailable`, never an empty reply; one
/// received body becomes a reply with the fixed subject and no reply-to,
/// since the blind poll correlates with no particular request.
pub open spec fn request_received_rel(
    s: RequestState,
    outcome: Result<Vec<Vec<u8>>, String>,
    r: RequestState,
) -> bool {
    match s {
        RequestState::Receiving { actor_id, .. } => match outcome {
            Ok(bodies) => if bodies@.len() == 0 {
                r == RequestState::Done { result: Err(MessagingError::NoMessageAvailable) }
            } else {
                r matches RequestState::Done { result: Ok(reply) } && reply.subject@
                    == reply_subject() && reply.body == bodies@[0] && reply.reply_to is None
            },
            Err(detail) => r == RequestState::Done {
                result: Err(
                    MessagingError::BackendError {
                        op: BackendOp::ReceiveMessage,
                        actor_id,
                        detail,
                    },
                ),
            },
        },
        _ => r == s,
    }
}

/// Advances a request operation with the queue-enumeration outcome. States
/// other than `ListingQueues` are not waiting for this event and are
/// returned unchanged.
pub fn request_on_queues(s: RequestState, queues: Result<Vec<String>, String>) -> (r: RequestState)
    ensures
        r == request_queues_spec(s, queues),
{
    match s {
        RequestState::ListingQueues { actor_id, client } => match queues {
            Ok(urls) => match resolver::resolve_queue(&urls) {
                Ok(queue_url) => RequestState::Receiving { actor_id, client, queue_url },
                Err(e) => RequestState::Done { result: Err(e) },
            },
            Err(detail) => RequestState::Done {
                result: Err(
                    MessagingError::BackendError { op: BackendOp::ListQueues, actor_id, detail },
                ),
            },
        },
        other => other,
    }
}

/// Finishes a request operation with the receive outcome. States other than
/// `Receiving` are not waiting for this event and are returned unchanged.
pub fn request_on_received(
    s: RequestState,
    outcome: Result<Vec<Vec<u8>>, String>,
) -> (r: RequestState)
    ensures
        request_received_rel(s, outcome, r),
{
    match s {
        RequestState::Receiving { actor_id, client: _, queue_url: _ } => match outcome {
            Ok(mut bodies) => if bodies.is_empty() {
                RequestState::Done { result: Err(MessagingError::NoMessageAvailable) }
            } else {
                let body = bodies.remove(0);
                RequestState::Done {
                    result: Ok(
                        ReplyMessage { subject: "hello".to_owned(), reply_to: None, body },
                    ),
                }
            },
            Err(detail) => RequestState::Done {
                result: Err(
                    MessagingError::BackendError {
                        op: BackendOp::ReceiveMessage,
                        actor_id,
                        detail,
                    },
                ),
            },
        },
        other => other,
    }
}

/// Queue resolution failure, publish side: when the backend's enumeration
/// comes back empty, the operation ends with `NoQueueAvailable` and never
/// reaches the sending state, so no send call is issued for it.
pub proof fn lemma_publish_no_queue(s: PublishState, queues: Result<Vec<String>, String>)
    requires
        s is ListingQueues,
        queues matches Ok(urls) && urls@.len() == 0,
    ensures
        publish_queues_spec(s, queues) == (PublishState::Done {
            result: Err(MessagingError::NoQueueAvailable),
        }),
        !(publish_queues_spec(s, queues) is Sending),
{
}

/// Queue resolution failure, request side: when the backend's enumeration
/// comes back empty, the operation ends with `NoQueueAvailable` and never
/// reaches the receiving state, so no receive call is issued for it.
pub proof fn lemma_request_no_queue(s: RequestState, queues: Result<Vec<String>, String>)
    requires
        s is ListingQueues,
        queues matches Ok(urls) && urls@.len() == 0,
    ensures
        request_queues_spec(s, queues) == (RequestState::Done {
            result: Err(MessagingError::NoQueueAvailable),
        }),
        !(request_queues_spec(s, queues) is Receiving),
{
}

/// Missing connection, publish side: a publish started for an actor with no
/// registry entry fails with `NoConnection` and asks for no backend call.
pub proof fn lemma_publish_no_connection(
    links: Map<Seq<char>, aws_sdk_sqs::Client>,
    actor_id: String,
    msg: PubMessage,
)
    requires
        !links.contains_key(actor_id@),
    ensures
        publish_start_spec(links, actor_id, msg) == (PublishState::Done {
            result: Err(MessagingError::NoConnection { actor_id }),
        }),
{
}

/// Missing connection, request side: a request started for an actor with no
/// registry entry fails with `NoConnection` and asks for no backend call.
pub proof fn lemma_request_no_connection(
    links: Map<Seq<char>, aws_sdk_sqs::Client>,
    actor_id: String,
)
    requires
        !links.contains_key(actor_id@),
    ensures
        request_start_spec(links, actor_id) == (RequestState::Done {
            result: Err(MessagingError::NoConnection { actor_id }),
        }),
{
}

/// Request with no messages: a receive that returns zero messages ends the
/// request with `NoMessageAvailable`; no reply — in particular none with an
/// empty payload — is produced.
pub proof fn lemma_request_no_message(
    s: RequestState,
    outcome: Result<Vec<Vec<u8>>, String>,
    r: RequestState,
)
    requires
        s is Receiving,
        outcome matches Ok(bodies) && bodies@.len() == 0,
        request_received_rel(s, outcome, r),
    ensures
        r == (RequestState::Done { result: Err(MessagingError::NoMessageAvailable) }),
{
}

} // verus!
