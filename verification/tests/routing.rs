//! The publish and request state machines and queue resolution.

use sqs_provider::config::{EnvSettings, LinkSettings};
use sqs_provider::errors::{BackendOp, MessagingError};
use sqs_provider::messages::{PubMessage, RequestMessage};
use sqs_provider::provider::SqsProvider;
use sqs_provider::resolver::resolve_queue;
use sqs_provider::router::{
    publish_on_queues, publish_on_sent, request_on_queues, request_on_received, PublishState,
    RequestState,
};

fn env_settings() -> EnvSettings {
    EnvSettings {
        region: Some("us-east-1".to_string()),
        access_key_id: Some("test-access-key".to_string()),
        secret_access_key: Some("test-secret".to_string()),
    }
}

fn linked_provider(actor: &str) -> SqsProvider {
    let mut p = SqsProvider::new();
    let link = LinkSettings::default();
    p.on_link_up(actor.to_string(), &link, &env_settings()).unwrap();
    p
}

fn start_publish(actor: &str, body: &[u8]) -> PublishState {
    let p = linked_provider(actor);
    let msg = PubMessage { subject: "subj".to_string(), reply_to: None, body: body.to_vec() };
    p.publish(actor.to_string(), msg)
}

fn start_request(actor: &str) -> RequestState {
    let p = linked_provider(actor);
    let msg = RequestMessage { subject: "subj".to_string(), body: Vec::new() };
    p.request(actor.to_string(), msg)
}

#[test]
fn resolve_queue_picks_first_listed() {
    let urls = vec!["https://queue/one".to_string(), "https://queue/two".to_string()];
    assert_eq!(resolve_queue(&urls).unwrap(), "https://queue/one");
}

#[test]
fn resolve_queue_fails_on_empty_enumeration() {
    let urls: Vec<String> = Vec::new();
    assert!(matches!(resolve_queue(&urls), Err(MessagingError::NoQueueAvailable)));
}

#[test]
fn publish_with_empty_enumeration_fails_without_send() {
    let s = start_publish("A", b"payload");
    assert!(matches!(s, PublishState::ListingQueues { .. }));
    let s = publish_on_queues(s, Ok(Vec::new()));
    assert!(!matches!(s, PublishState::Sending { .. }));
    assert!(matches!(
        s,
        PublishState::Done { result: Err(MessagingError::NoQueueAvailable) }
    ));
}

#[test]
fn request_with_empty_enumeration_fails_without_receive() {
    let s = start_request("A");
    assert!(matches!(s, RequestState::ListingQueues { .. }));
    let s = request_on_queues(s, Ok(Vec::new()));
    assert!(!matches!(s, RequestState::Receiving { .. }));
    assert!(matches!(
        s,
        RequestState::Done { result: Err(MessagingError::NoQueueAvailable) }
    ));
}

#[test]
fn publish_forwards_caller_body_to_first_queue() {
    let s = start_publish("A", b"the payload");
    let s = publish_on_queues(
        s,
        Ok(vec!["https://queue/one".to_string(), "https://queue/two".to_string()]),
    );
    match &s {
        PublishState::Sending { actor_id, queue_url, body, .. } => {
            assert_eq!(actor_id, "A");
            assert_eq!(queue_url, "https://queue/one");
            assert_eq!(body.as_slice(), b"the payload");
        }
        _ => panic!("a non-empty enumeration must lead to the sending state"),
    }
    let s = publish_on_sent(s, Ok(()));
    assert!(matches!(s, PublishState::Done { result: Ok(()) }));
}

#[test]
fn publish_wraps_enumeration_failure_with_context() {
    let s = start_publish("A", b"x");
    let s = publish_on_queues(s, Err("connection refused".to_string()));
    match s {
        PublishState::Done {
            result: Err(MessagingError::BackendError { op, actor_id, detail }),
        } => {
            assert_eq!(op, BackendOp::ListQueues);
            assert_eq!(actor_id, "A");
            assert_eq!(detail, "connection refused");
        }
        _ => panic!("an enumeration failure must surface as BackendError"),
    }
}

#[test]
fn publish_wraps_send_failure_with_context() {
    let s = start_publish("A", b"x");
    let s = publish_on_queues(s, Ok(vec!["https://queue/one".to_string()]));
    let s = publish_on_sent(s, Err("access denied".to_string()));
    match s {
        PublishState::Done {
            result: Err(MessagingError::BackendError { op, actor_id, detail }),
        } => {
            assert_eq!(op, BackendOp::SendMessage);
            assert_eq!(actor_id, "A");
            assert_eq!(detail, "access denied");
        }
        _ => panic!("a send failure must surface as BackendError"),
    }
}

#[test]
fn request_with_zero_messages_fails_not_empty_reply() {
    let s = start_request("A");
    let s = request_on_queues(s, Ok(vec!["https://queue/one".to_string()]));
    assert!(matches!(s, RequestState::Receiving { .. }));
    let s = request_on_received(s, Ok(Vec::new()));
    assert!(matches!(
        s,
        RequestState::Done { result: Err(MessagingError::NoMessageAvailable) }
    ));
}

#[test]
fn request_builds_reply_from_first_received_body() {
    let s = start_request("A");
    let s = request_on_queues(s, Ok(vec!["https://queue/one".to_string()]));
    let bodies = vec![b"first body".to_vec(), b"second body".to_vec()];
    let s = request_on_received(s, Ok(bodies));
    match s {
        RequestState::Done { result: Ok(reply) } => {
            assert_eq!(reply.subject, "hello");
            assert_eq!(reply.body.as_slice(), b"first body");
            assert!(reply.reply_to.is_none());
        }
        _ => panic!("a received message must become a reply"),
    }
}

#[test]
fn request_wraps_receive_failure_with_context() {
    let s = start_request("A");
    let s = request_on_queues(s, Ok(vec!["https://queue/one".to_string()]));
    let s = request_on_received(s, Err("timed out".to_string()));
    match s {
        RequestState::Done {
            result: Err(MessagingError::BackendError { op, actor_id, detail }),
        } => {
            assert_eq!(op, BackendOp::ReceiveMessage);
            assert_eq!(actor_id, "A");
            assert_eq!(detail, "timed out");
        }
        _ => panic!("a receive failure must surface as BackendError"),
    }
}

#[test]
fn steps_leave_foreign_states_unchanged() {
    let done = PublishState::Done { result: Err(MessagingError::NoQueueAvailable) };
    let done = publish_on_queues(done, Ok(vec!["https://queue/one".to_string()]));
    assert!(matches!(
        done,
        PublishState::Done { result: Err(MessagingError::NoQueueAvailable) }
    ));
    let done = publish_on_sent(done, Ok(()));
    assert!(matches!(
        done,
        PublishState::Done { result: Err(MessagingError::NoQueueAvailable) }
    ));
}
