//! Link lifecycle, registry behaviour and configuration precedence.

use sqs_provider::config::{EnvSettings, LinkSettings, resolve_settings};
use sqs_provider::errors::MessagingError;
use sqs_provider::messages::{PubMessage, RequestMessage};
use sqs_provider::provider::SqsProvider;
use sqs_provider::registry::LinkRegistry;
use sqs_provider::router::{PublishState, RequestState};

fn env_settings() -> EnvSettings {
    EnvSettings {
        region: Some("us-east-1".to_string()),
        access_key_id: Some("test-access-key".to_string()),
        secret_access_key: Some("test-secret".to_string()),
    }
}

fn test_client() -> aws_sdk_sqs::Client {
    let credentials =
        aws_sdk_sqs::config::Credentials::new("test-access-key", "test-secret", None, None, "test");
    let conf = aws_sdk_sqs::Config::builder()
        .behavior_version_latest()
        .region(aws_sdk_sqs::config::Region::new("us-east-1"))
        .credentials_provider(credentials)
        .build();
    aws_sdk_sqs::Client::from_conf(conf)
}

fn pub_msg(body: &[u8]) -> PubMessage {
    PubMessage { subject: "subj".to_string(), reply_to: None, body: body.to_vec() }
}

#[test]
fn link_up_then_down_removes_entry() {
    let mut p = SqsProvider::new();
    let link = LinkSettings::default();
    let r = p.on_link_up("A".to_string(), &link, &env_settings());
    assert!(matches!(r, Ok(true)));
    assert!(p.get(&"A".to_string()).is_some());

    let removed = p.on_link_down(&"A".to_string());
    assert!(removed);
    assert!(p.get(&"A".to_string()).is_none());

    let s = p.publish("A".to_string(), pub_msg(b"x"));
    match s {
        PublishState::Done { result: Err(MessagingError::NoConnection { actor_id }) } => {
            assert_eq!(actor_id, "A");
        }
        _ => panic!("publish after link-down must fail with NoConnection"),
    }
}

#[test]
fn link_down_without_link_is_noop() {
    let mut p = SqsProvider::new();
    let removed = p.on_link_down(&"missing".to_string());
    assert!(!removed);
}

#[test]
fn publish_and_request_before_any_link_fail_with_no_connection() {
    let p = SqsProvider::new();
    let s = p.publish("unknown".to_string(), pub_msg(b"payload"));
    assert!(matches!(
        s,
        PublishState::Done { result: Err(MessagingError::NoConnection { .. }) }
    ));
    let req = RequestMessage { subject: "subj".to_string(), body: b"payload".to_vec() };
    let s = p.request("unknown".to_string(), req);
    assert!(matches!(
        s,
        RequestState::Done { result: Err(MessagingError::NoConnection { .. }) }
    ));
}

#[test]
fn shutdown_clears_every_link() {
    let mut p = SqsProvider::new();
    let link = LinkSettings::default();
    p.on_link_up("A".to_string(), &link, &env_settings()).unwrap();
    p.on_link_up("B".to_string(), &link, &env_settings()).unwrap();
    assert!(p.get(&"A".to_string()).is_some());
    assert!(p.get(&"B".to_string()).is_some());

    p.on_shutdown();
    assert!(p.get(&"A".to_string()).is_none());
    assert!(p.get(&"B".to_string()).is_none());
}

#[test]
fn repeated_link_up_replaces_single_entry() {
    let mut p = SqsProvider::new();
    let link = LinkSettings::default();
    p.on_link_up("A".to_string(), &link, &env_settings()).unwrap();
    p.on_link_up("A".to_string(), &link, &env_settings()).unwrap();
    assert!(p.get(&"A".to_string()).is_some());
    assert!(p.on_link_down(&"A".to_string()));
    assert!(p.get(&"A".to_string()).is_none());
    assert!(!p.on_link_down(&"A".to_string()));
}

#[test]
fn registry_writes_to_distinct_actors_do_not_interfere() {
    let mut reg = LinkRegistry::new();
    reg.put("A".to_string(), test_client());
    reg.put("B".to_string(), test_client());
    assert!(reg.get(&"A".to_string()).is_some());
    assert!(reg.get(&"B".to_string()).is_some());

    assert!(reg.remove(&"A".to_string()));
    assert!(reg.get(&"A".to_string()).is_none());
    assert!(reg.get(&"B".to_string()).is_some());

    reg.put("B".to_string(), test_client());
    assert!(reg.get(&"B".to_string()).is_some());

    reg.clear();
    assert!(reg.get(&"B".to_string()).is_none());
}

#[test]
fn registry_remove_reports_whether_entry_existed() {
    let mut reg = LinkRegistry::new();
    assert!(!reg.remove(&"A".to_string()));
    reg.put("A".to_string(), test_client());
    assert!(reg.remove(&"A".to_string()));
    assert!(!reg.remove(&"A".to_string()));
}

#[test]
fn link_configuration_wins_over_environment() {
    let mut link = LinkSettings::default();
    link.region = Some("eu-west-1".to_string());
    link.access_key_id = Some("link-key".to_string());
    let env = env_settings();
    let resolved = resolve_settings(&link, &env);
    assert_eq!(resolved.region, "eu-west-1");
    assert_eq!(resolved.access_key_id, "link-key");
    assert_eq!(resolved.secret_access_key, "test-secret");
}

#[test]
fn missing_everywhere_resolves_to_empty() {
    let link = LinkSettings::default();
    let env = EnvSettings { region: None, access_key_id: None, secret_access_key: None };
    let resolved = resolve_settings(&link, &env);
    assert_eq!(resolved.region, "");
    assert_eq!(resolved.access_key_id, "");
    assert_eq!(resolved.secret_access_key, "");
}
