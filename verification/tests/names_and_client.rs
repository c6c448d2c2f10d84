use pubsub_client::client::{
    construct_request, default_scopes, domain_name, emulator_uri, endpoint, resolve_bootstrap,
    Bootstrap, Client, Mode, TopicConfig,
};
use pubsub_client::error::Error;
use pubsub_client::names::{project_path, subscription_name, topic_name};
use pubsub_client::token::TokenAction;
use pubsub_client::{Subscription, Topic};

fn emulator_client(project: &str) -> Client {
    Client::new(project.to_string(), Mode::Emulator)
}

#[test]
fn topic_name_is_fully_qualified() {
    assert_eq!(topic_name("p", "t"), "projects/p/topics/t");
}

#[test]
fn subscription_name_is_fully_qualified() {
    assert_eq!(subscription_name("p", "s"), "projects/p/subscriptions/s");
}

#[test]
fn project_path_is_project_scoped() {
    assert_eq!(project_path("my-project"), "projects/my-project");
}

#[test]
fn name_construction_is_deterministic() {
    assert_eq!(topic_name("p", "t"), topic_name("p", "t"));
    assert_eq!(subscription_name("p", "s"), subscription_name("p", "s"));
}

#[test]
fn different_ids_never_collide() {
    assert_ne!(topic_name("p", "t1"), topic_name("p", "t2"));
    assert_ne!(subscription_name("p", "s1"), subscription_name("p", "s2"));
}

#[test]
fn topic_request_addresses_derived_name() {
    let c = emulator_client("p");
    let r = c.topic("t");
    assert_eq!(r.topic, "projects/p/topics/t");
}

#[test]
fn subscription_request_addresses_derived_name() {
    let c = emulator_client("p");
    let r = c.subscription("s");
    assert_eq!(r.subscription, "projects/p/subscriptions/s");
}

#[test]
fn create_topic_name_ignores_labels() {
    let c = emulator_client("proj");
    let bare = c.create_topic("t1", TopicConfig { labels: Vec::new() });
    let labelled = c.create_topic(
        "t1",
        TopicConfig {
            labels: vec![
                ("env".to_string(), "prod".to_string()),
                ("team".to_string(), "infra".to_string()),
            ],
        },
    );
    assert_eq!(bare.name, "projects/proj/topics/t1");
    assert_eq!(labelled.name, "projects/proj/topics/t1");
}

#[test]
fn create_topic_carries_labels_and_leaves_server_fields_unset() {
    let c = emulator_client("p");
    let labels = vec![("k".to_string(), "v".to_string())];
    let r = c.create_topic("t", TopicConfig { labels: labels.clone() });
    assert_eq!(r.labels, labels);
    assert!(r.message_storage_policy.is_none());
    assert_eq!(r.kms_key_name, "");
}

#[test]
fn created_topic_handle_round_trips_the_name() {
    let c = emulator_client("proj");
    let cfg = TopicConfig {
        labels: vec![("any".to_string(), "label".to_string())],
    };
    let request = c.create_topic("t1", cfg);
    // The server echoes the requested name back on success.
    let echoed = request.name.clone();
    let handle = Topic::new(c.clone(), echoed);
    assert_eq!(handle.name(), "projects/proj/topics/t1");
}

#[test]
fn topic_handles_wrap_names_in_order() {
    let c = emulator_client("p");
    let names = vec![
        "projects/p/topics/a".to_string(),
        "projects/p/topics/b".to_string(),
    ];
    let handles = c.topic_handles(names.clone());
    assert_eq!(handles.len(), 2);
    assert_eq!(handles[0].name(), names[0]);
    assert_eq!(handles[1].name(), names[1]);
}

#[test]
fn subscription_handles_wrap_names_in_order() {
    let c = emulator_client("p");
    let names = vec![
        "projects/p/subscriptions/a".to_string(),
        "projects/p/subscriptions/b".to_string(),
    ];
    let handles: Vec<Subscription> = c.subscription_handles(names.clone());
    assert_eq!(handles.len(), 2);
    assert_eq!(handles[0].name(), names[0]);
    assert_eq!(handles[1].name(), names[1]);
}

#[test]
fn emulator_address_wins_over_credentials() {
    let r = resolve_bootstrap(
        Some("localhost:8085".to_string()),
        Some("/credentials.json".to_string()),
    );
    assert!(matches!(r, Ok(Bootstrap::Emulator { host }) if host == "localhost:8085"));
}

#[test]
fn emulator_address_alone_selects_emulator_mode() {
    let r = resolve_bootstrap(Some("localhost:8085".to_string()), None);
    assert!(matches!(r, Ok(Bootstrap::Emulator { host }) if host == "localhost:8085"));
}

#[test]
fn credentials_path_selects_production_mode() {
    let r = resolve_bootstrap(None, Some("/credentials.json".to_string()));
    assert!(matches!(
        r,
        Ok(Bootstrap::Production { credentials_path }) if credentials_path == "/credentials.json"
    ));
}

#[test]
fn missing_configuration_is_an_error() {
    let r = resolve_bootstrap(None, None);
    assert!(matches!(r, Err(Error::MissingConfig)));
}

#[test]
fn emulator_client_never_needs_credentials() {
    let c = emulator_client("p");
    // No credential source is consulted at any instant: no token is needed.
    assert!(matches!(c.token_manager.decide(0), TokenAction::NoneNeeded));
    assert!(matches!(c.token_manager.decide(u64::MAX), TokenAction::NoneNeeded));
    assert!(c.token_manager.scopes().is_none());
}

#[test]
fn production_client_starts_with_nothing_cached() {
    let c = Client::new(
        "p".to_string(),
        Mode::Production {
            credentials: "{\"type\":\"service_account\"}".to_string(),
        },
    );
    assert!(matches!(c.token_manager.decide(0), TokenAction::Refresh));
    let scopes = c.token_manager.scopes().expect("production mode has scopes");
    assert_eq!(
        scopes,
        &vec![
            "https://www.googleapis.com/auth/cloud-platform".to_string(),
            "https://www.googleapis.com/auth/pubsub".to_string(),
        ]
    );
}

#[test]
fn construct_request_attaches_the_decided_header() {
    let with_token = construct_request(7u32, TokenAction::Use("Bearer tok".to_string()));
    assert_eq!(with_token.authorization.as_deref(), Some("Bearer tok"));
    assert_eq!(with_token.payload, 7u32);

    let insecure = construct_request("payload", TokenAction::NoneNeeded);
    assert!(insecure.authorization.is_none());
    assert_eq!(insecure.payload, "payload");
}

#[test]
fn fixed_endpoints_and_scopes() {
    assert_eq!(endpoint(), "https://pubsub.googleapis.com");
    assert_eq!(domain_name(), "pubsub.googleapis.com");
    assert_eq!(emulator_uri("localhost:8085"), "http://localhost:8085");
    assert_eq!(
        default_scopes(),
        vec![
            "https://www.googleapis.com/auth/cloud-platform".to_string(),
            "https://www.googleapis.com/auth/pubsub".to_string(),
        ]
    );
}

#[test]
fn default_topic_config_has_no_labels() {
    let cfg = TopicConfig::default();
    assert!(cfg.labels.is_empty());
}
