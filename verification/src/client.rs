//! The user-facing client: project identity, configuration-mode resolution,
//! request construction, and the wrapping of responses into resource
//! handles.
//!
//! Every operation follows the same three-step protocol: build a request
//! value whose resource name is derived deterministically from the project,
//! attach the current authorization header, invoke the transport. The
//! transport invocation is I/O and happens outside this crate; everything
//! the client decides — which name, which header, which next page — is
//! here, with a contract.

use vstd::prelude::*;
use vstd::string::StringExecFns;

use crate::error::Error;
use crate::names;
use crate::page::PageWalk;
use crate::token::{TokenAction, TokenManager};

verus! {

/// How the client was told to reach the service, resolved from the two
/// configuration inputs before the client is built.
pub enum Bootstrap {
    /// A local emulator address is configured; no credentials are involved.
    Emulator { host: String },
    /// No emulator: credentials are to be loaded from this file path.
    Production { credentials_path: String },
}

/// The mode resolution rule: an emulator address, when configured, wins
/// outright and the credential-file setting is never consulted; otherwise
/// the credential path is required, and its absence is a configuration
/// error.
pub open spec fn spec_resolve(
    emulator_host: Option<String>,
    credentials_path: Option<String>,
) -> Result<Bootstrap, Error> {
    match emulator_host {
        Some(host) => Ok(Bootstrap::Emulator { host }),
        None => match credentials_path {
            Some(credentials_path) => Ok(Bootstrap::Production { credentials_path }),
            None => Err(Error::MissingConfig),
        },
    }
}

/// Decides the construction mode from the two (already read) configuration
/// inputs, exactly as `spec_resolve` states.
pub fn resolve_bootstrap(emulator_host: Option<String>, credentials_path: Option<String>) -> (r:
    Result<Bootstrap, Error>)
    ensures
        r == spec_resolve(emulator_host, credentials_path),
{
    match emulator_host {
        Some(host) => Ok(Bootstrap::Emulator { host }),
        None => match credentials_path {
            Some(credentials_path) => Ok(Bootstrap::Production { credentials_path }),
            None => Err(Error::MissingConfig),
        },
    }
}

/// Emulator mode is decided by the emulator address alone: the
/// credential-file setting plays no part in it. Production mode, in turn,
/// is decided by the credential path alone and carries no emulator address.
pub proof fn lemma_modes_do_not_mix(
    host: String,
    path: String,
    c1: Option<String>,
    c2: Option<String>,
)
    ensures
        spec_resolve(Some(host), c1) == spec_resolve(Some(host), c2),
        spec_resolve(Some(host), c1) == Result::<Bootstrap, Error>::Ok(
            Bootstrap::Emulator { host },
        ),
        spec_resolve(None, Some(path)) == Result::<Bootstrap, Error>::Ok(
            Bootstrap::Production { credentials_path: path },
        ),
{
}

/// What the constructor is handed once the application has acted on the
/// resolved `Bootstrap`: either emulator mode, or the credential document
/// read from the configured path.
pub enum Mode {
    Emulator,
    Production { credentials: String },
}

/// Caller-supplied settings for a new topic; only labels are caller-chosen,
/// everything else a server assigns.
pub struct TopicConfig {
    pub labels: Vec<(String, String)>,
}

impl Default for TopicConfig {
    /// A configuration with no labels.
    fn default() -> (c: TopicConfig)
        ensures
            c.labels@ == Seq::<(String, String)>::empty(),
    {
        TopicConfig { labels: Vec::new() }
    }
}

/// The request value for creating a topic. Server-assigned fields (storage
/// policy, KMS key) are left unset.
pub struct TopicRequest {
    pub name: String,
    pub labels: Vec<(String, String)>,
    pub message_storage_policy: Option<String>,
    pub kms_key_name: String,
}

/// The request value for fetching one topic by name.
pub struct GetTopicRequest {
    pub topic: String,
}

/// The request value for fetching one subscription by name.
pub struct GetSubscriptionRequest {
    pub subscription: String,
}

/// An outgoing request enveloped with its authorization header, ready for
/// the transport.
pub struct Authed<T> {
    pub authorization: Option<String>,
    pub payload: T,
}

/// Envelopes a request payload with the header a `TokenAction` prescribes.
/// The action must be a settled one: a caller holding `Refresh` first runs
/// the refresh and re-decides, so no request is ever sent with a stale or
/// missing-but-required token.
pub fn construct_request<T>(payload: T, action: TokenAction) -> (r: Authed<T>)
    requires
        !(action is Refresh),
    ensures
        r.payload == payload,
        action is NoneNeeded ==> r.authorization is None,
        (action matches TokenAction::Use(h) ==> r.authorization == Some(h)),
{
    match action {
        TokenAction::NoneNeeded => Authed { authorization: None, payload },
        TokenAction::Use(h) => Authed { authorization: Some(h), payload },
        TokenAction::Refresh => {
            proof {
                assert(false);
            }
            Authed { authorization: None, payload }
        },
    }
}

/// The client, tied to one project. Clones share the transport channel and
/// the token cache underneath (the embedding application keeps the token
/// manager behind one reference-counted lock).
#[derive(Clone)]
pub struct Client {
    pub project_name: String,
    pub token_manager: TokenManager,
}

impl Client {
    /// Builds the client for a project in the given mode: emulator mode
    /// produces an insecure token manager that never consults a credential
    /// source; production mode an authenticated one over the supplied
    /// credential document and the service's fixed scope set, with nothing
    /// cached yet.
    pub fn new(project_name: String, mode: Mode) -> (c: Client)
        ensures
            c.project_name@ == project_name@,
            mode is Emulator ==> c.token_manager is Insecure,
            (mode matches Mode::Production { credentials } ==> {
                &&& c.token_manager is Authenticated
                &&& c.token_manager->credentials == credentials
                &&& c.token_manager->token is None
                &&& c.token_manager->expiry == 0
                &&& c.token_manager->scopes@.len() == 2
                &&& c.token_manager->scopes@[0]@ == "https://www.googleapis.com/auth/cloud-platform"@
                &&& c.token_manager->scopes@[1]@ == "https://www.googleapis.com/auth/pubsub"@
            }),
    {
        match mode {
            Mode::Emulator => Client { project_name, token_manager: TokenManager::Insecure },
            Mode::Production { credentials } => Client {
                project_name,
                token_manager: TokenManager::new(credentials, default_scopes()),
            },
        }
    }

    /// Builds the create-topic request: the fully-qualified derived name,
    /// the caller's labels carried through unchanged, and the
    /// server-assigned fields left unset. The name does not depend on the
    /// configuration.
    pub fn create_topic(&self, topic_id: &str, config: TopicConfig) -> (r: TopicRequest)
        ensures
            r.name@ == names::spec_topic_name(self.project_name@, topic_id@),
            r.labels == config.labels,
            r.message_storage_policy is None,
            r.kms_key_name@ == Seq::<char>::empty(),
    {
        TopicRequest {
            name: names::topic_name(self.project_name.as_str(), topic_id),
            labels: config.labels,
            message_storage_policy: None,
            kms_key_name: String::new(),
        }
    }

    /// Builds the request that fetches one topic by its derived name.
    pub fn topic(&self, id: &str) -> (r: GetTopicRequest)
        ensures
            r.topic@ == names::spec_topic_name(self.project_name@, id@),
    {
        GetTopicRequest { topic: names::topic_name(self.project_name.as_str(), id) }
    }

    /// Builds the request that fetches one subscription by its derived name.
    pub fn subscription(&self, id: &str) -> (r: GetSubscriptionRequest)
        ensures
            r.subscription@ == names::spec_subscription_name(self.project_name@, id@),
    {
        GetSubscriptionRequest {
            subscription: names::subscription_name(self.project_name.as_str(), id),
        }
    }

    /// Starts the listing of all topics of the project: a fresh pagination
    /// walk under `projects/{project}`.
    pub fn topics(&self) -> (w: PageWalk)
        ensures
            w.wf(),
            w.parent@ == names::spec_project_path(self.project_name@),
            w.items@ == Seq::<String>::empty(),
            w.next_token@ == Seq::<char>::empty(),
            !w.done,
            w.requests == 0,
    {
        PageWalk::begin(names::project_path(self.project_name.as_str()))
    }

    /// Starts the listing of all subscriptions of the project: a fresh
    /// pagination walk under `projects/{project}`.
    pub fn subscriptions(&self) -> (w: PageWalk)
        ensures
            w.wf(),
            w.parent@ == names::spec_project_path(self.project_name@),
            w.items@ == Seq::<String>::empty(),
            w.next_token@ == Seq::<char>::empty(),
            !w.done,
            w.requests == 0,
    {
        PageWalk::begin(names::project_path(self.project_name.as_str()))
    }

    /// Wraps the names a topic listing accumulated into handles, one per
    /// name, in order, each carrying a clone of this client.
    pub fn topic_handles(&self, topic_names: Vec<String>) -> (ts: Vec<Topic>)
        ensures
            ts@.len() == topic_names@.len(),
            forall|i: int| 0 <= i < ts@.len() ==> ts@[i].name@ == topic_names@[i]@,
    {
        let mut rest = topic_names;
        let mut out: Vec<Topic> = Vec::new();
        while rest.len() > 0
            invariant
                out@.len() + rest@.len() == topic_names@.len(),
                rest@ == topic_names@.subrange(out@.len() as int, topic_names@.len() as int),
                forall|i: int| 0 <= i < out@.len() ==> out@[i].name@ == topic_names@[i]@,
            decreases rest@.len(),
        {
            let n = rest.remove(0);
            out.push(Topic::new(self.clone(), n));
            proof {
                assert(rest@ =~= topic_names@.subrange(
                    out@.len() as int,
                    topic_names@.len() as int,
                ));
            }
        }
        out
    }

    /// Wraps the names a subscription listing accumulated into handles, one
    /// per name, in order, each carrying a clone of this client.
    pub fn subscription_handles(&self, subscription_names: Vec<String>) -> (ss: Vec<Subscription>)
        ensures
            ss@.len() == subscription_names@.len(),
            forall|i: int| 0 <= i < ss@.len() ==> ss@[i].name@ == subscription_names@[i]@,
    {
        let mut rest = subscription_names;
        let mut out: Vec<Subscription> = Vec::new();
        while rest.len() > 0
            invariant
                out@.len() + rest@.len() == subscription_names@.len(),
                rest@ == subscription_names@.subrange(
                    out@.len() as int,
                    subscription_names@.len() as int,
                ),
                forall|i: int| 0 <= i < out@.len() ==> out@[i].name@ == subscription_names@[i]@,
            decreases rest@.len(),
        {
            let n = rest.remove(0);
            out.push(Subscription::new(self.clone(), n));
            proof {
                assert(rest@ =~= subscription_names@.subrange(
                    out@.len() as int,
                    subscription_names@.len() as int,
                ));
            }
        }
        out
    }
}

/// A lightweight handle to a topic: its fully-qualified name, as the server
/// echoed it, plus a client for further operations. Construction performs
/// no I/O.
pub struct Topic {
    pub client: Client,
    pub name: String,
}

impl Topic {
    pub fn new(client: Client, name: String) -> (t: Topic)
        ensures
            t.name@ == name@,
            t.client == client,
    {
        Topic { client, name }
    }

    /// The handle's fully-qualified resource name.
    pub fn name(&self) -> (r: &str)
        ensures
            r@ == self.name@,
    {
        self.name.as_str()
    }
}

/// A lightweight handle to a subscription, symmetric to `Topic`.
pub struct Subscription {
    pub client: Client,
    pub name: String,
}

impl Subscription {
    pub fn new(client: Client, name: String) -> (s: Subscription)
        ensures
            s.name@ == name@,
            s.client == client,
    {
        Subscription { client, name }
    }

    /// The handle's fully-qualified resource name.
    pub fn name(&self) -> (r: &str)
        ensures
            r@ == self.name@,
    {
        self.name.as_str()
    }
}

/// The OAuth scopes the service requires: the cloud-platform scope and the
/// service-specific scope, in this order.
pub fn default_scopes() -> (r: Vec<String>)
    ensures
        r@.len() == 2,
        r@[0]@ == "https://www.googleapis.com/auth/cloud-platform"@,
        r@[1]@ == "https://www.googleapis.com/auth/pubsub"@,
{
    let mut v: Vec<String> = Vec::new();
    v.push(String::from_str("https://www.googleapis.com/auth/cloud-platform"));
    v.push(String::from_str("https://www.googleapis.com/auth/pubsub"));
    v
}

/// The canonical domain name certificate validation is bound to.
pub fn domain_name() -> (r: &'static str)
    ensures
        r@ == "pubsub.googleapis.com"@,
{
    "pubsub.googleapis.com"
}

/// The fixed production endpoint.
pub fn endpoint() -> (r: &'static str)
    ensures
        r@ == "https://pubsub.googleapis.com"@,
{
    "https://pubsub.googleapis.com"
}

/// The URI of a local emulator at `host`.
pub fn emulator_uri(host: &str) -> (r: String)
    ensures
        r@ == "http://"@ + host@,
{
    let mut s = String::from_str("http://");
    s.append(host);
    s
}

} // verus!
