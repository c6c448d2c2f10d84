//! Core of a project-scoped client for a cloud messaging service.
//!
//! The library holds the hand-written layer that makes a generated RPC
//! transport usable as a coherent client: resource-name construction,
//! configuration-mode resolution, bearer-token management, per-call
//! authorization, and cursor-based pagination. The transport itself (the
//! channel, the generated stubs, the credential source) is I/O and lives
//! outside; this crate exposes the decisions as plain functions over plain
//! values, each with a contract.

pub mod client;
pub mod error;
pub mod names;
pub mod page;
pub mod token;

pub use client::{Bootstrap, Client, Mode, Subscription, Topic, TopicConfig};
pub use error::Error;
pub use page::{ListRequest, Page, PageWalk};
pub use token::{TokenAction, TokenManager};
