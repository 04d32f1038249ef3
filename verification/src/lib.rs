//! Verified core of a small federated ActivityPub server: HTTP signatures,
//! addressing, fetch and processing decisions, configuration.

pub mod text;
pub mod crypto;
pub mod httpsign;
pub mod config;
pub mod context;
pub mod ext;
pub mod types;
pub mod model;
pub mod addressing;
pub mod auth;
pub mod fetch;
pub mod normalize;
pub mod process;
pub mod outbox;
pub mod builders;
pub mod selector;
pub mod cli;
pub mod dispatch;
pub mod admin;
