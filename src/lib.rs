//! OAuth login: provider token exchange, profile parsing and reconciliation of
//! external identities with local user records.

pub mod callback;
pub mod config;
pub mod github;
pub mod gitlab;
pub mod text;
pub mod token;
pub mod user;
pub mod provider;
pub mod reconcile;
pub mod store;
