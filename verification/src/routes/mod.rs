//! The decisions of the HTTP route handlers.

pub mod admin_anthropic;
pub mod agent;
pub mod auth;
pub mod bin;
pub mod api_keys;
pub mod clips;
pub mod crash;
pub mod flags;
pub mod git;
pub mod maintenance;
pub mod protection;
pub mod repos;
pub mod weaver;
pub mod webhooks;
