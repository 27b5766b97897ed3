//! Core decision logic of the Loom thread persistence server: configuration
//! parsing, health aggregation, the git smart-HTTP wire format, request
//! validation and the state changes that the HTTP handlers perform.

pub mod access;
pub mod audit;
pub mod config;
pub mod db;
pub mod error;
pub mod health;
pub mod ids;
pub mod jobs;
pub mod llm_proxy;
pub mod migrate;
pub mod num;
pub mod routes;
pub mod tags;
pub mod text;
