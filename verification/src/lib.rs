//! Geos core logic: the error envelope, RBAC catalog, event vocabulary,
//! impact scoring, query planning, filter validation, search expressions,
//! token helpers and the caching tile proxy's decision machine.

pub mod error;
pub mod text;
pub mod rbac;
pub mod events;
pub mod numbers;
pub mod tenancy;
pub mod event_store;
pub mod impact;
pub mod saved_filters;
pub mod config;
pub mod connectors;
pub mod ids;
pub mod search;
pub mod tiles;
pub mod auth;
pub mod password;
pub mod session_flow;
pub mod query;
pub mod stream;
pub mod tasks;
pub mod api;
pub mod storage;
