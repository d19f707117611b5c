//! Verified core logic of the QuickStack platform: the decisions that the
//! HTTP layer of the control plane and of the node agent take, stated as
//! contracts over plain values.

pub mod text;
pub mod columns;
pub mod sessions;
pub mod access;
pub mod error;
pub mod ipam;
pub mod projects;
pub mod paging;
pub mod money;
pub mod apps;
pub mod auth;
pub mod profile;
pub mod users;
pub mod subscriptions;
pub mod billing;
pub mod stripe;
pub mod managed_usage;
pub mod templates_deploy;
pub mod templates;
pub mod builds;
pub mod nodes;
pub mod agent;
pub mod network;
pub mod service_endpoints;
pub mod platform;
pub mod pools;
pub mod domains;
pub mod registries;
pub mod proxy_managers;
pub mod quota;
pub mod clusters;
pub mod databases;
pub mod object_storage;
