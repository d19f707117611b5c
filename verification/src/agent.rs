//! The node agent: the request types it accepts over HTTP and the decisions
//! it takes before talking to the Docker daemon.

pub mod types;
pub mod auth;
pub mod docker_ops;
pub mod containers;
pub mod networks;
pub mod status;
