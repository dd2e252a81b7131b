//! Control plane of a small application-hosting network: the node liveness
//! registry, the deployment and pin state machines, and the orchestration of
//! a deployment from content submission to per-node fan-out.

pub mod registry;
pub mod status;
pub mod records;
pub mod text;
pub mod endpoints;
pub mod naming;
pub mod fanout;
pub mod deploy;
pub mod settings;
pub mod statement;
