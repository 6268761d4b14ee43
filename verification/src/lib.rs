//! Supervision and deployment logic for a small broadcast cluster: the
//! configuration model, the state machines that drive services, health
//! probes and agent sessions, the controller's view of the cluster, and the
//! plan by which nodes are deployed.

pub mod agent;
pub mod config;
pub mod ctl;
pub mod deploy;
pub mod healthcheck;
pub mod protocol;
pub mod session;
pub mod state;
pub mod supervisor;
pub mod text;
