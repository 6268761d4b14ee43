use vstd::prelude::*;

use crate::config::Service;

verus! {

/// What the controller sends to an agent.
#[derive(Debug)]
pub enum CtlMessage {
    Deploy { services: Vec<Service> },
    Start { service: String },
    Stop { service: String },
    Restart { service: String },
}

/// What an agent sends to the controller.
#[derive(Debug)]
pub enum AgentMessage {
    Ready { node: String },
    ServiceStarted { service: String },
    ServiceExited { service: String, code: Option<i32> },
    HealthChanged { service: String, healhy: bool },
}

} // verus!
