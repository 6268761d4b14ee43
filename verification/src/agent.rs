use vstd::prelude::*;

use crate::text::{parse_u16, spec_parse_u16};

verus! {

/// What an agent reports about the services it supervises.
#[derive(Debug, Clone)]
pub enum Event {
    ServiceStarted { service: String },
    ServiceExited { service: String, code: Option<i32> },
    HealthChanged { service: String, healthy: bool },
    LogLine { service: String, line: String },
}

/// The service an event is about.
pub open spec fn event_service(event: Event) -> String {
    match event {
        Event::ServiceStarted { service } => service,
        Event::ServiceExited { service, .. } => service,
        Event::HealthChanged { service, .. } => service,
        Event::LogLine { service, .. } => service,
    }
}

/// The port an agent listens on when none is given.
pub const DEFAULT_AGENT_PORT: u16 = 7700;

/// The port an agent listens on: the first argument when it reads as a
/// port number, the default port otherwise.
pub fn listen_port(arg: Option<&str>) -> (r: u16)
    ensures
        r == match arg {
            Some(a) => match spec_parse_u16(a@) {
                Some(p) => p,
                None => DEFAULT_AGENT_PORT,
            },
            None => DEFAULT_AGENT_PORT,
        },
{
    match arg {
        Some(a) => match parse_u16(a) {
            Some(p) => p,
            None => DEFAULT_AGENT_PORT,
        },
        None => DEFAULT_AGENT_PORT,
    }
}

} // verus!
