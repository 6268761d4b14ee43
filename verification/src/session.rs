use vstd::prelude::*;

use crate::config::Service;
use crate::protocol::{AgentMessage, CtlMessage};
use crate::supervisor::SupervisorCommand;
use crate::text::{contains_name, names_contain};

verus! {

/// Where an agent's conversation with the controller stands.
#[derive(Debug, Clone, Copy, PartialEq, Eq)]
pub enum SessionPhase {
    /// Nothing is supervised yet; the agent waits for a deployment.
    AwaitingDeploy,
    /// Services are supervised; the agent relays commands and events.
    Serving,
}

/// A text frame from the controller, as the agent read it.
#[derive(Debug)]
pub enum SessionInput {
    Message(CtlMessage),
    /// A frame that is not a controller message.
    Malformed,
}

/// Something the agent does in answer to a frame.
#[derive(Debug)]
pub enum SessionEffect {
    /// Supervise these services, each with a command channel of its own.
    StartServices { services: Vec<Service> },
    /// Send this message to the controller.
    Send { message: AgentMessage },
    /// Relay a command to the supervisor of a service.
    Command { service: String, command: SupervisorCommand },
    /// Report a message that came before any deployment.
    ReportUnexpected { message: CtlMessage },
    /// Report a frame that is not a controller message.
    ReportMalformed,
    /// Report a restart asked for a service that is not supervised.
    ReportUnknownService { service: String },
}

/// The decisions of an agent in its conversation with the controller.
#[derive(Debug)]
pub struct AgentSession {
    pub phase: SessionPhase,
    /// The services that were deployed, which commands can reach.
    pub services: Vec<String>,
}

/// The names of the services, in order.
pub open spec fn service_names(services: Seq<Service>) -> Seq<String> {
    services.map_values(|s: Service| s.name)
}

/// The node name an agent announces itself with when it is ready.
pub open spec fn is_ready_message(message: AgentMessage) -> bool {
    message matches AgentMessage::Ready { node } && node@ == "agent"@
}

/// What an agent does with a frame: its next phase, the services that
/// commands can reach afterwards, and the effects it performs.
pub open spec fn spec_session_step(
    phase: SessionPhase,
    services: Seq<String>,
    input: SessionInput,
    next: SessionPhase,
    next_services: Seq<String>,
    effects: Seq<SessionEffect>,
) -> bool {
    match phase {
        SessionPhase::AwaitingDeploy => match input {
            SessionInput::Message(CtlMessage::Deploy { services: deployed }) => {
                &&& next == SessionPhase::Serving
                &&& next_services == service_names(deployed@)
                &&& effects.len() == 2
                &&& effects[0] == (SessionEffect::StartServices { services: deployed })
                &&& effects[1] matches SessionEffect::Send { message } && is_ready_message(message)
            },
            SessionInput::Message(other) => {
                &&& next == phase
                &&& next_services == services
                &&& effects == seq![SessionEffect::ReportUnexpected { message: other }]
            },
            SessionInput::Malformed => {
                &&& next == phase
                &&& next_services == services
                &&& effects == seq![SessionEffect::ReportMalformed]
            },
        },
        SessionPhase::Serving => {
            &&& next == phase
            &&& next_services == services
            &&& match input {
                SessionInput::Message(CtlMessage::Restart { service }) => if names_contain(
                    services,
                    service@,
                ) {
                    effects == seq![
                        SessionEffect::Command { service, command: SupervisorCommand::Restart },
                    ]
                } else {
                    effects == seq![SessionEffect::ReportUnknownService { service }]
                },
                SessionInput::Message(CtlMessage::Stop { service }) => if names_contain(
                    services,
                    service@,
                ) {
                    effects == seq![
                        SessionEffect::Command { service, command: SupervisorCommand::Stop },
                    ]
                } else {
                    effects.len() == 0
                },
                _ => effects.len() == 0,
            }
        },
    }
}

impl AgentSession {
    /// A fresh conversation: nothing deployed yet.
    pub fn new() -> (r: AgentSession)
        ensures
            r.phase == SessionPhase::AwaitingDeploy,
            r.services@.len() == 0,
    {
        AgentSession { phase: SessionPhase::AwaitingDeploy, services: Vec::new() }
    }

    /// Answers one frame from the controller.
    pub fn step(&mut self, input: SessionInput) -> (r: Vec<SessionEffect>)
        ensures
            spec_session_step(
                old(self).phase,
                old(self).services@,
                input,
                final(self).phase,
                final(self).services@,
                r@,
            ),
    {
        let mut effects: Vec<SessionEffect> = Vec::new();
        match self.phase {
            SessionPhase::AwaitingDeploy => match input {
                SessionInput::Message(CtlMessage::Deploy { services }) => {
                    self.services = names_of(&services);
                    self.phase = SessionPhase::Serving;
                    effects.push(SessionEffect::StartServices { services });
                    let node = String::from_str("agent");
                    effects.push(SessionEffect::Send { message: AgentMessage::Ready { node } });
                },
                SessionInput::Message(other) => {
                    effects.push(SessionEffect::ReportUnexpected { message: other });
                },
                SessionInput::Malformed => {
                    effects.push(SessionEffect::ReportMalformed);
                },
            },
            SessionPhase::Serving => match input {
                SessionInput::Message(CtlMessage::Restart { service }) => {
                    if contains_name(self.services.as_slice(), &service) {
                        effects.push(
                            SessionEffect::Command { service, command: SupervisorCommand::Restart },
                        );
                    } else {
                        effects.push(SessionEffect::ReportUnknownService { service });
                    }
                },
                SessionInput::Message(CtlMessage::Stop { service }) => {
                    if contains_name(self.services.as_slice(), &service) {
                        effects.push(
                            SessionEffect::Command { service, command: SupervisorCommand::Stop },
                        );
                    }
                },
                _ => {},
            },
        }
        effects
    }
}

/// The names of the services, in order.
pub fn names_of(services: &Vec<Service>) -> (r: Vec<String>)
    ensures
        r@ == service_names(services@),
{
    let mut r: Vec<String> = Vec::new();
    let mut i: usize = 0;
    while i < services.len()
        invariant
            i <= services@.len(),
            r@ == service_names(services@.take(i as int)),
        decreases services@.len() - i,
    {
        r.push(services[i].name.clone());
        assert(service_names(services@.take(i + 1)) =~= service_names(services@.take(i as int)).push(
            services@[i as int].name,
        ));
        i = i + 1;
    }
    assert(services@.take(services@.len() as int) =~= services@);
    r
}

/// Commands are relayed only to services that were deployed, and never
/// before the deployment.
pub proof fn law_commands_only_reach_deployed_services(
    phase: SessionPhase,
    services: Seq<String>,
    input: SessionInput,
    next: SessionPhase,
    next_services: Seq<String>,
    effects: Seq<SessionEffect>,
)
    requires
        spec_session_step(phase, services, input, next, next_services, effects),
    ensures
        forall|i: int|
            0 <= i < effects.len() && #[trigger] effects[i] is Command ==> phase
                == SessionPhase::Serving && names_contain(services, effects[i]->Command_service@),
{
}

/// An agent deploys once: after the first deployment, further deployments
/// are ignored and the deployed services stay the same.
pub proof fn law_deploy_happens_once(
    services: Seq<String>,
    input: SessionInput,
    next: SessionPhase,
    next_services: Seq<String>,
    effects: Seq<SessionEffect>,
)
    requires
        spec_session_step(SessionPhase::Serving, services, input, next, next_services, effects),
    ensures
        next == SessionPhase::Serving,
        next_services == services,
        forall|i: int| 0 <= i < effects.len() ==> !(#[trigger] effects[i] is StartServices),
{
}

/// A deployment makes every deployed service reachable by commands.
pub proof fn law_deployed_services_are_reachable(
    services: Seq<String>,
    deployed: Vec<Service>,
    next: SessionPhase,
    next_services: Seq<String>,
    effects: Seq<SessionEffect>,
    k: int,
)
    requires
        spec_session_step(
            SessionPhase::AwaitingDeploy,
            services,
            SessionInput::Message(CtlMessage::Deploy { services: deployed }),
            next,
            next_services,
            effects,
        ),
        0 <= k < deployed@.len(),
    ensures
        next == SessionPhase::Serving,
        names_contain(next_services, deployed@[k].name@),
{
    assert(next_services[k] == deployed@[k].name);
}

/// Once deployed, a Stop or a Restart of any deployed service is relayed
/// to that service's supervisor, and to it alone.
pub proof fn law_commands_reach_every_deployed_service(
    services: Seq<String>,
    service: String,
    k: int,
    stop: bool,
    next: SessionPhase,
    next_services: Seq<String>,
    effects: Seq<SessionEffect>,
)
    requires
        0 <= k < services.len(),
        services[k]@ == service@,
        spec_session_step(
            SessionPhase::Serving,
            services,
            SessionInput::Message(
                if stop {
                    CtlMessage::Stop { service }
                } else {
                    CtlMessage::Restart { service }
                },
            ),
            next,
            next_services,
            effects,
        ),
    ensures
        effects == seq![
            SessionEffect::Command {
                service,
                command: if stop {
                    SupervisorCommand::Stop
                } else {
                    SupervisorCommand::Restart
                },
            },
        ],
        next == SessionPhase::Serving,
        next_services == services,
{
    assert(names_contain(services, service@));
}

/// A Stop of a service that was not deployed is dropped; a Restart of one
/// is reported as unknown. Neither reaches a supervisor.
pub proof fn law_commands_for_unknown_services_are_not_relayed(
    services: Seq<String>,
    service: String,
    stop: bool,
    next: SessionPhase,
    next_services: Seq<String>,
    effects: Seq<SessionEffect>,
)
    requires
        forall|k: int| 0 <= k < services.len() ==> services[k]@ != service@,
        spec_session_step(
            SessionPhase::Serving,
            services,
            SessionInput::Message(
                if stop {
                    CtlMessage::Stop { service }
                } else {
                    CtlMessage::Restart { service }
                },
            ),
            next,
            next_services,
            effects,
        ),
    ensures
        stop ==> effects.len() == 0,
        !stop ==> effects == seq![SessionEffect::ReportUnknownService { service }],
{
}

} // verus!
