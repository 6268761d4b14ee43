use vstd::prelude::*;

use crate::agent::Event;
use crate::config::{Dependency, Service};
use crate::text::{contains_name, names_contain};

verus! {

/// A command the agent relays to the supervisor of one service.
#[derive(Debug, Clone, Copy, PartialEq, Eq)]
pub enum SupervisorCommand {
    Restart,
    Stop,
}

/// How long a supervisor waits before it starts a service again.
pub const RESTART_DELAY_MS: u64 = 2000;

/// The exit code reported when a service could not be spawned.
pub const SPAWN_FAILED_CODE: i32 = -1;

/// The exit code reported when waiting for a service failed.
pub const WAIT_FAILED_CODE: i32 = -2;

/// Where a supervisor stands in the life of its service.
#[derive(Debug, Clone, Copy, PartialEq, Eq)]
pub enum Phase {
    /// Waiting for the dependency at this index of the awaited list to be healthy.
    AwaitingDependency { index: usize },
    /// The service has been announced and is being spawned.
    Launching,
    /// The service runs and is being waited for.
    Running,
    /// Waiting out the delay before the next start.
    BackingOff,
    /// The supervisor is done with the service.
    Finished,
}

/// What came of the effects that a supervisor asked for last.
#[derive(Debug, Clone, Copy, PartialEq, Eq)]
pub enum Outcome {
    /// The awaited dependency reported healthy.
    DependencyHealthy,
    /// The program could not be spawned.
    SpawnFailed,
    /// The program was spawned.
    Spawned,
    /// The program exited.
    Exited,
    /// Waiting for the program failed.
    WaitFailed,
    /// The requested delay has passed.
    Slept,
}

/// Something a supervisor asks its runner to do, in the order given.
#[derive(Debug, Clone)]
pub enum Effect {
    /// Wait until the named service reports healthy.
    AwaitHealthy { dependency: String },
    /// Publish an event to the agent's subscribers.
    Emit { event: Event },
    /// Spawn the service's command with its arguments.
    Spawn,
    /// Append the program's output, line by line, to the service's log file
    /// (see `log_path`).
    CaptureOutput,
    /// Start probing the service's health.
    StartHealthcheck,
    /// Wait this many milliseconds.
    Sleep { ms: u64 },
    /// Stop supervising.
    Stop,
}

/// The decisions of the supervisor of one service: which dependencies it
/// waits for, when it announces, spawns and restarts the service.
#[derive(Debug)]
pub struct Supervisor {
    pub name: String,
    pub restart_always: bool,
    pub has_healthcheck: bool,
    /// The dependencies that are waited for, in the order of the configuration.
    pub awaited: Vec<String>,
    pub phase: Phase,
}

/// The dependencies, among `deps`, that a supervisor waits for: those whose
/// service is one of the `known` ones, in order.
pub open spec fn spec_awaited(deps: Seq<Dependency>, known: Seq<String>) -> Seq<String>
    decreases deps.len(),
{
    if deps.len() == 0 {
        Seq::empty()
    } else {
        let rest = spec_awaited(deps.drop_last(), known);
        if names_contain(known, deps.last().service@) {
            rest.push(deps.last().service)
        } else {
            rest
        }
    }
}

/// The dependency list of a service, empty when none is configured.
pub open spec fn spec_dependencies(deps: Option<Vec<Dependency>>) -> Seq<Dependency> {
    match deps {
        Some(v) => v@,
        None => Seq::empty(),
    }
}

/// The log file of a service: `logs/<name>.log`.
pub open spec fn spec_log_path(name: Seq<char>) -> Seq<char> {
    seq!['l', 'o', 'g', 's', '/'] + name + seq!['.', 'l', 'o', 'g']
}

/// The effects that (re)start a service: announce it, then spawn it.
pub open spec fn launch_effects(name: String) -> Seq<Effect> {
    seq![Effect::Emit { event: Event::ServiceStarted { service: name } }, Effect::Spawn]
}

/// The event that reports a failure with the given exit code.
pub open spec fn exit_event(name: String, code: i32) -> Effect {
    Effect::Emit { event: Event::ServiceExited { service: name, code: Some(code) } }
}

impl Supervisor {
    pub open spec fn wf(&self) -> bool {
        self.phase matches Phase::AwaitingDependency { index } ==> index < self.awaited@.len()
    }

    /// What the supervisor does when the service has stopped running: wait
    /// and start it again under the `always` policy, stop otherwise.
    pub open spec fn spec_after_exit(&self, reported: Seq<Effect>) -> (Phase, Seq<Effect>) {
        if self.restart_always {
            (Phase::BackingOff, reported.push(Effect::Sleep { ms: RESTART_DELAY_MS }))
        } else {
            (Phase::Finished, reported.push(Effect::Stop))
        }
    }

    /// The next phase and the effects to perform, given what came of the last ones.
    pub open spec fn spec_step(&self, outcome: Outcome) -> (Phase, Seq<Effect>) {
        match (self.phase, outcome) {
            (Phase::AwaitingDependency { index }, Outcome::DependencyHealthy) => {
                if index + 1 < self.awaited@.len() {
                    (
                        Phase::AwaitingDependency { index: (index + 1) as usize },
                        seq![Effect::AwaitHealthy { dependency: self.awaited@[index + 1] }],
                    )
                } else {
                    (Phase::Launching, launch_effects(self.name))
                }
            },
            (Phase::Launching, Outcome::SpawnFailed) => (
                Phase::BackingOff,
                seq![
                    exit_event(self.name, SPAWN_FAILED_CODE),
                    Effect::Sleep { ms: RESTART_DELAY_MS },
                ],
            ),
            (Phase::Launching, Outcome::Spawned) => (
                Phase::Running,
                if self.has_healthcheck {
                    seq![
                        Effect::CaptureOutput,
                        Effect::StartHealthcheck,
                    ]
                } else {
                    seq![Effect::CaptureOutput]
                },
            ),
            (Phase::Running, Outcome::Exited) => self.spec_after_exit(Seq::empty()),
            (Phase::Running, Outcome::WaitFailed) => self.spec_after_exit(
                seq![exit_event(self.name, WAIT_FAILED_CODE)],
            ),
            (Phase::BackingOff, Outcome::Slept) => (Phase::Launching, launch_effects(self.name)),
            _ => (self.phase, Seq::empty()),
        }
    }

    /// A supervisor for `service`, which waits for the dependencies whose
    /// service is one of the `known` services, in order, and then starts it.
    /// Returns the supervisor and the effects to perform first.
    pub fn start(service: &Service, known: &[String]) -> (r: (Supervisor, Vec<Effect>))
        ensures
            r.0.wf(),
            r.0.name == service.name,
            r.0.restart_always == (service.restart@ == "always"@),
            r.0.has_healthcheck == service.healthcheck.is_some(),
            r.0.awaited@ == spec_awaited(spec_dependencies(service.depends_on), known@),
            r.0.awaited@.len() > 0 ==> r.0.phase == (Phase::AwaitingDependency { index: 0 })
                && r.1@ == seq![Effect::AwaitHealthy { dependency: r.0.awaited@[0] }],
            r.0.awaited@.len() == 0 ==> r.0.phase == Phase::Launching && r.1@ == launch_effects(
                service.name,
            ),
    {
        let awaited = dependencies_to_await(&service.depends_on, known);
        let always = String::from_str("always");
        let restart_always = service.restart == always;
        let name = service.name.clone();
        if awaited.len() > 0 {
            let first = awaited[0].clone();
            let sup = Supervisor {
                name,
                restart_always,
                has_healthcheck: service.healthcheck.is_some(),
                awaited,
                phase: Phase::AwaitingDependency { index: 0 },
            };
            let mut effects = Vec::new();
            effects.push(Effect::AwaitHealthy { dependency: first });
            (sup, effects)
        } else {
            let effects = launch(&name);
            let sup = Supervisor {
                name,
                restart_always,
                has_healthcheck: service.healthcheck.is_some(),
                awaited,
                phase: Phase::Launching,
            };
            (sup, effects)
        }
    }

    /// Moves the supervisor on by what came of its last effects, and returns
    /// the effects to perform next.
    pub fn step(&mut self, outcome: Outcome) -> (r: Vec<Effect>)
        requires
            old(self).wf(),
        ensures
            final(self).wf(),
            final(self).name == old(self).name,
            final(self).restart_always == old(self).restart_always,
            final(self).has_healthcheck == old(self).has_healthcheck,
            final(self).awaited == old(self).awaited,
            final(self).phase == old(self).spec_step(outcome).0,
            r@ == old(self).spec_step(outcome).1,
    {
        match (self.phase, outcome) {
            (Phase::AwaitingDependency { index }, Outcome::DependencyHealthy) => {
                if index < self.awaited.len() - 1 {
                    let next = self.awaited[index + 1].clone();
                    self.phase = Phase::AwaitingDependency { index: index + 1 };
                    let mut effects = Vec::new();
                    effects.push(Effect::AwaitHealthy { dependency: next });
                    effects
                } else {
                    self.phase = Phase::Launching;
                    launch(&self.name)
                }
            },
            (Phase::Launching, Outcome::SpawnFailed) => {
                self.phase = Phase::BackingOff;
                let mut effects = Vec::new();
                effects.push(
                    Effect::Emit {
                        event: Event::ServiceExited {
                            service: self.name.clone(),
                            code: Some(SPAWN_FAILED_CODE),
                        },
                    },
                );
                effects.push(Effect::Sleep { ms: RESTART_DELAY_MS });
                effects
            },
            (Phase::Launching, Outcome::Spawned) => {
                self.phase = Phase::Running;
                let mut effects = Vec::new();
                effects.push(Effect::CaptureOutput);
                if self.has_healthcheck {
                    effects.push(Effect::StartHealthcheck);
                }
                effects
            },
            (Phase::Running, Outcome::Exited) => {
                let effects = Vec::new();
                self.after_exit(effects)
            },
            (Phase::Running, Outcome::WaitFailed) => {
                let mut effects = Vec::new();
                effects.push(
                    Effect::Emit {
                        event: Event::ServiceExited {
                            service: self.name.clone(),
                            code: Some(WAIT_FAILED_CODE),
                        },
                    },
                );
                self.after_exit(effects)
            },
            (Phase::BackingOff, Outcome::Slept) => {
                self.phase = Phase::Launching;
                launch(&self.name)
            },
            _ => Vec::new(),
        }
    }

    fn after_exit(&mut self, reported: Vec<Effect>) -> (r: Vec<Effect>)
        requires
            old(self).wf(),
        ensures
            final(self).wf(),
            final(self).name == old(self).name,
            final(self).restart_always == old(self).restart_always,
            final(self).has_healthcheck == old(self).has_healthcheck,
            final(self).awaited == old(self).awaited,
            final(self).phase == old(self).spec_after_exit(reported@).0,
            r@ == old(self).spec_after_exit(reported@).1,
    {
        let mut effects = reported;
        if self.restart_always {
            self.phase = Phase::BackingOff;
            effects.push(Effect::Sleep { ms: RESTART_DELAY_MS });
        } else {
            self.phase = Phase::Finished;
            effects.push(Effect::Stop);
        }
        effects
    }
}

fn launch(name: &String) -> (r: Vec<Effect>)
    ensures
        r@ == launch_effects(*name),
{
    let mut effects = Vec::new();
    effects.push(Effect::Emit { event: Event::ServiceStarted { service: name.clone() } });
    effects.push(Effect::Spawn);
    effects
}

/// The file that receives the output of service `name`: `logs/<name>.log`.
pub fn log_path(name: &String) -> (r: String)
    ensures
        r@ == spec_log_path(name@),
{
    proof {
        reveal_strlit("logs/");
        reveal_strlit(".log");
    }
    String::from_str("logs/").concat(name.as_str()).concat(".log")
}

/// A line of a service's log file: `[timestamp] line` and a newline.
pub open spec fn spec_log_entry(timestamp: Seq<char>, line: Seq<char>) -> Seq<char> {
    seq!['['] + timestamp + seq![']', ' '] + line + seq!['\n']
}

/// The entry written to the log file for one line of output, stamped with
/// the time it was read.
pub fn log_entry(timestamp: &str, line: &str) -> (r: String)
    ensures
        r@ == spec_log_entry(timestamp@, line@),
{
    proof {
        reveal_strlit("[");
        reveal_strlit("] ");
        reveal_strlit("\n");
    }
    String::from_str("[").concat(timestamp).concat("] ").concat(line).concat("\n")
}

/// The dependencies that a supervisor waits for: those of `deps` whose
/// service is one of the `known` services, in the order of `deps`.
pub fn dependencies_to_await(deps: &Option<Vec<Dependency>>, known: &[String]) -> (r: Vec<String>)
    ensures
        r@ == spec_awaited(spec_dependencies(*deps), known@),
{
    let mut r: Vec<String> = Vec::new();
    match deps {
        None => {
            assert(r@ =~= spec_awaited(Seq::empty(), known@));
            r
        },
        Some(list) => {
            let mut i: usize = 0;
            assert(list@.take(0) =~= Seq::<Dependency>::empty());
            while i < list.len()
                invariant
                    i <= list@.len(),
                    r@ == spec_awaited(list@.take(i as int), known@),
                decreases list@.len() - i,
            {
                assert(list@.take(i + 1).drop_last() =~= list@.take(i as int));
                if contains_name(known, &list[i].service) {
                    r.push(list[i].service.clone());
                }
                i = i + 1;
            }
            assert(list@.take(list@.len() as int) =~= list@);
            r
        },
    }
}

/// Every spawn a supervisor asks for comes right after the announcement that
/// the service started.
pub proof fn law_announce_before_spawn(sup: Supervisor, outcome: Outcome)
    requires
        sup.wf(),
    ensures
        forall|i: int|
            0 <= i < sup.spec_step(outcome).1.len() && #[trigger] sup.spec_step(outcome).1[i]
                is Spawn ==> i >= 1 && sup.spec_step(outcome).1[i - 1] == (Effect::Emit {
                event: Event::ServiceStarted { service: sup.name },
            }),
{
}

/// A service whose restart policy is not `always` is let go after its
/// first exit: the supervisor finishes and asks to stop.
pub proof fn law_single_run_finishes_after_exit(sup: Supervisor, outcome: Outcome)
    requires
        sup.wf(),
        !sup.restart_always,
        sup.phase == Phase::Running,
        outcome == Outcome::Exited || outcome == Outcome::WaitFailed,
    ensures
        sup.spec_step(outcome).0 == Phase::Finished,
        sup.spec_step(outcome).1.last() == Effect::Stop,
{
}

/// Under the `always` policy a supervisor never finishes: whatever happens,
/// it ends up starting the service again.
pub proof fn law_always_never_finishes(sup: Supervisor, outcome: Outcome)
    requires
        sup.wf(),
        sup.restart_always,
        sup.phase != Phase::Finished,
    ensures
        sup.spec_step(outcome).0 != Phase::Finished,
        !sup.spec_step(outcome).1.contains(Effect::Stop),
{
    let effects = sup.spec_step(outcome).1;
    assert forall|i: int| 0 <= i < effects.len() implies effects[i] != Effect::Stop by {}
}

/// A finished supervisor stays finished and asks for nothing more.
pub proof fn law_finished_is_final(sup: Supervisor, outcome: Outcome)
    requires
        sup.phase == Phase::Finished,
    ensures
        sup.spec_step(outcome).0 == Phase::Finished,
        sup.spec_step(outcome).1.len() == 0,
{
}

/// A failed spawn is reported with its exit code and retried after the
/// restart delay, whatever the restart policy.
pub proof fn law_spawn_failure_retries(sup: Supervisor)
    requires
        sup.phase == Phase::Launching,
    ensures
        sup.spec_step(Outcome::SpawnFailed).0 == Phase::BackingOff,
        sup.spec_step(Outcome::SpawnFailed).1 == seq![
            exit_event(sup.name, SPAWN_FAILED_CODE),
            Effect::Sleep { ms: RESTART_DELAY_MS },
        ],
{
}

/// Once the delay has passed, the service is announced and spawned again.
pub proof fn law_backoff_relaunches(sup: Supervisor)
    requires
        sup.phase == Phase::BackingOff,
    ensures
        sup.spec_step(Outcome::Slept) == (Phase::Launching, launch_effects(sup.name)),
{
}

/// Dependencies are awaited one after the other, in order, and the service
/// is announced and spawned only once the last of them is healthy.
pub proof fn law_dependencies_before_launch(sup: Supervisor, outcome: Outcome)
    requires
        sup.wf(),
        sup.phase matches Phase::AwaitingDependency { .. },
    ensures
        ({
            let index = sup.phase->index;
            let (next, effects) = sup.spec_step(outcome);
            &&& outcome != Outcome::DependencyHealthy ==> next == sup.phase && effects.len() == 0
            &&& outcome == Outcome::DependencyHealthy && index + 1 < sup.awaited@.len() ==> next
                == (Phase::AwaitingDependency { index: (index + 1) as usize }) && effects == seq![
                Effect::AwaitHealthy { dependency: sup.awaited@[index + 1] },
            ]
            &&& outcome == Outcome::DependencyHealthy && index + 1 == sup.awaited@.len() ==> next
                == Phase::Launching && effects == launch_effects(sup.name)
        }),
{
}

/// A normal exit is not reported as an event; a failed wait is, with its
/// own exit code.
pub proof fn law_only_failed_waits_are_reported(sup: Supervisor)
    requires
        sup.phase == Phase::Running,
    ensures
        forall|i: int|
            0 <= i < sup.spec_step(Outcome::Exited).1.len() ==> !(#[trigger] sup.spec_step(
                Outcome::Exited,
            ).1[i] is Emit),
        sup.spec_step(Outcome::WaitFailed).1[0] == exit_event(sup.name, WAIT_FAILED_CODE),
{
}

/// Once spawned, a service's output is captured and, exactly when the
/// service has a health check, the check is started, whatever the restart
/// policy.
pub proof fn law_spawned_service_is_probed_iff_checked(sup: Supervisor)
    requires
        sup.phase == Phase::Launching,
    ensures
        sup.spec_step(Outcome::Spawned).0 == Phase::Running,
        sup.spec_step(Outcome::Spawned).1[0] == Effect::CaptureOutput,
        sup.has_healthcheck ==> sup.spec_step(Outcome::Spawned).1 == seq![
            Effect::CaptureOutput,
            Effect::StartHealthcheck,
        ],
        !sup.has_healthcheck ==> sup.spec_step(Outcome::Spawned).1 == seq![Effect::CaptureOutput],
        sup.spec_step(Outcome::Spawned).1.contains(Effect::StartHealthcheck) <==> sup.has_healthcheck,
{
    let effects = sup.spec_step(Outcome::Spawned).1;
    if sup.has_healthcheck {
        assert(effects[1] == Effect::StartHealthcheck);
    } else {
        assert forall|i: int| 0 <= i < effects.len() implies effects[i] != Effect::StartHealthcheck by {}
    }
}

/// Two supervisors that differ only in their restart policy do the same on
/// a spawn: the policy matters only once the service has stopped.
pub proof fn law_spawn_ignores_restart_policy(a: Supervisor, b: Supervisor)
    requires
        a.phase == Phase::Launching,
        b.phase == Phase::Launching,
        a.has_healthcheck == b.has_healthcheck,
    ensures
        a.spec_step(Outcome::Spawned) == b.spec_step(Outcome::Spawned),
{
}

} // verus!
