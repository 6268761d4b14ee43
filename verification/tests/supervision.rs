use icpc_live_infra_rs::agent::Event;
use icpc_live_infra_rs::config::{Dependency, HealthCheck, Service};
use icpc_live_infra_rs::state::ServiceHealth;
use icpc_live_infra_rs::supervisor::{
    dependencies_to_await, log_entry, log_path, Effect, Outcome, Phase, Supervisor, RESTART_DELAY_MS,
};

fn svc(name: &str, restart: &str, deps: Option<Vec<&str>>, hc: bool) -> Service {
    Service {
        name: name.to_string(),
        command: "/bin/true".to_string(),
        args: vec![],
        restart: restart.to_string(),
        healthcheck: if hc {
            Some(HealthCheck {
                http: Some("http://localhost/".to_string()),
                tcp: None,
                interval_ms: 100,
                timeout_ms: 50,
                startup_grace_s: None,
            })
        } else {
            None
        },
        depends_on: deps.map(|d| {
            d.into_iter()
                .map(|s| Dependency { service: s.to_string(), node: "n".to_string() })
                .collect()
        }),
        deploy: None,
    }
}

fn names(v: &[&str]) -> Vec<String> {
    v.iter().map(|s| s.to_string()).collect()
}

fn is_started(e: &Effect, name: &str) -> bool {
    matches!(e, Effect::Emit { event: Event::ServiceStarted { service } } if service == name)
}

fn is_exited(e: &Effect, name: &str, c: i32) -> bool {
    matches!(e, Effect::Emit { event: Event::ServiceExited { service, code: Some(x) } } if service == name && *x == c)
}

#[test]
fn no_dependencies_launches_at_once() {
    let (sup, effects) = Supervisor::start(&svc("web", "always", None, false), &names(&["web"]));
    assert_eq!(sup.phase, Phase::Launching);
    assert_eq!(effects.len(), 2);
    assert!(is_started(&effects[0], "web"));
    assert!(matches!(effects[1], Effect::Spawn));
}

#[test]
fn known_dependencies_are_awaited_in_order() {
    let s = svc("web", "always", Some(vec!["db", "ghost", "cache"]), false);
    let (mut sup, effects) = Supervisor::start(&s, &names(&["web", "cache", "db"]));
    assert_eq!(sup.awaited, names(&["db", "cache"]));
    assert_eq!(sup.phase, Phase::AwaitingDependency { index: 0 });
    assert!(matches!(&effects[..], [Effect::AwaitHealthy { dependency }] if dependency == "db"));
    let effects = sup.step(Outcome::DependencyHealthy);
    assert!(matches!(&effects[..], [Effect::AwaitHealthy { dependency }] if dependency == "cache"));
    let effects = sup.step(Outcome::DependencyHealthy);
    assert_eq!(sup.phase, Phase::Launching);
    assert!(is_started(&effects[0], "web"));
    assert!(matches!(effects[1], Effect::Spawn));
}

#[test]
fn unrelated_outcomes_while_waiting_do_nothing() {
    let s = svc("web", "always", Some(vec!["db"]), false);
    let (mut sup, _) = Supervisor::start(&s, &names(&["db"]));
    assert!(sup.step(Outcome::Spawned).is_empty());
    assert_eq!(sup.phase, Phase::AwaitingDependency { index: 0 });
}

#[test]
fn spawn_failure_reports_minus_one_and_retries() {
    let (mut sup, _) = Supervisor::start(&svc("web", "no", None, false), &[]);
    let effects = sup.step(Outcome::SpawnFailed);
    assert_eq!(sup.phase, Phase::BackingOff);
    assert!(is_exited(&effects[0], "web", -1));
    assert!(matches!(effects[1], Effect::Sleep { ms: 2000 }));
    let effects = sup.step(Outcome::Slept);
    assert_eq!(sup.phase, Phase::Launching);
    assert!(is_started(&effects[0], "web"));
}

#[test]
fn spawned_service_captures_output_and_starts_healthcheck() {
    let (mut sup, _) = Supervisor::start(&svc("web", "always", None, true), &[]);
    let effects = sup.step(Outcome::Spawned);
    assert_eq!(sup.phase, Phase::Running);
    assert!(matches!(&effects[..], [Effect::CaptureOutput, Effect::StartHealthcheck]));
    let (mut sup, _) = Supervisor::start(&svc("web", "always", None, false), &[]);
    let effects = sup.step(Outcome::Spawned);
    assert!(matches!(&effects[..], [Effect::CaptureOutput]));
}

#[test]
fn always_policy_restarts_after_exit() {
    let (mut sup, _) = Supervisor::start(&svc("web", "always", None, false), &[]);
    sup.step(Outcome::Spawned);
    let effects = sup.step(Outcome::Exited);
    assert_eq!(sup.phase, Phase::BackingOff);
    assert!(matches!(&effects[..], [Effect::Sleep { ms }] if *ms == RESTART_DELAY_MS));
}

#[test]
fn other_policy_stops_after_exit() {
    let (mut sup, _) = Supervisor::start(&svc("web", "on-failure", None, false), &[]);
    assert!(!sup.restart_always);
    sup.step(Outcome::Spawned);
    let effects = sup.step(Outcome::Exited);
    assert_eq!(sup.phase, Phase::Finished);
    assert!(matches!(&effects[..], [Effect::Stop]));
    assert!(sup.step(Outcome::Slept).is_empty());
    assert_eq!(sup.phase, Phase::Finished);
}

#[test]
fn wait_failure_reports_minus_two() {
    let (mut sup, _) = Supervisor::start(&svc("web", "always", None, false), &[]);
    sup.step(Outcome::Spawned);
    let effects = sup.step(Outcome::WaitFailed);
    assert!(is_exited(&effects[0], "web", -2));
    assert!(matches!(effects[1], Effect::Sleep { ms: 2000 }));
}

#[test]
fn restart_policy_is_case_sensitive() {
    let (sup, _) = Supervisor::start(&svc("web", "Always", None, false), &[]);
    assert!(!sup.restart_always);
}

#[test]
fn log_path_is_under_logs() {
    assert_eq!(log_path(&"web".to_string()), "logs/web.log");
}

#[test]
fn dependencies_to_await_without_list_is_empty() {
    assert!(dependencies_to_await(&None, &names(&["a"])).is_empty());
}

#[test]
fn health_of_probe() {
    assert_eq!(ServiceHealth::of_probe(true), ServiceHealth::Healthy);
    assert_eq!(ServiceHealth::of_probe(false), ServiceHealth::Unhealthy);
    assert!(ServiceHealth::Healthy.is_healthy());
    assert!(!ServiceHealth::Unknown.is_healthy());
}

#[test]
fn log_entry_is_stamped_line() {
    assert_eq!(log_entry("2024-01-01T00:00:00+00:00", "ready"), "[2024-01-01T00:00:00+00:00] ready\n");
}
