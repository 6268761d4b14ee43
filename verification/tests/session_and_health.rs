use icpc_live_infra_rs::agent::{listen_port, DEFAULT_AGENT_PORT};
use icpc_live_infra_rs::config::{HealthCheck, Service};
use icpc_live_infra_rs::healthcheck::{HealthMonitor, MonitorEffect, MonitorInput, MonitorPhase};
use icpc_live_infra_rs::protocol::{AgentMessage, CtlMessage};
use icpc_live_infra_rs::session::{AgentSession, SessionEffect, SessionInput, SessionPhase};
use icpc_live_infra_rs::supervisor::SupervisorCommand;
use icpc_live_infra_rs::text::{decimal_string, parse_u16};

fn svc(name: &str) -> Service {
    Service {
        name: name.to_string(),
        command: "x".to_string(),
        args: vec![],
        restart: "always".to_string(),
        healthcheck: None,
        depends_on: None,
        deploy: None,
    }
}

fn deployed() -> AgentSession {
    let mut s = AgentSession::new();
    s.step(SessionInput::Message(CtlMessage::Deploy { services: vec![svc("a"), svc("b")] }));
    s
}

#[test]
fn deploy_starts_services_and_reports_ready() {
    let mut s = AgentSession::new();
    let effects = s.step(SessionInput::Message(CtlMessage::Deploy { services: vec![svc("a"), svc("b")] }));
    assert_eq!(s.phase, SessionPhase::Serving);
    assert_eq!(s.services, vec!["a".to_string(), "b".to_string()]);
    assert_eq!(effects.len(), 2);
    match &effects[0] {
        SessionEffect::StartServices { services } => assert_eq!(services.len(), 2),
        other => panic!("unexpected {:?}", other),
    }
    match &effects[1] {
        SessionEffect::Send { message: AgentMessage::Ready { node } } => assert_eq!(node, "agent"),
        other => panic!("unexpected {:?}", other),
    }
}

#[test]
fn messages_before_deploy_are_reported() {
    let mut s = AgentSession::new();
    let effects = s.step(SessionInput::Message(CtlMessage::Restart { service: "a".to_string() }));
    assert!(matches!(&effects[..], [SessionEffect::ReportUnexpected { message: CtlMessage::Restart { .. } }]));
    let effects = s.step(SessionInput::Malformed);
    assert!(matches!(&effects[..], [SessionEffect::ReportMalformed]));
    assert_eq!(s.phase, SessionPhase::AwaitingDeploy);
}

#[test]
fn restart_of_known_service_is_relayed() {
    let mut s = deployed();
    let effects = s.step(SessionInput::Message(CtlMessage::Restart { service: "b".to_string() }));
    assert!(matches!(&effects[..], [SessionEffect::Command { service, command: SupervisorCommand::Restart }] if service == "b"));
}

#[test]
fn restart_of_unknown_service_is_reported() {
    let mut s = deployed();
    let effects = s.step(SessionInput::Message(CtlMessage::Restart { service: "zz".to_string() }));
    assert!(matches!(&effects[..], [SessionEffect::ReportUnknownService { service }] if service == "zz"));
}

#[test]
fn stop_of_known_service_is_relayed_and_unknown_ignored() {
    let mut s = deployed();
    let effects = s.step(SessionInput::Message(CtlMessage::Stop { service: "a".to_string() }));
    assert!(matches!(&effects[..], [SessionEffect::Command { service, command: SupervisorCommand::Stop }] if service == "a"));
    let effects = s.step(SessionInput::Message(CtlMessage::Stop { service: "q".to_string() }));
    assert!(effects.is_empty());
}

#[test]
fn second_deploy_and_start_are_ignored() {
    let mut s = deployed();
    let effects = s.step(SessionInput::Message(CtlMessage::Deploy { services: vec![svc("c")] }));
    assert!(effects.is_empty());
    assert_eq!(s.services, vec!["a".to_string(), "b".to_string()]);
    let effects = s.step(SessionInput::Message(CtlMessage::Start { service: "a".to_string() }));
    assert!(effects.is_empty());
    assert!(s.step(SessionInput::Malformed).is_empty());
}

fn hc(http: Option<&str>, tcp: Option<&str>, grace: Option<u64>) -> HealthCheck {
    HealthCheck {
        http: http.map(|s| s.to_string()),
        tcp: tcp.map(|s| s.to_string()),
        interval_ms: 250,
        timeout_ms: 100,
        startup_grace_s: grace,
    }
}

#[test]
fn monitor_waits_grace_then_probes_http() {
    let (mut m, effects) = HealthMonitor::start(hc(Some("http://x/h"), None, Some(3)));
    assert_eq!(m.phase, MonitorPhase::Grace);
    assert!(matches!(&effects[..], [MonitorEffect::SleepSecs { secs: 3 }]));
    let effects = m.step(MonitorInput::Slept);
    assert_eq!(m.phase, MonitorPhase::Probing);
    assert!(matches!(&effects[..], [MonitorEffect::ProbeHttp { url, timeout_ms: 100 }] if url == "http://x/h"));
    let effects = m.step(MonitorInput::Probed { ok: false });
    assert_eq!(m.phase, MonitorPhase::Waiting);
    assert!(matches!(&effects[..], [MonitorEffect::Report { healthy: false }, MonitorEffect::SleepMillis { ms: 250 }]));
    let effects = m.step(MonitorInput::Slept);
    assert!(matches!(&effects[..], [MonitorEffect::ProbeHttp { .. }]));
}

#[test]
fn monitor_without_grace_probes_tcp_at_once() {
    let (m, effects) = HealthMonitor::start(hc(None, Some("db:5432"), None));
    assert_eq!(m.phase, MonitorPhase::Probing);
    assert!(matches!(&effects[..], [MonitorEffect::ProbeTcp { addr, timeout_ms: 100 }] if addr == "db:5432"));
}

#[test]
fn misconfigured_monitor_stops() {
    let (mut m, effects) = HealthMonitor::start(hc(Some("a"), Some("b"), Some(1)));
    assert!(matches!(&effects[..], [MonitorEffect::SleepSecs { secs: 1 }]));
    let effects = m.step(MonitorInput::Slept);
    assert_eq!(m.phase, MonitorPhase::Stopped);
    assert!(matches!(&effects[..], [MonitorEffect::Stop]));
    assert!(m.step(MonitorInput::Slept).is_empty());
    let (m, effects) = HealthMonitor::start(hc(None, None, None));
    assert_eq!(m.phase, MonitorPhase::Stopped);
    assert!(matches!(&effects[..], [MonitorEffect::Stop]));
}

#[test]
fn listen_port_reads_argument_or_defaults() {
    assert_eq!(listen_port(Some("8080")), 8080);
    assert_eq!(listen_port(Some("+9")), 9);
    assert_eq!(listen_port(Some("65536")), DEFAULT_AGENT_PORT);
    assert_eq!(listen_port(Some("abc")), 7700);
    assert_eq!(listen_port(None), 7700);
}

#[test]
fn parse_u16_matches_std() {
    for s in ["0", "007", "+1", "65535", "65536", "", "+", "-1", "12a", "99999999999", " 1"] {
        assert_eq!(parse_u16(s), s.parse::<u16>().ok(), "input {:?}", s);
    }
}

#[test]
fn decimal_string_matches_format() {
    for n in [0u64, 9, 10, 22, 7700, 65535, u64::MAX] {
        assert_eq!(decimal_string(n), format!("{}", n));
    }
}
