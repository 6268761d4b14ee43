use icpc_live_infra_rs::agent::Event;
use icpc_live_infra_rs::ctl::{agent_url, state_key, ServiceState, ServiceTable, RECONNECT_DELAY_SECS};

fn key(node: &str, service: &str) -> String {
    state_key(node, &service.to_string())
}

#[test]
fn key_is_node_slash_service() {
    assert_eq!(key("judge-1", "cds"), "judge-1/cds");
}

#[test]
fn started_service_is_running_with_defaults() {
    let mut t = ServiceTable::new();
    let k = t.handle_event("n1", Event::ServiceStarted { service: "web".to_string() });
    assert_eq!(k, Some("n1/web".to_string()));
    let s = t.get(&key("n1", "web")).unwrap();
    assert!(s.running);
    assert_eq!(s.healthy, None);
    assert_eq!(s.last_exit_code, None);
    assert_eq!(t.len(), 1);
}

#[test]
fn exit_records_code_and_stops() {
    let mut t = ServiceTable::new();
    t.handle_event("n1", Event::ServiceStarted { service: "web".to_string() });
    t.handle_event("n1", Event::ServiceExited { service: "web".to_string(), code: Some(3) });
    let s = t.get(&key("n1", "web")).unwrap();
    assert!(!s.running);
    assert_eq!(s.last_exit_code, Some(3));
}

#[test]
fn exit_of_unknown_service_files_it() {
    let mut t = ServiceTable::new();
    t.handle_event("n1", Event::ServiceExited { service: "x".to_string(), code: None });
    let s = t.get(&key("n1", "x")).unwrap();
    assert!(!s.running);
    assert_eq!(s.last_exit_code, None);
    assert_eq!(s.healthy, None);
}

#[test]
fn health_change_is_recorded_and_keeps_running() {
    let mut t = ServiceTable::new();
    t.handle_event("n1", Event::ServiceStarted { service: "web".to_string() });
    t.handle_event("n1", Event::HealthChanged { service: "web".to_string(), healthy: false });
    let s = t.get(&key("n1", "web")).unwrap();
    assert_eq!(s.healthy, Some(false));
    assert!(s.running);
    t.handle_event("n1", Event::HealthChanged { service: "web".to_string(), healthy: true });
    assert_eq!(t.get(&key("n1", "web")).unwrap().healthy, Some(true));
}

#[test]
fn log_lines_change_nothing() {
    let mut t = ServiceTable::new();
    let k = t.handle_event(
        "n1",
        Event::LogLine { service: "web".to_string(), line: "hello".to_string() },
    );
    assert_eq!(k, None);
    assert_eq!(t.len(), 0);
    assert!(t.get(&key("n1", "web")).is_none());
}

#[test]
fn events_touch_only_their_own_service() {
    let mut t = ServiceTable::new();
    t.handle_event("n1", Event::ServiceStarted { service: "web".to_string() });
    t.handle_event("n2", Event::ServiceStarted { service: "web".to_string() });
    t.handle_event("n2", Event::ServiceExited { service: "web".to_string(), code: Some(1) });
    let a = t.get(&key("n1", "web")).unwrap();
    assert!(a.running);
    assert_eq!(a.last_exit_code, None);
    assert_eq!(t.len(), 2);
}

#[test]
fn events_on_distinct_services_commute() {
    let run = |first: bool| {
        let mut t = ServiceTable::new();
        let e1 = || Event::ServiceExited { service: "a".to_string(), code: Some(2) };
        let e2 = || Event::HealthChanged { service: "b".to_string(), healthy: true };
        if first {
            t.handle_event("n", e1());
            t.handle_event("n", e2());
        } else {
            t.handle_event("n", e2());
            t.handle_event("n", e1());
        }
        (t.get(&key("n", "a")).unwrap(), t.get(&key("n", "b")).unwrap())
    };
    let (a1, b1) = run(true);
    let (a2, b2) = run(false);
    assert_eq!((a1.running, a1.last_exit_code, a1.healthy), (a2.running, a2.last_exit_code, a2.healthy));
    assert_eq!((b1.running, b1.last_exit_code, b1.healthy), (b2.running, b2.last_exit_code, b2.healthy));
}

#[test]
fn restart_keeps_exit_code() {
    let mut t = ServiceTable::new();
    t.handle_event("n", Event::ServiceExited { service: "s".to_string(), code: Some(137) });
    t.handle_event("n", Event::ServiceStarted { service: "s".to_string() });
    let s = t.get(&key("n", "s")).unwrap();
    assert!(s.running);
    assert_eq!(s.last_exit_code, Some(137));
}

#[test]
fn default_state_is_unknown_and_stopped() {
    let s = ServiceState::default();
    assert_eq!(s.healthy, None);
    assert!(!s.running);
    assert_eq!(s.last_exit_code, None);
}

#[test]
fn agent_url_is_websocket_address() {
    assert_eq!(agent_url("10.0.0.5", 7700), "ws://10.0.0.5:7700");
    assert_eq!(agent_url("h", 9), "ws://h:9");
    assert_eq!(RECONNECT_DELAY_SECS, 5);
}
