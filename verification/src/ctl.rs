use vstd::prelude::*;

use crate::agent::{Event, event_service};
use crate::text::{decimal, decimal_string};

verus! {

/// How long the controller waits before it reconnects to an agent.
pub const RECONNECT_DELAY_SECS: u64 = 5;

/// The WebSocket address of the agent at `host`, `port`: `ws://host:port`.
pub open spec fn spec_agent_url(host: Seq<char>, port: u16) -> Seq<char> {
    "ws://"@ + host + seq![':'] + decimal(port as nat)
}

/// The WebSocket address the controller connects to for a node's agent.
pub fn agent_url(host: &str, port: u16) -> (r: String)
    ensures
        r@ == spec_agent_url(host@, port),
{
    proof {
        reveal_strlit(":");
    }
    let port_text = decimal_string(port as u64);
    String::from_str("ws://").concat(host).concat(":").concat(port_text.as_str())
}

/// What the controller knows of one service on one node.
#[derive(Debug, Clone, Copy)]
pub struct ServiceState {
    pub healthy: Option<bool>,
    pub running: bool,
    pub last_exit_code: Option<i32>,
}

impl ServiceState {
    /// The state of a service that nothing has been heard of yet.
    pub open spec fn initial() -> ServiceState {
        ServiceState { healthy: None, running: false, last_exit_code: None }
    }
}

impl Default for ServiceState {
    fn default() -> (r: Self)
        ensures
            r == ServiceState::initial(),
    {
        ServiceState { healthy: None, running: false, last_exit_code: None }
    }
}

/// The key under which the controller files a service of a node: `node/service`.
pub open spec fn service_key(node: Seq<char>, service: Seq<char>) -> Seq<char> {
    node + seq!['/'] + service
}

/// The state filed under `key`, or the initial state when there is none.
pub open spec fn state_or_initial(table: Map<Seq<char>, ServiceState>, key: Seq<char>) -> ServiceState {
    if table.contains_key(key) {
        table[key]
    } else {
        ServiceState::initial()
    }
}

/// What an event from `node` does to the controller's table.
pub open spec fn spec_apply_event(
    table: Map<Seq<char>, ServiceState>,
    node: Seq<char>,
    event: Event,
) -> Map<Seq<char>, ServiceState> {
    match event {
        Event::ServiceStarted { service } => {
            let key = service_key(node, service@);
            table.insert(key, ServiceState { running: true, ..state_or_initial(table, key) })
        },
        Event::ServiceExited { service, code } => {
            let key = service_key(node, service@);
            table.insert(
                key,
                ServiceState { running: false, last_exit_code: code, ..state_or_initial(table, key) },
            )
        },
        Event::HealthChanged { service, healthy } => {
            let key = service_key(node, service@);
            table.insert(key, ServiceState { healthy: Some(healthy), ..state_or_initial(table, key) })
        },
        Event::LogLine { .. } => table,
    }
}

/// Whether the event changes the table at all.
pub open spec fn event_is_recorded(event: Event) -> bool {
    !(event is LogLine)
}

/// The controller's table of service states, keyed by `node/service`.
pub struct ServiceTable {
    entries: Vec<(String, ServiceState)>,
}

impl ServiceTable {
    /// No key is filed twice.
    pub closed spec fn wf(&self) -> bool {
        forall|i: int, j: int|
            0 <= i < j < self.entries@.len() ==> #[trigger] self.entries@[i].0@
                != #[trigger] self.entries@[j].0@
    }

    closed spec fn has_key(&self, key: Seq<char>) -> bool {
        exists|i: int| 0 <= i < self.entries@.len() && #[trigger] self.entries@[i].0@ == key
    }

    closed spec fn index_of(&self, key: Seq<char>) -> int {
        choose|i: int| 0 <= i < self.entries@.len() && #[trigger] self.entries@[i].0@ == key
    }

    pub closed spec fn spec_view(&self) -> Map<Seq<char>, ServiceState> {
        Map::new(|k: Seq<char>| self.has_key(k), |k: Seq<char>| self.entries@[self.index_of(k)].1)
    }

    proof fn lemma_lookup(&self, i: int)
        requires
            self.wf(),
            0 <= i < self.entries@.len(),
        ensures
            self@.contains_key(self.entries@[i].0@),
            self@[self.entries@[i].0@] == self.entries@[i].1,
    {
        let k = self.entries@[i].0@;
        assert(self.has_key(k));
        let j = self.index_of(k);
        assert(self.entries@[j].0@ == k);
        if i < j {
            assert(self.entries@[i].0@ != self.entries@[j].0@);
        } else if j < i {
            assert(self.entries@[j].0@ != self.entries@[i].0@);
        }
    }

    /// An empty table.
    pub fn new() -> (r: ServiceTable)
        ensures
            r.wf(),
            r@ == Map::<Seq<char>, ServiceState>::empty(),
    {
        let r = ServiceTable { entries: Vec::new() };
        assert(r@ =~= Map::<Seq<char>, ServiceState>::empty());
        r
    }

    /// The number of services filed.
    pub fn len(&self) -> (r: usize)
        requires
            self.wf(),
        ensures
            r == self@.len(),
    {
        proof {
            self.lemma_len();
        }
        self.entries.len()
    }

    proof fn lemma_len(&self)
        requires
            self.wf(),
        ensures
            self@.len() == self.entries@.len(),
            self@.dom().finite(),
        decreases self.entries@.len(),
    {
        let keys = self.entries@.map_values(|e: (String, ServiceState)| e.0@);
        assert forall|x: Seq<char>| #[trigger] self@.dom().contains(x) == keys.to_set().contains(
            x,
        ) by {
            if self.has_key(x) {
                let j = self.index_of(x);
                assert(keys[j] == x);
            }
            if keys.contains(x) {
                let j = choose|j: int| 0 <= j < keys.len() && keys[j] == x;
                assert(self.entries@[j].0@ == x);
            }
        }
        assert(self@.dom() =~= keys.to_set());
        assert(keys.no_duplicates()) by {
            assert forall|i: int, j: int|
                0 <= i < keys.len() && 0 <= j < keys.len() && i != j implies keys[i]
                != keys[j] by {
                if i < j {
                    assert(self.entries@[i].0@ != self.entries@[j].0@);
                } else {
                    assert(self.entries@[j].0@ != self.entries@[i].0@);
                }
            }
        }
        keys.unique_seq_to_set();
    }

    fn find(&self, key: &String) -> (r: Option<usize>)
        requires
            self.wf(),
        ensures
            match r {
                Some(i) => i < self.entries@.len() && self.entries@[i as int].0@ == key@,
                None => !self@.contains_key(key@),
            },
    {
        let mut i: usize = 0;
        while i < self.entries.len()
            invariant
                i <= self.entries@.len(),
                forall|j: int| 0 <= j < i ==> self.entries@[j].0@ != key@,
            decreases self.entries@.len() - i,
        {
            if self.entries[i].0 == *key {
                return Some(i);
            }
            i = i + 1;
        }
        None
    }

    /// The state filed under `key`, if any.
    pub fn get(&self, key: &String) -> (r: Option<ServiceState>)
        requires
            self.wf(),
        ensures
            r == (if self@.contains_key(key@) {
                Some(self@[key@])
            } else {
                None
            }),
    {
        match self.find(key) {
            Some(i) => {
                proof {
                    self.lemma_lookup(i as int);
                }
                Some(self.entries[i].1)
            },
            None => None,
        }
    }

    /// Files `state` under `key`, in place of what was there.
    pub fn insert(&mut self, key: String, state: ServiceState)
        requires
            old(self).wf(),
        ensures
            final(self).wf(),
            final(self)@ == old(self)@.insert(key@, state),
    {
        let ghost k = key@;
        match self.find(&key) {
            Some(i) => {
                let ghost pre = *self;
                self.entries.set(i, (key, state));
                proof {
                    assert forall|a: int, b: int|
                        0 <= a < b < self.entries@.len() implies #[trigger] self.entries@[a].0@
                        != #[trigger] self.entries@[b].0@ by {
                        assert(pre.entries@[a].0@ != pre.entries@[b].0@);
                    }
                    assert forall|x: Seq<char>| #[trigger]
                        self@.contains_key(x) == pre@.insert(k, state).contains_key(x) by {
                        if pre.has_key(x) {
                            let j = pre.index_of(x);
                            assert(self.entries@[j].0@ == x);
                        }
                        if self.has_key(x) {
                            let j = self.index_of(x);
                            if j != i {
                                assert(pre.entries@[j].0@ == x);
                            }
                        }
                    }
                    assert forall|x: Seq<char>| #[trigger]
                        self@.contains_key(x) implies self@[x] == pre@.insert(k, state)[x] by {
                        let j = self.index_of(x);
                        self.lemma_lookup(j);
                        if j != i {
                            pre.lemma_lookup(j);
                        }
                    }
                    assert(self@ =~= pre@.insert(k, state));
                }
            },
            None => {
                let ghost pre = *self;
                self.entries.push((key, state));
                proof {
                    let n = pre.entries@.len() as int;
                    assert forall|a: int, b: int|
                        0 <= a < b < self.entries@.len() implies #[trigger] self.entries@[a].0@
                        != #[trigger] self.entries@[b].0@ by {
                        if b == n {
                            pre.lemma_lookup(a);
                        } else {
                            assert(pre.entries@[a].0@ != pre.entries@[b].0@);
                        }
                    }
                    assert forall|x: Seq<char>| #[trigger]
                        self@.contains_key(x) == pre@.insert(k, state).contains_key(x) by {
                        if pre.has_key(x) {
                            let j = pre.index_of(x);
                            assert(self.entries@[j].0@ == x);
                        }
                        if x == k {
                            assert(self.entries@[n].0@ == x);
                        }
                        if self.has_key(x) {
                            let j = self.index_of(x);
                            if j != n {
                                assert(pre.entries@[j].0@ == x);
                            }
                        }
                    }
                    assert forall|x: Seq<char>| #[trigger]
                        self@.contains_key(x) implies self@[x] == pre@.insert(k, state)[x] by {
                        let j = self.index_of(x);
                        self.lemma_lookup(j);
                        if j != n {
                            pre.lemma_lookup(j);
                        }
                    }
                    assert(self@ =~= pre@.insert(k, state));
                }
            },
        }
    }

    /// Records an event that `node` reported, as the controller does for
    /// every event it receives. Returns the key of the service it recorded,
    /// or `None` for an event that changes nothing (a log line).
    pub fn handle_event(&mut self, node: &str, event: Event) -> (r: Option<String>)
        requires
            old(self).wf(),
        ensures
            final(self).wf(),
            final(self)@ == spec_apply_event(old(self)@, node@, event),
            match r {
                Some(k) => event_is_recorded(event) && k@ == service_key(node@, event_service(event)@),
                None => !event_is_recorded(event),
            },
    {
        match event {
            Event::ServiceStarted { service } => {
                let key = state_key(node, &service);
                let cur = self.state_or_default(&key);
                self.insert(key.clone(), ServiceState { running: true, ..cur });
                Some(key)
            },
            Event::ServiceExited { service, code } => {
                let key = state_key(node, &service);
                let cur = self.state_or_default(&key);
                self.insert(key.clone(), ServiceState { running: false, last_exit_code: code, ..cur });
                Some(key)
            },
            Event::HealthChanged { service, healthy } => {
                let key = state_key(node, &service);
                let cur = self.state_or_default(&key);
                self.insert(key.clone(), ServiceState { healthy: Some(healthy), ..cur });
                Some(key)
            },
            Event::LogLine { .. } => None,
        }
    }

    fn state_or_default(&self, key: &String) -> (r: ServiceState)
        requires
            self.wf(),
        ensures
            r == state_or_initial(self@, key@),
    {
        match self.get(key) {
            Some(s) => s,
            None => ServiceState::default(),
        }
    }
}

impl View for ServiceTable {
    type V = Map<Seq<char>, ServiceState>;

    closed spec fn view(&self) -> Map<Seq<char>, ServiceState> {
        self.spec_view()
    }
}

/// The key `node/service` under which the controller files a service.
pub fn state_key(node: &str, service: &String) -> (r: String)
    ensures
        r@ == service_key(node@, service@),
{
    let sep = "/";
    proof {
        reveal_strlit("/");
    }
    let r = String::from_str(node).concat(sep).concat(service.as_str());
    r
}

/// An event about one service leaves every other key of the table as it was.
pub proof fn law_event_touches_only_its_service(
    table: Map<Seq<char>, ServiceState>,
    node: Seq<char>,
    event: Event,
    other: Seq<char>,
)
    requires
        other != service_key(node, event_service(event)@),
    ensures
        spec_apply_event(table, node, event).contains_key(other) == table.contains_key(other),
        table.contains_key(other) ==> spec_apply_event(table, node, event)[other] == table[other],
{
}

/// What the controller reads back for a service after an event about it:
/// a start marks it running, an exit marks it stopped with the exit code,
/// a health change records the health, and the other fields stay as they
/// were (as a fresh service's, when it was not filed yet).
pub proof fn law_read_back_after_event(
    table: Map<Seq<char>, ServiceState>,
    node: Seq<char>,
    event: Event,
)
    requires
        event_is_recorded(event),
    ensures
        ({
            let key = service_key(node, event_service(event)@);
            let before = state_or_initial(table, key);
            let after = spec_apply_event(table, node, event);
            &&& after.contains_key(key)
            &&& match event {
                Event::ServiceStarted { .. } => after[key] == ServiceState { running: true, ..before },
                Event::ServiceExited { code, .. } => after[key] == ServiceState {
                    running: false,
                    last_exit_code: code,
                    ..before
                },
                Event::HealthChanged { healthy, .. } => after[key] == ServiceState {
                    healthy: Some(healthy),
                    ..before
                },
                Event::LogLine { .. } => false,
            }
        }),
{
}

/// Log lines leave the table unchanged.
pub proof fn law_log_lines_change_nothing(
    table: Map<Seq<char>, ServiceState>,
    node: Seq<char>,
    service: String,
    line: String,
)
    ensures
        spec_apply_event(table, node, Event::LogLine { service, line }) == table,
{
}

/// Events about different services can be recorded in either order.
pub proof fn law_events_on_distinct_services_commute(
    table: Map<Seq<char>, ServiceState>,
    node1: Seq<char>,
    event1: Event,
    node2: Seq<char>,
    event2: Event,
)
    requires
        service_key(node1, event_service(event1)@) != service_key(node2, event_service(event2)@),
    ensures
        spec_apply_event(spec_apply_event(table, node1, event1), node2, event2) == spec_apply_event(
            spec_apply_event(table, node2, event2),
            node1,
            event1,
        ),
{
    let k1 = service_key(node1, event_service(event1)@);
    let k2 = service_key(node2, event_service(event2)@);
    let a = spec_apply_event(spec_apply_event(table, node1, event1), node2, event2);
    let b = spec_apply_event(spec_apply_event(table, node2, event2), node1, event1);
    assert(state_or_initial(spec_apply_event(table, node1, event1), k2) == state_or_initial(
        table,
        k2,
    ));
    assert(state_or_initial(spec_apply_event(table, node2, event2), k1) == state_or_initial(
        table,
        k1,
    ));
    assert(a =~= b);
}

/// When a service exits and starts again, the controller sees it running
/// and still knows the code it last exited with.
pub proof fn law_restart_keeps_exit_code(
    table: Map<Seq<char>, ServiceState>,
    node: Seq<char>,
    service: String,
    code: Option<i32>,
)
    ensures
        ({
            let key = service_key(node, service@);
            let exited = spec_apply_event(table, node, Event::ServiceExited { service, code });
            let started = spec_apply_event(exited, node, Event::ServiceStarted { service });
            started[key] == ServiceState {
                running: true,
                last_exit_code: code,
                healthy: state_or_initial(table, key).healthy,
            }
        }),
{
}

} // verus!
