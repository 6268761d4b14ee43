use vstd::prelude::*;

use crate::text::{contains_name, names_contain};

verus! {

/// A whole broadcast setup: the topology, its nodes and the services they run.
#[derive(Debug, Clone)]
pub struct Broadcast {
    pub topology: Topology,
    pub node: Vec<Node>,
    pub service: Vec<Service>,
}

#[derive(Debug, Clone)]
pub struct Topology {
    pub name: String,
}

/// A machine of the cluster, with the agent that runs on it.
#[derive(Debug, Clone)]
pub struct Node {
    pub name: String,
    pub host: String,
    pub agent_port: u16,
    pub services: Vec<String>,
    pub deploy_user: Option<String>,
    pub deploy_path: Option<String>,
}

/// A supervised program.
#[derive(Debug, Clone)]
pub struct Service {
    pub name: String,
    pub command: String,
    pub args: Vec<String>,
    pub restart: String,
    pub healthcheck: Option<HealthCheck>,
    pub depends_on: Option<Vec<Dependency>>,
    pub deploy: Option<ServiceDeploy>,
}

/// A service that must be healthy before another one starts.
#[derive(Debug, Clone)]
pub struct Dependency {
    pub service: String,
    pub node: String,
}

#[derive(Debug, Clone)]
pub struct ServiceDeploy {
    pub files: Vec<String>,
}

/// How a service is probed: exactly one of `http` and `tcp` is meant to be set.
#[derive(Debug, Clone)]
pub struct HealthCheck {
    pub http: Option<String>,
    pub tcp: Option<String>,
    pub interval_ms: u64,
    pub timeout_ms: u64,
    pub startup_grace_s: Option<u64>,
}

/// The probe a health check describes, borrowing its target.
#[derive(Debug)]
pub enum HealthCheckKind<'a> {
    Http(&'a str),
    Tcp(&'a str),
}

/// Why a health check describes no probe.
#[derive(Debug, Clone, Copy, PartialEq, Eq)]
pub enum HealthCheckError {
    /// Both `http` and `tcp` are set.
    BothProbes,
    /// Neither `http` nor `tcp` is set.
    NoProbe,
}

impl HealthCheckError {
    /// The text that explains the error to the operator.
    pub fn message(&self) -> (r: &'static str)
        ensures
            self is BothProbes ==> r@ == "healthcheck must be http or tcp, not both"@,
            self is NoProbe ==> r@ == "healthcheck must be http or tcp, indicate one of them"@,
    {
        match self {
            HealthCheckError::BothProbes => {
                let r = "healthcheck must be http or tcp, not both";
                proof {
                    reveal_strlit("healthcheck must be http or tcp, not both");
                }
                r
            },
            HealthCheckError::NoProbe => {
                let r = "healthcheck must be http or tcp, indicate one of them";
                proof {
                    reveal_strlit("healthcheck must be http or tcp, indicate one of them");
                }
                r
            },
        }
    }
}

/// The probe that a health check with these two targets describes.
pub open spec fn spec_probe_kind(http: Option<String>, tcp: Option<String>) -> Result<
    (bool, Seq<char>),
    HealthCheckError,
> {
    match (http, tcp) {
        (Some(url), None) => Ok((true, url@)),
        (None, Some(addr)) => Ok((false, addr@)),
        (Some(_), Some(_)) => Err(HealthCheckError::BothProbes),
        (None, None) => Err(HealthCheckError::NoProbe),
    }
}

impl HealthCheck {
    /// Which probe this health check runs: an HTTP request when only `http`
    /// is set, a TCP connect when only `tcp` is set, an error otherwise.
    pub fn kind(&self) -> (r: Result<HealthCheckKind<'_>, HealthCheckError>)
        ensures
            match r {
                Ok(HealthCheckKind::Http(url)) => spec_probe_kind(self.http, self.tcp) == Ok::<
                    (bool, Seq<char>),
                    HealthCheckError,
                >((true, url@)),
                Ok(HealthCheckKind::Tcp(addr)) => spec_probe_kind(self.http, self.tcp) == Ok::<
                    (bool, Seq<char>),
                    HealthCheckError,
                >((false, addr@)),
                Err(e) => spec_probe_kind(self.http, self.tcp) == Err::<
                    (bool, Seq<char>),
                    HealthCheckError,
                >(e),
            },
    {
        match (&self.http, &self.tcp) {
            (Some(url), None) => Ok(HealthCheckKind::Http(url.as_str())),
            (None, Some(addr)) => Ok(HealthCheckKind::Tcp(addr.as_str())),
            (Some(_), Some(_)) => Err(HealthCheckError::BothProbes),
            (None, None) => Err(HealthCheckError::NoProbe),
        }
    }
}

/// The services, among `services`, that `node` runs: those it names, in
/// the order of the configuration.
pub open spec fn spec_node_services(node: Node, services: Seq<Service>) -> Seq<Service> {
    services.filter(|s: Service| names_contain(node.services@, s.name@))
}

impl Broadcast {
    /// The services of the broadcast that `node` runs, in configuration order.
    pub fn services_of<'a>(&'a self, node: &Node) -> (r: Vec<&'a Service>)
        ensures
            r@.map_values(|s: &Service| *s) == spec_node_services(*node, self.service@),
    {
        let ghost keep = |s: Service| names_contain(node.services@, s.name@);
        let mut r: Vec<&'a Service> = Vec::new();
        let mut i: usize = 0;
        assert(self.service@.take(0) =~= Seq::<Service>::empty());
        while i < self.service.len()
            invariant
                i <= self.service@.len(),
                keep == (|s: Service| names_contain(node.services@, s.name@)),
                r@.map_values(|s: &Service| *s) == self.service@.take(i as int).filter(keep),
            decreases self.service@.len() - i,
        {
            let s = &self.service[i];
            assert(self.service@.take(i + 1).drop_last() =~= self.service@.take(i as int));
            reveal(Seq::filter);
            if contains_name(node.services.as_slice(), &s.name) {
                r.push(s);
            }
            assert(r@.map_values(|s: &Service| *s) =~= self.service@.take(i + 1).filter(keep));
            i = i + 1;
        }
        assert(self.service@.take(self.service@.len() as int) =~= self.service@);
        r
    }
}

/// A node runs exactly the configured services whose name equals one of the
/// names it lists: each picked service is configured and listed by its
/// exact name, every configured service that is listed is picked, and
/// nothing else is.
pub proof fn law_node_services_are_exactly_the_listed_ones(node: Node, services: Seq<Service>)
    ensures
        ({
            let picked = spec_node_services(node, services);
            &&& picked.len() <= services.len()
            &&& forall|i: int|
                0 <= i < picked.len() ==> services.contains(#[trigger] picked[i]) && exists|j: int|
                    0 <= j < node.services@.len() && node.services@[j]@ == picked[i].name@
            &&& forall|k: int, j: int|
                #![trigger node.services@[j], services[k]]
                0 <= k < services.len() && 0 <= j < node.services@.len()
                    && node.services@[j]@ == services[k].name@ ==> picked.contains(services[k])
        }),
{
    let keep = |s: Service| names_contain(node.services@, s.name@);
    let picked = services.filter(keep);
    services.filter_lemma(keep);
    assert forall|i: int| 0 <= i < picked.len() implies services.contains(#[trigger] picked[i])
        && exists|j: int| 0 <= j < node.services@.len() && node.services@[j]@ == picked[i].name@ by {
        services.lemma_filter_contains_rev(keep, picked[i]);
        assert(keep(picked[i]));
    }
    assert forall|k: int, j: int|
        #![trigger node.services@[j], services[k]]
        0 <= k < services.len() && 0 <= j < node.services@.len() && node.services@[j]@
            == services[k].name@ implies picked.contains(services[k]) by {
        assert(keep(services[k]));
        services.lemma_filter_contains(keep, k);
    }
}

} // verus!
