use vstd::prelude::*;

use crate::config::{spec_probe_kind, HealthCheck, HealthCheckKind};

verus! {

/// Where a health monitor stands.
#[derive(Debug, Clone, Copy, PartialEq, Eq)]
pub enum MonitorPhase {
    /// Waiting out the startup grace period.
    Grace,
    /// A probe is under way.
    Probing,
    /// Waiting out the interval before the next probe.
    Waiting,
    /// The check describes no probe; monitoring has ended.
    Stopped,
}

/// What came of the effects a monitor asked for last.
#[derive(Debug, Clone, Copy, PartialEq, Eq)]
pub enum MonitorInput {
    /// The requested delay has passed.
    Slept,
    /// The probe finished; `ok` tells whether the service answered in time.
    Probed { ok: bool },
}

/// Something a health monitor asks its runner to do.
#[derive(Debug)]
pub enum MonitorEffect {
    /// Wait this many seconds.
    SleepSecs { secs: u64 },
    /// Wait this many milliseconds.
    SleepMillis { ms: u64 },
    /// Send a GET request to `url`; success means a 2xx answer within the timeout.
    ProbeHttp { url: String, timeout_ms: u64 },
    /// Open a TCP connection to `addr` within the timeout.
    ProbeTcp { addr: String, timeout_ms: u64 },
    /// Report the outcome of the last probe.
    Report { healthy: bool },
    /// Stop monitoring.
    Stop,
}

/// The decisions of the monitor of one service's health.
#[derive(Debug)]
pub struct HealthMonitor {
    pub check: HealthCheck,
    pub phase: MonitorPhase,
}

/// The phase and effects with which a monitor probes, as `check` says:
/// an HTTP or a TCP probe of the configured target with the configured
/// timeout, or, when the check names no single target, stopping.
pub open spec fn spec_probe(check: HealthCheck, phase: MonitorPhase, effects: Seq<MonitorEffect>) -> bool {
    match spec_probe_kind(check.http, check.tcp) {
        Ok((is_http, target)) => {
            &&& phase == MonitorPhase::Probing
            &&& effects.len() == 1
            &&& if is_http {
                effects[0] matches MonitorEffect::ProbeHttp { url, timeout_ms } && url@ == target
                    && timeout_ms == check.timeout_ms
            } else {
                effects[0] matches MonitorEffect::ProbeTcp { addr, timeout_ms } && addr@ == target
                    && timeout_ms == check.timeout_ms
            }
        },
        Err(_) => phase == MonitorPhase::Stopped && effects == seq![MonitorEffect::Stop],
    }
}

/// What a monitor in `phase` does with `input`.
pub open spec fn spec_monitor_step(
    check: HealthCheck,
    phase: MonitorPhase,
    input: MonitorInput,
    next: MonitorPhase,
    effects: Seq<MonitorEffect>,
) -> bool {
    match (phase, input) {
        (MonitorPhase::Grace, MonitorInput::Slept) => spec_probe(check, next, effects),
        (MonitorPhase::Waiting, MonitorInput::Slept) => spec_probe(check, next, effects),
        (MonitorPhase::Probing, MonitorInput::Probed { ok }) => {
            &&& next == MonitorPhase::Waiting
            &&& effects == seq![
                MonitorEffect::Report { healthy: ok },
                MonitorEffect::SleepMillis { ms: check.interval_ms },
            ]
        },
        _ => next == phase && effects.len() == 0,
    }
}

impl HealthMonitor {
    /// A monitor for `check`: it first waits out the startup grace period,
    /// when there is one, then probes.
    pub fn start(check: HealthCheck) -> (r: (HealthMonitor, Vec<MonitorEffect>))
        ensures
            r.0.check == check,
            match check.startup_grace_s {
                Some(secs) => r.0.phase == MonitorPhase::Grace && r.1@ == seq![
                    MonitorEffect::SleepSecs { secs },
                ],
                None => spec_probe(check, r.0.phase, r.1@),
            },
    {
        match check.startup_grace_s {
            Some(secs) => {
                let mut effects = Vec::new();
                effects.push(MonitorEffect::SleepSecs { secs });
                (HealthMonitor { check, phase: MonitorPhase::Grace }, effects)
            },
            None => {
                let (phase, effects) = probe(&check);
                (HealthMonitor { check, phase }, effects)
            },
        }
    }

    /// Moves the monitor on by what came of its last effects, and returns
    /// the effects to perform next.
    pub fn step(&mut self, input: MonitorInput) -> (r: Vec<MonitorEffect>)
        ensures
            final(self).check == old(self).check,
            spec_monitor_step(old(self).check, old(self).phase, input, final(self).phase, r@),
    {
        match (self.phase, input) {
            (MonitorPhase::Grace, MonitorInput::Slept) => {
                let (phase, effects) = probe(&self.check);
                self.phase = phase;
                effects
            },
            (MonitorPhase::Waiting, MonitorInput::Slept) => {
                let (phase, effects) = probe(&self.check);
                self.phase = phase;
                effects
            },
            (MonitorPhase::Probing, MonitorInput::Probed { ok }) => {
                self.phase = MonitorPhase::Waiting;
                let mut effects = Vec::new();
                effects.push(MonitorEffect::Report { healthy: ok });
                effects.push(MonitorEffect::SleepMillis { ms: self.check.interval_ms });
                assert(effects@ =~= seq![
                    MonitorEffect::Report { healthy: ok },
                    MonitorEffect::SleepMillis { ms: self.check.interval_ms },
                ]);
                effects
            },
            _ => Vec::new(),
        }
    }
}

fn probe(check: &HealthCheck) -> (r: (MonitorPhase, Vec<MonitorEffect>))
    ensures
        spec_probe(*check, r.0, r.1@),
{
    let mut effects = Vec::new();
    match check.kind() {
        Ok(HealthCheckKind::Http(url)) => {
            effects.push(
                MonitorEffect::ProbeHttp { url: String::from_str(url), timeout_ms: check.timeout_ms },
            );
            (MonitorPhase::Probing, effects)
        },
        Ok(HealthCheckKind::Tcp(addr)) => {
            effects.push(
                MonitorEffect::ProbeTcp { addr: String::from_str(addr), timeout_ms: check.timeout_ms },
            );
            (MonitorPhase::Probing, effects)
        },
        Err(_) => {
            effects.push(MonitorEffect::Stop);
            (MonitorPhase::Stopped, effects)
        },
    }
}

/// A check that names no single target stops monitoring at its first
/// probe, and a stopped monitor stays stopped and does nothing.
pub proof fn law_misconfigured_check_stops(
    check: HealthCheck,
    phase: MonitorPhase,
    input: MonitorInput,
    next: MonitorPhase,
    effects: Seq<MonitorEffect>,
)
    requires
        spec_probe_kind(check.http, check.tcp) is Err,
        phase != MonitorPhase::Probing,
        spec_monitor_step(check, phase, input, next, effects),
    ensures
        next == phase || next == MonitorPhase::Stopped,
        forall|i: int|
            0 <= i < effects.len() ==> !(#[trigger] effects[i] is ProbeHttp) && !(
            effects[i] is ProbeTcp),
        phase == MonitorPhase::Stopped ==> next == MonitorPhase::Stopped && effects.len() == 0,
{
}

/// Every probe's outcome is reported, and the next probe comes only after
/// the configured interval.
pub proof fn law_report_then_wait(check: HealthCheck, ok: bool, next: MonitorPhase, effects: Seq<MonitorEffect>)
    requires
        spec_monitor_step(check, MonitorPhase::Probing, MonitorInput::Probed { ok }, next, effects),
    ensures
        effects[0] == (MonitorEffect::Report { healthy: ok }),
        effects.last() == (MonitorEffect::SleepMillis { ms: check.interval_ms }),
        next == MonitorPhase::Waiting,
{
}

/// The probe a check with a single target asks for: a GET of its URL, or a
/// TCP connect to its address, with its timeout.
pub open spec fn is_probe_of(check: HealthCheck, effect: MonitorEffect) -> bool {
    match (check.http, check.tcp) {
        (Some(url), None) => effect matches MonitorEffect::ProbeHttp { url: u, timeout_ms }
            && u@ == url@ && timeout_ms == check.timeout_ms,
        (None, Some(addr)) => effect matches MonitorEffect::ProbeTcp { addr: a, timeout_ms }
            && a@ == addr@ && timeout_ms == check.timeout_ms,
        _ => false,
    }
}

/// After each interval, a monitor whose check names a single target probes
/// that target again, exactly as after the grace period.
pub proof fn law_waiting_monitor_probes_again(
    check: HealthCheck,
    from: MonitorPhase,
    next: MonitorPhase,
    effects: Seq<MonitorEffect>,
)
    requires
        from == MonitorPhase::Waiting || from == MonitorPhase::Grace,
        check.http.is_some() != check.tcp.is_some(),
        spec_monitor_step(check, from, MonitorInput::Slept, next, effects),
    ensures
        next == MonitorPhase::Probing,
        effects.len() == 1,
        is_probe_of(check, effects[0]),
{
}

/// Probing goes on for ever: slept, probed, reported, slept again; every
/// probe's outcome is reported, whatever it was.
pub proof fn law_every_probe_is_reported(
    check: HealthCheck,
    ok: bool,
    n1: MonitorPhase,
    e1: Seq<MonitorEffect>,
    n2: MonitorPhase,
    e2: Seq<MonitorEffect>,
    n3: MonitorPhase,
    e3: Seq<MonitorEffect>,
)
    requires
        check.http.is_some() != check.tcp.is_some(),
        spec_monitor_step(check, MonitorPhase::Waiting, MonitorInput::Slept, n1, e1),
        spec_monitor_step(check, n1, MonitorInput::Probed { ok }, n2, e2),
        spec_monitor_step(check, n2, MonitorInput::Slept, n3, e3),
    ensures
        e2 == seq![
            MonitorEffect::Report { healthy: ok },
            MonitorEffect::SleepMillis { ms: check.interval_ms },
        ],
        n3 == MonitorPhase::Probing,
        e3.len() == 1 && is_probe_of(check, e3[0]),
{
}

} // verus!
