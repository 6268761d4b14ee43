use vstd::prelude::*;

verus! {

/// The health of a service as its supervisor publishes it.
#[derive(Debug, Clone, Copy, PartialEq, Eq)]
pub enum ServiceHealth {
    Unknown,
    Healthy,
    Unhealthy,
}

impl ServiceHealth {
    /// The health that a probe's outcome stands for.
    pub fn of_probe(ok: bool) -> (r: ServiceHealth)
        ensures
            r == (if ok {
                ServiceHealth::Healthy
            } else {
                ServiceHealth::Unhealthy
            }),
    {
        if ok {
            ServiceHealth::Healthy
        } else {
            ServiceHealth::Unhealthy
        }
    }

    /// Whether a dependent service may start: only once this one is healthy.
    pub fn is_healthy(&self) -> (r: bool)
        ensures
            r == (*self == ServiceHealth::Healthy),
    {
        match self {
            ServiceHealth::Healthy => true,
            _ => false,
        }
    }
}

} // verus!
