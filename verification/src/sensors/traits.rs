use vstd::prelude::*;

verus! {

/// Health of one sensor.
#[derive(Debug, Clone, Copy, PartialEq, Eq, Structural)]
pub enum SensorStatus {
    Healthy,
    Degraded,
    Offline,
}

impl SensorStatus {
    /// A sensor is operational only while it reports healthy.
    pub fn is_operational(&self) -> (ok: bool)
        ensures
            ok == (*self == SensorStatus::Healthy),
    {
        *self == SensorStatus::Healthy
    }
}

} // verus!
