use vstd::prelude::*;

verus! {

/// Load-shedding level of the electrical power subsystem.
#[derive(Debug, Clone, Copy, PartialEq, Eq, Structural)]
pub enum PowerState {
    Nominal,
    Conservation,
    CriticalShedding,
    DepletedEmergency,
}

impl PowerState {
    pub open spec fn camera_allowed(self) -> bool {
        self == PowerState::Nominal || self == PowerState::Conservation
    }

    /// The optical camera may run in the nominal and conservation levels (the
    /// latter at a reduced frame rate) and is shed below them.
    pub fn is_camera_allowed(&self) -> (allowed: bool)
        ensures
            allowed == self.camera_allowed(),
            allowed <==> (*self == PowerState::Nominal || *self == PowerState::Conservation),
            *self == PowerState::CriticalShedding ==> !allowed,
            *self == PowerState::DepletedEmergency ==> !allowed,
    {
        match self {
            PowerState::Nominal => true,
            PowerState::Conservation => true,
            PowerState::CriticalShedding | PowerState::DepletedEmergency => false,
        }
    }
}

} // verus!
