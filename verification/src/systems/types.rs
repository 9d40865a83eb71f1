use vstd::prelude::*;

verus! {

/// The four hazards the platform is built to survey.
#[derive(Debug, Clone, Copy, PartialEq, Eq, Hash, Structural)]
pub enum DisasterType {
    Wildfire,
    Flood,
    Landslide,
    Earthquake,
}

impl DisasterType {
    /// Wire and sensor-selection code: Wildfire 0, Flood 1, Landslide 2, Earthquake 3.
    pub open spec fn code_of(self) -> u8 {
        match self {
            DisasterType::Wildfire => 0,
            DisasterType::Flood => 1,
            DisasterType::Landslide => 2,
            DisasterType::Earthquake => 3,
        }
    }

    pub open spec fn label_of(self) -> Seq<char> {
        match self {
            DisasterType::Wildfire => "Wildfire"@,
            DisasterType::Flood => "Flood"@,
            DisasterType::Landslide => "Landslide"@,
            DisasterType::Earthquake => "Earthquake"@,
        }
    }

    pub fn code(&self) -> (c: u8)
        ensures
            c == self.code_of(),
            *self == DisasterType::Wildfire ==> c == 0,
            *self == DisasterType::Flood ==> c == 1,
            *self == DisasterType::Landslide ==> c == 2,
            *self == DisasterType::Earthquake ==> c == 3,
    {
        match self {
            DisasterType::Wildfire => 0,
            DisasterType::Flood => 1,
            DisasterType::Landslide => 2,
            DisasterType::Earthquake => 3,
        }
    }

    /// The display name of the hazard.
    pub fn label(&self) -> (s: &'static str)
        ensures
            s@ == self.label_of(),
            *self == DisasterType::Wildfire ==> s@ == "Wildfire"@,
            *self == DisasterType::Flood ==> s@ == "Flood"@,
            *self == DisasterType::Landslide ==> s@ == "Landslide"@,
            *self == DisasterType::Earthquake ==> s@ == "Earthquake"@,
    {
        match self {
            DisasterType::Wildfire => "Wildfire",
            DisasterType::Flood => "Flood",
            DisasterType::Landslide => "Landslide",
            DisasterType::Earthquake => "Earthquake",
        }
    }
}

/// Incident priority, most urgent first. The derived order follows the
/// declaration order, so `P1Critical` is the least value.
#[derive(Debug, Clone, Copy, PartialEq, Eq, PartialOrd, Ord, Hash, Structural)]
pub enum PriorityLevel {
    P1Critical,
    P2High,
    P3Medium,
    P4Low,
}

impl PriorityLevel {
    /// The priority number: 1 for critical up to 4 for low.
    pub open spec fn level_of(self) -> u8 {
        match self {
            PriorityLevel::P1Critical => 1,
            PriorityLevel::P2High => 2,
            PriorityLevel::P3Medium => 3,
            PriorityLevel::P4Low => 4,
        }
    }

    pub open spec fn label_of(self) -> Seq<char> {
        match self {
            PriorityLevel::P1Critical => "P1-CRITICAL"@,
            PriorityLevel::P2High => "P2-HIGH"@,
            PriorityLevel::P3Medium => "P3-MEDIUM"@,
            PriorityLevel::P4Low => "P4-LOW"@,
        }
    }

    pub fn level(&self) -> (n: u8)
        ensures
            n == self.level_of(),
            *self == PriorityLevel::P1Critical ==> n == 1,
            *self == PriorityLevel::P2High ==> n == 2,
            *self == PriorityLevel::P3Medium ==> n == 3,
            *self == PriorityLevel::P4Low ==> n == 4,
    {
        match self {
            PriorityLevel::P1Critical => 1,
            PriorityLevel::P2High => 2,
            PriorityLevel::P3Medium => 3,
            PriorityLevel::P4Low => 4,
        }
    }

    pub fn label(&self) -> (s: &'static str)
        ensures
            s@ == self.label_of(),
            *self == PriorityLevel::P1Critical ==> s@ == "P1-CRITICAL"@,
            *self == PriorityLevel::P2High ==> s@ == "P2-HIGH"@,
            *self == PriorityLevel::P3Medium ==> s@ == "P3-MEDIUM"@,
            *self == PriorityLevel::P4Low ==> s@ == "P4-LOW"@,
    {
        match self {
            PriorityLevel::P1Critical => "P1-CRITICAL",
            PriorityLevel::P2High => "P2-HIGH",
            PriorityLevel::P3Medium => "P3-MEDIUM",
            PriorityLevel::P4Low => "P4-LOW",
        }
    }
}

/// The platform's mission state.
#[derive(Debug, Clone, Copy, PartialEq, Eq, Hash, Structural)]
pub enum PlatformState {
    StandbyOnBase,
    DispatchedInTransit,
    OnStationScanning,
    AutonomousDegradedHold,
    ReturningToBase,
}

impl PlatformState {
    /// Wire code: the declaration position, 0 to 4.
    pub open spec fn code_of(self) -> u8 {
        match self {
            PlatformState::StandbyOnBase => 0,
            PlatformState::DispatchedInTransit => 1,
            PlatformState::OnStationScanning => 2,
            PlatformState::AutonomousDegradedHold => 3,
            PlatformState::ReturningToBase => 4,
        }
    }

    pub open spec fn label_of(self) -> Seq<char> {
        match self {
            PlatformState::StandbyOnBase => "STANDBY"@,
            PlatformState::DispatchedInTransit => "TRANSIT"@,
            PlatformState::OnStationScanning => "ON_STATION"@,
            PlatformState::AutonomousDegradedHold => "AUTONOMOUS_HOLD"@,
            PlatformState::ReturningToBase => "RETURNING"@,
        }
    }

    pub fn code(&self) -> (c: u8)
        ensures
            c == self.code_of(),
            *self == PlatformState::StandbyOnBase ==> c == 0,
            *self == PlatformState::DispatchedInTransit ==> c == 1,
            *self == PlatformState::OnStationScanning ==> c == 2,
            *self == PlatformState::AutonomousDegradedHold ==> c == 3,
            *self == PlatformState::ReturningToBase ==> c == 4,
    {
        match self {
            PlatformState::StandbyOnBase => 0,
            PlatformState::DispatchedInTransit => 1,
            PlatformState::OnStationScanning => 2,
            PlatformState::AutonomousDegradedHold => 3,
            PlatformState::ReturningToBase => 4,
        }
    }

    pub fn label(&self) -> (s: &'static str)
        ensures
            s@ == self.label_of(),
            *self == PlatformState::StandbyOnBase ==> s@ == "STANDBY"@,
            *self == PlatformState::DispatchedInTransit ==> s@ == "TRANSIT"@,
            *self == PlatformState::OnStationScanning ==> s@ == "ON_STATION"@,
            *self == PlatformState::AutonomousDegradedHold ==> s@ == "AUTONOMOUS_HOLD"@,
            *self == PlatformState::ReturningToBase ==> s@ == "RETURNING"@,
    {
        match self {
            PlatformState::StandbyOnBase => "STANDBY",
            PlatformState::DispatchedInTransit => "TRANSIT",
            PlatformState::OnStationScanning => "ON_STATION",
            PlatformState::AutonomousDegradedHold => "AUTONOMOUS_HOLD",
            PlatformState::ReturningToBase => "RETURNING",
        }
    }
}

/// Health flags of the on-board subsystems.
#[derive(Debug, Clone, Copy, PartialEq, Eq, Structural)]
pub struct SubsystemHealth {
    pub obc_ok: bool,
    pub eps_ok: bool,
    pub comms_ok: bool,
    pub gnss_lock: bool,
    pub optical_cam_ok: bool,
    pub thermal_sensor_ok: bool,
    pub ultrasonic_ok: bool,
    pub imu_ok: bool,
}

impl SubsystemHealth {
    pub open spec fn all_nominal(self) -> bool {
        &&& self.obc_ok
        &&& self.eps_ok
        &&& self.comms_ok
        &&& self.gnss_lock
        &&& self.optical_cam_ok
        &&& self.thermal_sensor_ok
        &&& self.ultrasonic_ok
        &&& self.imu_ok
    }
}

impl Default for SubsystemHealth {
    /// Every subsystem reports healthy.
    fn default() -> (h: Self)
        ensures
            h.all_nominal(),
    {
        SubsystemHealth {
            obc_ok: true,
            eps_ok: true,
            comms_ok: true,
            gnss_lock: true,
            optical_cam_ok: true,
            thermal_sensor_ok: true,
            ultrasonic_ok: true,
            imu_ok: true,
        }
    }
}

} // verus!
