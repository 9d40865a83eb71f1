use vstd::prelude::*;

use crate::systems::types::PriorityLevel;

verus! {

/// Access route surveyed in landslide mode.
pub const LANDSLIDE_ACCESS_ROUTE: &'static str = "Canyon-Pass-Route-9";

/// The landslide thresholds that the IMU and optical readings crossed.
#[derive(Debug, Clone, Copy, PartialEq, Eq, Structural)]
pub struct LandslideObservations {
    /// Debris blocks the road in the frame.
    pub debris_blockage_detected: bool,
    /// Road line continuity below 20 %.
    pub road_continuity_below_20pct: bool,
    /// Terrain tilt above 22 degrees.
    pub tilt_above_22deg: bool,
    /// Terrain tilt above 10 degrees.
    pub tilt_above_10deg: bool,
    /// The IMU flags the slope as unstable.
    pub slope_instability_flag: bool,
}

/// Risk of a secondary slope failure.
#[derive(Debug, Clone, Copy, PartialEq, Eq, Structural)]
pub enum SecondaryFailureRisk {
    Critical,
    Elevated,
    Monitoring,
}

impl SecondaryFailureRisk {
    pub open spec fn label_of(self) -> Seq<char> {
        match self {
            SecondaryFailureRisk::Critical => "CRITICAL - ACTIVE CREEP DETECTED"@,
            SecondaryFailureRisk::Elevated => "ELEVATED RISK"@,
            SecondaryFailureRisk::Monitoring => "MONITORING"@,
        }
    }

    pub fn label(&self) -> (s: &'static str)
        ensures
            s@ == self.label_of(),
            *self == SecondaryFailureRisk::Critical ==> s@ == "CRITICAL - ACTIVE CREEP DETECTED"@,
            *self == SecondaryFailureRisk::Elevated ==> s@ == "ELEVATED RISK"@,
            *self == SecondaryFailureRisk::Monitoring ==> s@ == "MONITORING"@,
    {
        match self {
            SecondaryFailureRisk::Critical => "CRITICAL - ACTIVE CREEP DETECTED",
            SecondaryFailureRisk::Elevated => "ELEVATED RISK",
            SecondaryFailureRisk::Monitoring => "MONITORING",
        }
    }
}

/// The decisions of a landslide assessment.
#[derive(Debug, Clone, Copy, PartialEq, Eq, Structural)]
pub struct LandslideTriage {
    pub road_severed: bool,
    pub secondary_failure_risk: SecondaryFailureRisk,
    pub priority: PriorityLevel,
}

/// The road is severed by debris or below 20 % continuity; the secondary
/// failure risk is critical above 22 degrees of tilt and elevated above 10; the
/// incident is critical when the road is severed or the slope is unstable.
pub open spec fn landslide_triage_of(o: LandslideObservations) -> LandslideTriage {
    let severed = o.debris_blockage_detected || o.road_continuity_below_20pct;
    LandslideTriage {
        road_severed: severed,
        secondary_failure_risk: if o.tilt_above_22deg {
            SecondaryFailureRisk::Critical
        } else if o.tilt_above_10deg {
            SecondaryFailureRisk::Elevated
        } else {
            SecondaryFailureRisk::Monitoring
        },
        priority: if severed || o.slope_instability_flag {
            PriorityLevel::P1Critical
        } else {
            PriorityLevel::P2High
        },
    }
}

pub fn triage_landslide(o: LandslideObservations) -> (t: LandslideTriage)
    ensures
        t == landslide_triage_of(o),
        t.road_severed <==> (o.debris_blockage_detected || o.road_continuity_below_20pct),
        (t.secondary_failure_risk == SecondaryFailureRisk::Critical) <==> o.tilt_above_22deg,
        (t.secondary_failure_risk == SecondaryFailureRisk::Elevated) <==> (!o.tilt_above_22deg
            && o.tilt_above_10deg),
        (t.secondary_failure_risk == SecondaryFailureRisk::Monitoring) <==> (!o.tilt_above_22deg
            && !o.tilt_above_10deg),
        (t.priority == PriorityLevel::P1Critical) <==> (t.road_severed
            || o.slope_instability_flag),
        t.priority == PriorityLevel::P1Critical || t.priority == PriorityLevel::P2High,
{
    let road_severed = o.debris_blockage_detected || o.road_continuity_below_20pct;
    let secondary_failure_risk = if o.tilt_above_22deg {
        SecondaryFailureRisk::Critical
    } else if o.tilt_above_10deg {
        SecondaryFailureRisk::Elevated
    } else {
        SecondaryFailureRisk::Monitoring
    };
    let priority = if road_severed || o.slope_instability_flag {
        PriorityLevel::P1Critical
    } else {
        PriorityLevel::P2High
    };
    LandslideTriage { road_severed, secondary_failure_risk, priority }
}

pub open spec fn landslide_route_label_of(road_severed: bool) -> Seq<char> {
    if road_severed {
        "ROAD_SEVERED_BY_DEBRIS"@
    } else {
        "PASSABLE"@
    }
}

/// Route descriptor the platform reports in landslide mode.
pub fn landslide_route_label(road_severed: bool) -> (s: &'static str)
    ensures
        s@ == landslide_route_label_of(road_severed),
        road_severed ==> s@ == "ROAD_SEVERED_BY_DEBRIS"@,
        !road_severed ==> s@ == "PASSABLE"@,
{
    if road_severed {
        "ROAD_SEVERED_BY_DEBRIS"
    } else {
        "PASSABLE"
    }
}


/// Tilt above 22 degrees means critical secondary-failure risk, whatever else
/// was seen; the risk is elevated only between 10 and 22 degrees; debris or a
/// road below 20 % severs the road and makes the incident critical.
pub proof fn lemma_landslide_risk_levels(o: LandslideObservations)
    ensures
        o.tilt_above_22deg ==> landslide_triage_of(o).secondary_failure_risk
            == SecondaryFailureRisk::Critical,
        landslide_triage_of(o).secondary_failure_risk == SecondaryFailureRisk::Elevated ==> (
        !o.tilt_above_22deg && o.tilt_above_10deg),
        landslide_triage_of(o).secondary_failure_risk == SecondaryFailureRisk::Monitoring ==> (
        !o.tilt_above_22deg && !o.tilt_above_10deg),
        (o.debris_blockage_detected || o.road_continuity_below_20pct) ==> {
            let t = landslide_triage_of(o);
            t.road_severed && t.priority == PriorityLevel::P1Critical
        },
        o.slope_instability_flag ==> landslide_triage_of(o).priority == PriorityLevel::P1Critical,
{
}

} // verus!
