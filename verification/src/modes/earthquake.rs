use vstd::prelude::*;

use crate::systems::types::PriorityLevel;

verus! {

/// MedEvac route surveyed in earthquake mode.
pub const EARTHQUAKE_MEDEVAC_ROUTE: &'static str = "Metropolitan-Main-Boulevard";

/// The earthquake thresholds that the IMU and optical readings crossed.
#[derive(Debug, Clone, Copy, PartialEq, Eq, Structural)]
pub struct EarthquakeObservations {
    /// Structural collapse density above 50 %.
    pub collapse_above_50pct: bool,
    /// Structural collapse density above 60 %.
    pub collapse_above_60pct: bool,
    /// Debris blocks the road in the frame.
    pub debris_blockage_detected: bool,
    /// Road line continuity above 60 %.
    pub road_continuity_above_60pct: bool,
    /// The IMU registered a shock event.
    pub shock_event_detected: bool,
}

/// Sector that receives the heaviest rescue effort.
#[derive(Debug, Clone, Copy, PartialEq, Eq, Structural)]
pub enum UrgencySector {
    DowntownHospitalDistrict,
    SuburbanResidential,
}

impl UrgencySector {
    pub open spec fn label_of(self) -> Seq<char> {
        match self {
            UrgencySector::DowntownHospitalDistrict => "SECTOR-4-DOWNTOWN-HOSPITAL-DISTRICT"@,
            UrgencySector::SuburbanResidential => "SECTOR-2-SUBURBAN-RESIDENTIAL"@,
        }
    }

    pub fn label(&self) -> (s: &'static str)
        ensures
            s@ == self.label_of(),
            *self == UrgencySector::DowntownHospitalDistrict ==> s@ == "SECTOR-4-DOWNTOWN-HOSPITAL-DISTRICT"@,
            *self == UrgencySector::SuburbanResidential ==> s@ == "SECTOR-2-SUBURBAN-RESIDENTIAL"@,
    {
        match self {
            UrgencySector::DowntownHospitalDistrict => "SECTOR-4-DOWNTOWN-HOSPITAL-DISTRICT",
            UrgencySector::SuburbanResidential => "SECTOR-2-SUBURBAN-RESIDENTIAL",
        }
    }
}

/// The decisions of an earthquake assessment.
#[derive(Debug, Clone, Copy, PartialEq, Eq, Structural)]
pub struct EarthquakeTriage {
    pub medevac_artery_clear: bool,
    pub priority: PriorityLevel,
    pub urgency_sector: UrgencySector,
}

/// The MedEvac artery is clear without debris and above 60 % road continuity;
/// the incident is critical above 50 % collapse, with a blocked artery or after
/// a shock event; rescue goes downtown above 60 % collapse.
pub open spec fn earthquake_triage_of(o: EarthquakeObservations) -> EarthquakeTriage {
    let clear = !o.debris_blockage_detected && o.road_continuity_above_60pct;
    EarthquakeTriage {
        medevac_artery_clear: clear,
        priority: if o.collapse_above_50pct || !clear || o.shock_event_detected {
            PriorityLevel::P1Critical
        } else {
            PriorityLevel::P2High
        },
        urgency_sector: if o.collapse_above_60pct {
            UrgencySector::DowntownHospitalDistrict
        } else {
            UrgencySector::SuburbanResidential
        },
    }
}

pub fn triage_earthquake(o: EarthquakeObservations) -> (t: EarthquakeTriage)
    ensures
        t == earthquake_triage_of(o),
        t.medevac_artery_clear <==> (!o.debris_blockage_detected
            && o.road_continuity_above_60pct),
        (t.priority == PriorityLevel::P1Critical) <==> (o.collapse_above_50pct
            || !t.medevac_artery_clear || o.shock_event_detected),
        t.priority == PriorityLevel::P1Critical || t.priority == PriorityLevel::P2High,
        (t.urgency_sector == UrgencySector::DowntownHospitalDistrict) <==> o.collapse_above_60pct,
{
    let medevac_artery_clear = !o.debris_blockage_detected && o.road_continuity_above_60pct;
    let priority = if o.collapse_above_50pct || !medevac_artery_clear || o.shock_event_detected {
        PriorityLevel::P1Critical
    } else {
        PriorityLevel::P2High
    };
    let urgency_sector = if o.collapse_above_60pct {
        UrgencySector::DowntownHospitalDistrict
    } else {
        UrgencySector::SuburbanResidential
    };
    EarthquakeTriage { medevac_artery_clear, priority, urgency_sector }
}

pub open spec fn earthquake_route_label_of(medevac_blocked: bool) -> Seq<char> {
    if medevac_blocked {
        "MEDEVAC_BLOCKED_RUBBLE"@
    } else {
        "MEDEVAC_CLEAR"@
    }
}

/// Route descriptor the platform reports in earthquake mode.
pub fn earthquake_route_label(medevac_blocked: bool) -> (s: &'static str)
    ensures
        s@ == earthquake_route_label_of(medevac_blocked),
        medevac_blocked ==> s@ == "MEDEVAC_BLOCKED_RUBBLE"@,
        !medevac_blocked ==> s@ == "MEDEVAC_CLEAR"@,
{
    if medevac_blocked {
        "MEDEVAC_BLOCKED_RUBBLE"
    } else {
        "MEDEVAC_CLEAR"
    }
}


/// A shock event, more than 50 % collapse, debris on the artery or a road at
/// most 60 % continuous each make the incident critical; only a clear artery
/// with neither shock nor heavy collapse is rated high rather than critical.
pub proof fn lemma_earthquake_critical_triggers(o: EarthquakeObservations)
    ensures
        o.shock_event_detected ==> earthquake_triage_of(o).priority == PriorityLevel::P1Critical,
        o.collapse_above_50pct ==> earthquake_triage_of(o).priority == PriorityLevel::P1Critical,
        o.debris_blockage_detected ==> !earthquake_triage_of(o).medevac_artery_clear
            && earthquake_triage_of(o).priority == PriorityLevel::P1Critical,
        !o.road_continuity_above_60pct ==> !earthquake_triage_of(o).medevac_artery_clear
            && earthquake_triage_of(o).priority == PriorityLevel::P1Critical,
        earthquake_triage_of(o).priority == PriorityLevel::P2High ==> !o.shock_event_detected
            && !o.collapse_above_50pct && earthquake_triage_of(o).medevac_artery_clear,
        o.collapse_above_60pct ==> earthquake_triage_of(o).urgency_sector
            == UrgencySector::DowntownHospitalDistrict,
{
}

} // verus!
