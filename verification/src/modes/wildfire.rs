use vstd::prelude::*;

use crate::systems::types::PriorityLevel;

verus! {

/// Evacuation route surveyed in wildfire mode.
pub const WILDFIRE_EVACUATION_ROUTE: &'static str = "Highway-102-Mountain-Pass";

/// The wildfire thresholds that the thermal and optical readings crossed.
#[derive(Debug, Clone, Copy, PartialEq, Eq, Structural)]
pub struct WildfireObservations {
    /// Hottest pixel above 120 C.
    pub core_above_120c: bool,
    /// Hottest pixel above 200 C.
    pub core_above_200c: bool,
    /// Road line continuity below 40 %.
    pub road_continuity_below_40pct: bool,
    /// Smoke occlusion above 60 %.
    pub smoke_above_60pct: bool,
    /// Fire intensity above 300 kW.
    pub intensity_above_300kw: bool,
}

/// State of the evacuation corridor.
#[derive(Debug, Clone, Copy, PartialEq, Eq, Structural)]
pub enum WildfireRouteStatus {
    Impassable,
    SmokeHazard,
    Open,
}

impl WildfireRouteStatus {
    pub open spec fn label_of(self) -> Seq<char> {
        match self {
            WildfireRouteStatus::Impassable => "IMPASSABLE - FIRE CUTOFF"@,
            WildfireRouteStatus::SmokeHazard => "SMOKE_HAZARD - ZERO_VISIBILITY"@,
            WildfireRouteStatus::Open => "OPEN - VIABLE EVACUATION CORRIDOR"@,
        }
    }

    pub fn label(&self) -> (s: &'static str)
        ensures
            s@ == self.label_of(),
            *self == WildfireRouteStatus::Impassable ==> s@ == "IMPASSABLE - FIRE CUTOFF"@,
            *self == WildfireRouteStatus::SmokeHazard ==> s@ == "SMOKE_HAZARD - ZERO_VISIBILITY"@,
            *self == WildfireRouteStatus::Open ==> s@ == "OPEN - VIABLE EVACUATION CORRIDOR"@,
    {
        match self {
            WildfireRouteStatus::Impassable => "IMPASSABLE - FIRE CUTOFF",
            WildfireRouteStatus::SmokeHazard => "SMOKE_HAZARD - ZERO_VISIBILITY",
            WildfireRouteStatus::Open => "OPEN - VIABLE EVACUATION CORRIDOR",
        }
    }
}

/// The decisions of a wildfire assessment.
#[derive(Debug, Clone, Copy, PartialEq, Eq, Structural)]
pub struct WildfireTriage {
    pub route_blocked: bool,
    pub route_status: WildfireRouteStatus,
    pub priority: PriorityLevel,
    pub threat_to_structures: bool,
}

/// The route is cut by heat above 120 C or a road below 40 % continuity; a
/// route still open is a smoke hazard above 60 % occlusion; the incident is
/// critical when the core passes 200 C or the route is cut; structures are
/// threatened above 300 kW.
pub open spec fn wildfire_triage_of(o: WildfireObservations) -> WildfireTriage {
    let blocked = o.core_above_120c || o.road_continuity_below_40pct;
    WildfireTriage {
        route_blocked: blocked,
        route_status: if blocked {
            WildfireRouteStatus::Impassable
        } else if o.smoke_above_60pct {
            WildfireRouteStatus::SmokeHazard
        } else {
            WildfireRouteStatus::Open
        },
        priority: if o.core_above_200c || blocked {
            PriorityLevel::P1Critical
        } else {
            PriorityLevel::P2High
        },
        threat_to_structures: o.intensity_above_300kw,
    }
}

pub fn triage_wildfire(o: WildfireObservations) -> (t: WildfireTriage)
    ensures
        t == wildfire_triage_of(o),
        t.route_blocked <==> (o.core_above_120c || o.road_continuity_below_40pct),
        (t.route_status == WildfireRouteStatus::Impassable) <==> t.route_blocked,
        (t.route_status == WildfireRouteStatus::SmokeHazard) <==> (!t.route_blocked
            && o.smoke_above_60pct),
        (t.route_status == WildfireRouteStatus::Open) <==> (!t.route_blocked
            && !o.smoke_above_60pct),
        (t.priority == PriorityLevel::P1Critical) <==> (t.route_blocked || o.core_above_200c),
        t.priority == PriorityLevel::P1Critical || t.priority == PriorityLevel::P2High,
        t.threat_to_structures <==> o.intensity_above_300kw,
{
    let route_blocked = o.core_above_120c || o.road_continuity_below_40pct;
    let route_status = if route_blocked {
        WildfireRouteStatus::Impassable
    } else if o.smoke_above_60pct {
        WildfireRouteStatus::SmokeHazard
    } else {
        WildfireRouteStatus::Open
    };
    let priority = if o.core_above_200c || route_blocked {
        PriorityLevel::P1Critical
    } else {
        PriorityLevel::P2High
    };
    WildfireTriage {
        route_blocked,
        route_status,
        priority,
        threat_to_structures: o.intensity_above_300kw,
    }
}


/// A road below 40 % continuity, or a core above 120 C, cuts the evacuation
/// route: the status is impassable and the incident critical. A core above
/// 200 C is critical even with the route open.
pub proof fn lemma_wildfire_cutoff_is_critical(o: WildfireObservations)
    ensures
        o.road_continuity_below_40pct ==> {
            let t = wildfire_triage_of(o);
            t.route_blocked && t.route_status == WildfireRouteStatus::Impassable && t.priority
                == PriorityLevel::P1Critical
        },
        o.core_above_120c ==> {
            let t = wildfire_triage_of(o);
            t.route_blocked && t.route_status == WildfireRouteStatus::Impassable && t.priority
                == PriorityLevel::P1Critical
        },
        o.core_above_200c ==> wildfire_triage_of(o).priority == PriorityLevel::P1Critical,
        wildfire_triage_of(o).route_status == WildfireRouteStatus::Open ==> !o.core_above_120c
            && !o.road_continuity_below_40pct && !o.smoke_above_60pct,
        wildfire_triage_of(o).route_status == WildfireRouteStatus::SmokeHazard ==> o.smoke_above_60pct,
{
}

/// Worse fire readings never make the assessment milder.
pub proof fn lemma_wildfire_monotone(a: WildfireObservations, b: WildfireObservations)
    requires
        a.core_above_120c ==> b.core_above_120c,
        a.core_above_200c ==> b.core_above_200c,
        a.road_continuity_below_40pct ==> b.road_continuity_below_40pct,
    ensures
        wildfire_triage_of(a).route_blocked ==> wildfire_triage_of(b).route_blocked,
        wildfire_triage_of(a).priority == PriorityLevel::P1Critical ==> wildfire_triage_of(
            b,
        ).priority == PriorityLevel::P1Critical,
{
}

} // verus!
