use vstd::prelude::*;

use crate::systems::types::PriorityLevel;

verus! {

/// Transport artery surveyed in flood mode.
pub const FLOOD_TRANSPORT_ARTERY: &'static str = "Valley-River-Crossing-Bridge";

/// The flood thresholds that the ultrasonic and optical readings crossed.
#[derive(Debug, Clone, Copy, PartialEq, Eq, Structural)]
pub struct FloodObservations {
    /// Water surface closer than 50 cm to the bridge sensor.
    pub surface_within_50cm: bool,
    /// Water covering more than 65 % of the frame.
    pub water_coverage_above_65pct: bool,
    /// Road line continuity above 50 %.
    pub road_continuity_above_50pct: bool,
    /// Water rising faster than 40 cm per minute.
    pub rise_above_40cm_per_min: bool,
}

/// The decisions of a flood assessment.
#[derive(Debug, Clone, Copy, PartialEq, Eq, Structural)]
pub struct FloodTriage {
    pub bridge_inundated: bool,
    pub evacuation_route_passable: bool,
    pub priority: PriorityLevel,
}

/// The bridge is inundated when the surface is within 50 cm or water covers
/// more than 65 % of the frame; the evacuation route is passable when the
/// bridge is dry and the road more than 50 % continuous; the incident is
/// critical when the bridge is inundated or water rises faster than 40 cm/min.
pub open spec fn flood_triage_of(o: FloodObservations) -> FloodTriage {
    let inundated = o.surface_within_50cm || o.water_coverage_above_65pct;
    FloodTriage {
        bridge_inundated: inundated,
        evacuation_route_passable: !inundated && o.road_continuity_above_50pct,
        priority: if inundated || o.rise_above_40cm_per_min {
            PriorityLevel::P1Critical
        } else {
            PriorityLevel::P2High
        },
    }
}

pub fn triage_flood(o: FloodObservations) -> (t: FloodTriage)
    ensures
        t == flood_triage_of(o),
        t.bridge_inundated <==> (o.surface_within_50cm || o.water_coverage_above_65pct),
        t.evacuation_route_passable <==> (!t.bridge_inundated && o.road_continuity_above_50pct),
        (t.priority == PriorityLevel::P1Critical) <==> (t.bridge_inundated
            || o.rise_above_40cm_per_min),
        t.priority == PriorityLevel::P1Critical || t.priority == PriorityLevel::P2High,
{
    let bridge_inundated = o.surface_within_50cm || o.water_coverage_above_65pct;
    let evacuation_route_passable = !bridge_inundated && o.road_continuity_above_50pct;
    let priority = if bridge_inundated || o.rise_above_40cm_per_min {
        PriorityLevel::P1Critical
    } else {
        PriorityLevel::P2High
    };
    FloodTriage { bridge_inundated, evacuation_route_passable, priority }
}

pub open spec fn flood_route_label_of(bridge_inundated: bool) -> Seq<char> {
    if bridge_inundated {
        "BRIDGE_INUNDATED_IMPASSABLE"@
    } else {
        "PASSABLE"@
    }
}

/// Route descriptor the platform reports in flood mode.
pub fn flood_route_label(bridge_inundated: bool) -> (s: &'static str)
    ensures
        s@ == flood_route_label_of(bridge_inundated),
        bridge_inundated ==> s@ == "BRIDGE_INUNDATED_IMPASSABLE"@,
        !bridge_inundated ==> s@ == "PASSABLE"@,
{
    if bridge_inundated {
        "BRIDGE_INUNDATED_IMPASSABLE"
    } else {
        "PASSABLE"
    }
}


/// Water within 50 cm of the bridge sensor, or covering more than 65 % of the
/// frame, means the bridge is under water: the evacuation route is closed and
/// the incident is critical. A rise faster than 40 cm/min alone is critical too.
pub proof fn lemma_flood_inundation_is_critical(o: FloodObservations)
    ensures
        o.surface_within_50cm ==> {
            let t = flood_triage_of(o);
            t.bridge_inundated && !t.evacuation_route_passable && t.priority
                == PriorityLevel::P1Critical
        },
        o.water_coverage_above_65pct ==> {
            let t = flood_triage_of(o);
            t.bridge_inundated && !t.evacuation_route_passable && t.priority
                == PriorityLevel::P1Critical
        },
        o.rise_above_40cm_per_min ==> flood_triage_of(o).priority == PriorityLevel::P1Critical,
        flood_triage_of(o).evacuation_route_passable ==> !flood_triage_of(o).bridge_inundated
            && o.road_continuity_above_50pct,
        (!o.surface_within_50cm && !o.water_coverage_above_65pct && !o.rise_above_40cm_per_min)
            ==> flood_triage_of(o).priority == PriorityLevel::P2High && !flood_triage_of(
            o,
        ).bridge_inundated,
{
}

/// Worse water readings never make the assessment milder: with every alarm of
/// `a` also raised in `b` (and the road no better), `b` is inundated and
/// critical whenever `a` is, and passable only if `a` is.
pub proof fn lemma_flood_monotone(a: FloodObservations, b: FloodObservations)
    requires
        a.surface_within_50cm ==> b.surface_within_50cm,
        a.water_coverage_above_65pct ==> b.water_coverage_above_65pct,
        a.rise_above_40cm_per_min ==> b.rise_above_40cm_per_min,
        b.road_continuity_above_50pct ==> a.road_continuity_above_50pct,
    ensures
        flood_triage_of(a).bridge_inundated ==> flood_triage_of(b).bridge_inundated,
        flood_triage_of(a).priority == PriorityLevel::P1Critical ==> flood_triage_of(b).priority
            == PriorityLevel::P1Critical,
        flood_triage_of(b).evacuation_route_passable ==> flood_triage_of(
            a,
        ).evacuation_route_passable,
{
}

} // verus!
