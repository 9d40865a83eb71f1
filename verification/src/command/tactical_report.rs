use vstd::prelude::*;

use crate::text::{append_decimal, decimal};

verus! {

/// Band of the 0-10 hazard index that decides the personnel recommendation.
#[derive(Debug, Clone, Copy, PartialEq, Eq, Structural)]
pub enum HazardBand {
    /// Hazard index above 7.
    Extreme,
    /// Hazard index above 4, at most 7.
    Moderate,
    /// Hazard index at most 4.
    Low,
}

pub open spec fn route_recommendations(route_blocked: bool) -> Seq<Seq<char>> {
    if route_blocked {
        seq![
            "URGENT: Execute immediate route diversion. Target corridor is blocked or destroyed."@,
            "Notify local emergency dispatch to close highway access ramps."@,
        ]
    } else {
        seq!["Designated evacuation corridor remains open under continuous surveillance."@]
    }
}

pub open spec fn hazard_recommendations(band: HazardBand) -> Seq<Seq<char>> {
    match band {
        HazardBand::Extreme => seq![
            "P1 Extreme Hazard: Prohibit ground personnel entry into inner sector."@,
        ],
        HazardBand::Moderate => seq![
            "P2 Moderate Hazard: Heavy vehicle operations permitted with safety buffers."@,
        ],
        HazardBand::Low => Seq::empty(),
    }
}

/// The decision recommendations of a responder bulletin: the route advice, then
/// the personnel advice for the hazard band, then the operational summary.
pub open spec fn recommendations_of(
    route_blocked: bool,
    band: HazardBand,
    summary: Seq<char>,
) -> Seq<Seq<char>> {
    route_recommendations(route_blocked) + hazard_recommendations(band) + seq![summary]
}

pub open spec fn views_of(v: Seq<String>) -> Seq<Seq<char>> {
    v.map_values(|s: String| s@)
}

/// Builds the critical decision recommendations of a tactical responder bulletin.
pub fn tactical_recommendations(
    route_blocked: bool,
    hazard: HazardBand,
    operational_summary: &str,
) -> (recs: Vec<String>)
    ensures
        views_of(recs@) == recommendations_of(route_blocked, hazard, operational_summary@),
        recs@.len() == (if route_blocked { 2int } else { 1int }) + (if hazard == HazardBand::Low {
            0int
        } else {
            1int
        }) + 1,
        recs@.last()@ == operational_summary@,
        route_blocked ==> recs@[0]@
            == "URGENT: Execute immediate route diversion. Target corridor is blocked or destroyed."@,
        !route_blocked ==> recs@[0]@
            == "Designated evacuation corridor remains open under continuous surveillance."@,
        hazard == HazardBand::Extreme ==> recs@[recs@.len() - 2]@
            == "P1 Extreme Hazard: Prohibit ground personnel entry into inner sector."@,
        hazard == HazardBand::Moderate ==> recs@[recs@.len() - 2]@
            == "P2 Moderate Hazard: Heavy vehicle operations permitted with safety buffers."@,
{
    let mut recs: Vec<String> = Vec::new();
    if route_blocked {
        recs.push(
            "URGENT: Execute immediate route diversion. Target corridor is blocked or destroyed.".to_owned(),
        );
        recs.push("Notify local emergency dispatch to close highway access ramps.".to_owned());
    } else {
        recs.push(
            "Designated evacuation corridor remains open under continuous surveillance.".to_owned(),
        );
    }
    assert(views_of(recs@) =~= route_recommendations(route_blocked));
    match hazard {
        HazardBand::Extreme => {
            recs.push(
                "P1 Extreme Hazard: Prohibit ground personnel entry into inner sector.".to_owned(),
            );
        },
        HazardBand::Moderate => {
            recs.push(
                "P2 Moderate Hazard: Heavy vehicle operations permitted with safety buffers.".to_owned(),
            );
        },
        HazardBand::Low => {},
    }
    assert(views_of(recs@) =~= route_recommendations(route_blocked) + hazard_recommendations(
        hazard,
    ));
    recs.push(operational_summary.to_owned());
    assert(views_of(recs@) =~= recommendations_of(
        route_blocked,
        hazard,
        operational_summary@,
    ));
    recs
}


pub open spec fn bulletin_id_of(sequence_number: u32) -> Seq<char> {
    "TAC-BULLETIN-"@ + decimal(sequence_number as nat)
}

/// The identifier of the bulletin built from the frame with this sequence number.
pub fn bulletin_id(sequence_number: u32) -> (id: String)
    ensures
        id@ == bulletin_id_of(sequence_number),
{
    let mut id = String::from_str("TAC-BULLETIN-");
    append_decimal(&mut id, sequence_number as u64);
    id
}

} // verus!
