use vstd::prelude::*;

use crate::text::{append_signed_decimal, signed_decimal};

verus! {

/// What dispatch needs to know of a strategic base for one incident.
///
/// Distances are compared through ordering keys: for non-negative distances
/// (and NaN, which no radius admits) the IEEE-754 bit pattern of an `f64`
/// orders exactly as the value, so a caller passes `f64::to_bits` of the
/// great-circle distance to the incident and of the base's operational radius.
#[derive(Debug, Clone, Copy, PartialEq, Eq, Structural)]
pub struct BaseCandidate {
    pub is_operational: bool,
    pub stationed_platforms: usize,
    pub distance_key: u64,
    pub radius_key: u64,
}

impl BaseCandidate {
    /// The base can send a pod to the incident: it is operational, has a pod
    /// stationed, and the incident lies within its operational radius.
    pub open spec fn eligible(self) -> bool {
        &&& self.is_operational
        &&& self.stationed_platforms > 0
        &&& self.distance_key <= self.radius_key
    }
}

/// `k` is the chosen base: eligible, no farther than any eligible base, and
/// strictly nearer than every eligible base listed before it.
pub open spec fn is_nearest_eligible(bases: Seq<BaseCandidate>, k: int) -> bool {
    &&& 0 <= k < bases.len()
    &&& bases[k].eligible()
    &&& forall|i: int|
        0 <= i < bases.len() && #[trigger] bases[i].eligible() ==> bases[k].distance_key
            <= bases[i].distance_key
    &&& forall|i: int|
        0 <= i < k && #[trigger] bases[i].eligible() ==> bases[k].distance_key
            < bases[i].distance_key
}

/// Selects the nearest eligible base, the first listed among equally near ones;
/// `None` when no base is eligible.
pub fn select_nearest_base(bases: &Vec<BaseCandidate>) -> (choice: Option<usize>)
    ensures
        match choice {
            Some(k) => is_nearest_eligible(bases@, k as int),
            None => forall|i: int| 0 <= i < bases@.len() ==> !(#[trigger] bases@[i].eligible()),
        },
{
    let mut nearest: Option<usize> = None;
    let n = bases.len();
    let mut i: usize = 0;
    while i < n
        invariant
            n == bases@.len(),
            i <= n,
            match nearest {
                Some(k) => is_nearest_eligible(bases@.take(i as int), k as int),
                None => forall|j: int| 0 <= j < i ==> !(#[trigger] bases@[j].eligible()),
            },
        decreases n - i,
    {
        let base = bases[i];
        assert(bases@.take(i as int + 1)[i as int] == base);
        assert forall|j: int| 0 <= j < i implies bases@.take(i as int + 1)[j] == #[trigger] bases@.take(
            i as int,
        )[j] by {}
        if base.is_operational && base.stationed_platforms > 0 && base.distance_key <= base.radius_key {
            match nearest {
                None => {
                    nearest = Some(i);
                },
                Some(k) => {
                    if base.distance_key < bases[k].distance_key {
                        nearest = Some(i);
                    }
                },
            }
        }
        proof {
            let t = bases@.take(i as int + 1);
            let t0 = bases@.take(i as int);
            match nearest {
                Some(k) => {
                    assert forall|j: int| 0 <= j < t.len() && #[trigger] t[j].eligible() implies t[k as int].distance_key
                        <= t[j].distance_key by {
                        if j < i {
                            assert(t[j] == t0[j]);
                        }
                    }
                    assert forall|j: int| 0 <= j < k && #[trigger] t[j].eligible() implies t[k as int].distance_key
                        < t[j].distance_key by {
                        assert(t[j] == t0[j]);
                    }
                },
                None => {},
            }
        }
        i = i + 1;
    }
    assert(bases@.take(n as int) =~= bases@);
    nearest
}

/// Cruise speed used for transit time estimates, km/h.
pub const DISPATCH_CRUISE_KMH: u16 = 75;


/// Milliseconds since the Unix epoch on the system clock, as
/// `chrono::Utc::now().timestamp_millis()` reads it. Nothing is claimed of
/// the value: it depends on the clock.
#[verifier::external_body]
fn utc_now_millis() -> i64 {
    chrono::Utc::now().timestamp_millis()
}

pub open spec fn order_id_of(millis: i64) -> Seq<char> {
    "ORDER-"@ + signed_decimal(millis as int)
}

pub open spec fn incident_id_of(millis: i64) -> Seq<char> {
    "INC-"@ + signed_decimal(millis as int)
}

/// The identifier of a dispatch order issued at `millis` (Unix milliseconds).
pub fn order_id_at(millis: i64) -> (id: String)
    ensures
        id@ == order_id_of(millis),
{
    let mut id = String::from_str("ORDER-");
    append_signed_decimal(&mut id, millis);
    id
}

/// The identifier of an incident reported at `millis` (Unix milliseconds).
pub fn incident_id_at(millis: i64) -> (id: String)
    ensures
        id@ == incident_id_of(millis),
{
    let mut id = String::from_str("INC-");
    append_signed_decimal(&mut id, millis);
    id
}

/// A dispatch order identifier stamped with the current time.
pub fn new_order_id() -> (id: String)
    ensures
        exists|millis: i64| id@ == order_id_of(millis),
{
    order_id_at(utc_now_millis())
}

/// An incident identifier stamped with the current time.
pub fn new_incident_id() -> (id: String)
    ensures
        exists|millis: i64| id@ == incident_id_of(millis),
{
    incident_id_at(utc_now_millis())
}

} // verus!
