//! Translation of the scheduler's flight plans into client-facing legs.
use vstd::prelude::*;
use vstd::arithmetic::div_mod::lemma_fundamental_div_mod_converse;
use crate::types::{FlightLeg, UtcInstant};

verus! {

/// A timestamp as the scheduler sends it: the nanosecond part may be out of
/// range or negative.
#[derive(Clone, Copy, Debug, PartialEq, Eq, Structural)]
pub struct Timestamp {
    pub seconds: i64,
    pub nanos: i32,
}

/// The part of a scheduler flight plan that the gateway reads.
#[derive(Clone, Debug)]
pub struct QueryFlightPlan {
    pub id: String,
    pub vertiport_depart_id: String,
    pub vertiport_arrive_id: String,
    pub estimated_departure: Option<Timestamp>,
    pub estimated_arrival: Option<Timestamp>,
    /// Estimated distance in metres.
    pub estimated_distance: u32,
}

pub open spec fn carried_seconds(ts: Timestamp) -> int {
    ts.seconds + (ts.nanos as int) / 1_000_000_000int
}

/// Whether chrono's UTC calendar holds the instant `secs` seconds and
/// `nanos` nanoseconds after the epoch.
pub uninterp spec fn utc_representable(secs: int, nanos: int) -> bool;

/// Relies on chrono::DateTime::<Utc>::from_timestamp: it returns `Some`
/// exactly when the instant lies within chrono's date range; which instants
/// those are depends on the arguments alone.
#[verifier::external_body]
fn fits_utc_calendar(secs: i64, nanos: u32) -> (r: bool)
    ensures
        r == utc_representable(secs as int, nanos as int),
{
    chrono::DateTime::<chrono::Utc>::from_timestamp(secs, nanos).is_some()
}

/// A timestamp converts when its normalised seconds fit the instant type
/// and the instant lies within the UTC calendar.
pub open spec fn converts(ts: Timestamp) -> bool {
    &&& i64::MIN <= carried_seconds(ts) <= i64::MAX
    &&& utc_representable(carried_seconds(ts), (ts.nanos as int) % 1_000_000_000int)
}

/// The instant that a timestamp denotes: whole seconds carried out of the
/// nanosecond part, and the rest, in `0 .. 10^9`.
pub open spec fn instant_spec(ts: Timestamp) -> UtcInstant {
    UtcInstant {
        secs: carried_seconds(ts) as i64,
        nanos: ((ts.nanos as int) % 1_000_000_000int) as u32,
    }
}

/// Converts a scheduler timestamp into an instant, or `None` where it lies
/// outside the calendar.
pub fn instant_of(ts: &Timestamp) -> (r: Option<UtcInstant>)
    ensures
        r is Some <==> converts(*ts),
        r is Some ==> r->0 == instant_spec(*ts) && r->0.wf(),
{
    let mut carry: i64 = 0;
    let mut rem: i64 = ts.nanos as i64;
    while rem < 0
        invariant
            carry * 1_000_000_000 + rem == ts.nanos,
            -3 <= carry <= 0,
            ts.nanos <= rem,
            rem < 0 || carry < 0 || rem == ts.nanos,
            carry < 0 ==> rem < 1_000_000_000,
        decreases 3 + carry,
    {
        rem = rem + 1_000_000_000;
        carry = carry - 1;
    }
    while rem >= 1_000_000_000
        invariant
            carry * 1_000_000_000 + rem == ts.nanos,
            -3 <= carry <= 3,
            0 <= rem <= ts.nanos - carry * 1_000_000_000,
        decreases rem,
    {
        rem = rem - 1_000_000_000;
        carry = carry + 1;
    }
    proof {
        lemma_fundamental_div_mod_converse(ts.nanos as int, 1_000_000_000, carry as int, rem as int);
    }
    match ts.seconds.checked_add(carry) {
        Some(secs) => if fits_utc_calendar(secs, rem as u32) {
            Some(UtcInstant { secs, nanos: rem as u32 })
        } else {
            None
        },
        None => None,
    }
}

/// A plan survives translation when both estimated times are present and
/// convert.
pub open spec fn plan_parses(plan: QueryFlightPlan) -> bool {
    &&& plan.estimated_departure is Some
    &&& plan.estimated_arrival is Some
    &&& converts(plan.estimated_departure->0)
    &&& converts(plan.estimated_arrival->0)
}

/// `leg` is the translation of `plan`: identifiers and distance kept, times
/// converted, no price yet.
pub open spec fn translates<P>(plan: QueryFlightPlan, leg: FlightLeg<P>) -> bool {
    &&& leg.flight_plan_id@ == plan.id@
    &&& leg.vertiport_depart_id@ == plan.vertiport_depart_id@
    &&& leg.vertiport_arrive_id@ == plan.vertiport_arrive_id@
    &&& leg.timestamp_depart == instant_spec(plan.estimated_departure->0)
    &&& leg.timestamp_arrive == instant_spec(plan.estimated_arrival->0)
    &&& leg.timestamp_depart.wf() && leg.timestamp_arrive.wf()
    &&& leg.distance_m == plan.estimated_distance
    &&& leg.currency_type is None
    &&& leg.base_pricing is None
}

/// Translates one plan; a plan without usable times gives `None`.
pub fn parse_flight<P>(plan: &QueryFlightPlan) -> (r: Option<FlightLeg<P>>)
    ensures
        r is Some <==> plan_parses(*plan),
        r is Some ==> translates(*plan, r->0),
{
    let depart = match &plan.estimated_departure {
        Some(ts) => instant_of(ts),
        None => None,
    };
    let arrive = match &plan.estimated_arrival {
        Some(ts) => instant_of(ts),
        None => None,
    };
    match (depart, arrive) {
        (Some(timestamp_depart), Some(timestamp_arrive)) => Some(
            FlightLeg {
                flight_plan_id: plan.id.clone(),
                vertiport_depart_id: plan.vertiport_depart_id.clone(),
                vertiport_arrive_id: plan.vertiport_arrive_id.clone(),
                timestamp_depart,
                timestamp_arrive,
                distance_m: plan.estimated_distance,
                currency_type: None,
                base_pricing: None,
            },
        ),
        _ => None,
    }
}

/// The plans that survive translation, in the scheduler's order.
pub open spec fn surviving(plans: Seq<QueryFlightPlan>) -> Seq<QueryFlightPlan> {
    plans.filter(|p: QueryFlightPlan| plan_parses(p))
}

/// Translates every plan, silently dropping those without usable times and
/// keeping the order of the rest.
pub fn parse_flights<P>(plans: &Vec<QueryFlightPlan>) -> (r: Vec<FlightLeg<P>>)
    ensures
        r@.len() == surviving(plans@).len(),
        forall|i: int| 0 <= i < r@.len() ==> translates(#[trigger] surviving(plans@)[i], r@[i]),
{
    let mut legs: Vec<FlightLeg<P>> = Vec::new();
    let mut i: usize = 0;
    while i < plans.len()
        invariant
            i <= plans@.len(),
            legs@.len() == surviving(plans@.subrange(0, i as int)).len(),
            forall|k: int|
                0 <= k < legs@.len() ==> translates(
                    #[trigger] surviving(plans@.subrange(0, i as int))[k],
                    legs@[k],
                ),
        decreases plans@.len() - i,
    {
        let ghost before = plans@.subrange(0, i as int);
        let ghost after = plans@.subrange(0, i + 1);
        proof {
            assert(after.last() == plans@[i as int]);
            assert(after.drop_last() == before);
            reveal(Seq::filter);
        }
        match parse_flight(&plans[i]) {
            Some(leg) => {
                legs.push(leg);
                proof {
                    assert(surviving(after) == surviving(before).push(plans@[i as int]));
                }
            },
            None => {
                proof {
                    assert(surviving(after) == surviving(before));
                }
            },
        }
        i = i + 1;
    }
    proof {
        assert(plans@.subrange(0, plans@.len() as int) == plans@);
    }
    legs
}


/// A scheduler timestamp as a single count of nanoseconds since the epoch.
pub open spec fn total_nanos(ts: Timestamp) -> int {
    ts.seconds * 1_000_000_000int + ts.nanos
}

/// An instant as a single count of nanoseconds since the epoch.
pub open spec fn instant_nanos(t: UtcInstant) -> int {
    t.secs * 1_000_000_000int + t.nanos
}

/// Translation keeps time: the instant denotes the same nanosecond as the
/// scheduler's timestamp, so two converted times compare as the scheduler
/// reported them.
pub proof fn lemma_translation_keeps_order(a: Timestamp, b: Timestamp)
    requires
        converts(a),
        converts(b),
    ensures
        instant_nanos(instant_spec(a)) == total_nanos(a),
        instant_spec(a).precedes(instant_spec(b)) <==> total_nanos(a) < total_nanos(b),
        instant_spec(a) == instant_spec(b) <==> total_nanos(a) == total_nanos(b),
{
    vstd::arithmetic::div_mod::lemma_fundamental_div_mod(a.nanos as int, 1_000_000_000);
    vstd::arithmetic::div_mod::lemma_fundamental_div_mod(b.nanos as int, 1_000_000_000);
    vstd::arithmetic::div_mod::lemma_mod_bound(a.nanos as int, 1_000_000_000);
    vstd::arithmetic::div_mod::lemma_mod_bound(b.nanos as int, 1_000_000_000);
}

/// Two legs that agree on every field, strings by their text.
pub open spec fn same_leg<P>(a: FlightLeg<P>, b: FlightLeg<P>) -> bool {
    &&& a.flight_plan_id@ == b.flight_plan_id@
    &&& a.vertiport_depart_id@ == b.vertiport_depart_id@
    &&& a.vertiport_arrive_id@ == b.vertiport_arrive_id@
    &&& a.timestamp_depart == b.timestamp_depart
    &&& a.timestamp_arrive == b.timestamp_arrive
    &&& a.distance_m == b.distance_m
    &&& a.currency_type == b.currency_type
    &&& a.base_pricing == b.base_pricing
}

/// Translation is determined by the plans alone: two results that both meet
/// `parse_flights`' contract for the same plans agree leg by leg.
pub proof fn lemma_translation_determined<P>(
    plans: Seq<QueryFlightPlan>,
    r1: Seq<FlightLeg<P>>,
    r2: Seq<FlightLeg<P>>,
)
    requires
        r1.len() == surviving(plans).len(),
        r2.len() == surviving(plans).len(),
        forall|i: int| 0 <= i < r1.len() ==> translates(#[trigger] surviving(plans)[i], r1[i]),
        forall|i: int| 0 <= i < r2.len() ==> translates(#[trigger] surviving(plans)[i], r2[i]),
    ensures
        r1.len() == r2.len(),
        forall|i: int| 0 <= i < r1.len() ==> same_leg(#[trigger] r1[i], r2[i]),
{
    assert forall|i: int| 0 <= i < r1.len() implies same_leg(#[trigger] r1[i], r2[i]) by {
        assert(translates(surviving(plans)[i], r1[i]));
        assert(translates(surviving(plans)[i], r2[i]));
    }
}

} // verus!
