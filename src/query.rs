//! Validation of flight searches and best-effort price enrichment.
use vstd::prelude::*;
use crate::handlers::{unavailable, Backend};
use crate::ids::{is_uuid, is_uuid_text};
use crate::flights::{parse_flights, surviving, translates, QueryFlightPlan};
use crate::types::{FlightLeg, FlightQuery, TimeWindow, UtcInstant};

verus! {

/// Cargo of this many grams or more is refused.
pub const MAX_CARGO_WEIGHT_G: u32 = 1_000_000;

/// Why a request is refused, with the status code each one answers with.
#[derive(Clone, Debug)]
pub enum Rejection {
    /// 400: the request itself is invalid.
    BadRequest(String),
    /// 503: a required backend could not be reached.
    Unavailable(String),
    /// 409: a backend failed the call or declined it.
    Conflict(String),
}

impl Rejection {
    pub open spec fn status_spec(self) -> u16 {
        match self {
            Rejection::BadRequest(_) => 400,
            Rejection::Unavailable(_) => 503,
            Rejection::Conflict(_) => 409,
        }
    }

    pub fn status(&self) -> (r: u16)
        ensures
            r == self.status_spec(),
    {
        match self {
            Rejection::BadRequest(_) => 400,
            Rejection::Unavailable(_) => 503,
            Rejection::Conflict(_) => 409,
        }
    }
}

/// What is wrong with a flight search, in the order the checks are made.
#[derive(Clone, Copy, Debug, PartialEq, Eq, Structural)]
pub enum QueryFault {
    WeightTooHigh,
    BadArriveId,
    BadDepartId,
    PastWindow,
    NoWindow,
}

impl QueryFault {
    /// The text that explains the fault to the client.
    pub open spec fn message_spec(self) -> Seq<char> {
        match self {
            QueryFault::WeightTooHigh => "Request cargo weight exceeds 1000000 grams."@,
            QueryFault::BadArriveId => "Arrival vertiport ID is not UUID format."@,
            QueryFault::BadDepartId => "Departure vertiport ID is not UUID format."@,
            QueryFault::PastWindow => "Provided time is in the past."@,
            QueryFault::NoWindow => "Invalid time window provided."@,
        }
    }

    /// The client-facing refusal: always a 400.
    pub fn rejection(&self) -> (r: Rejection)
        ensures
            r is BadRequest,
            r->BadRequest_0@ == self.message_spec(),
    {
        let msg = match self {
            QueryFault::WeightTooHigh => "Request cargo weight exceeds 1000000 grams.",
            QueryFault::BadArriveId => "Arrival vertiport ID is not UUID format.",
            QueryFault::BadDepartId => "Departure vertiport ID is not UUID format.",
            QueryFault::PastWindow => "Provided time is in the past.",
            QueryFault::NoWindow => "Invalid time window provided.",
        };
        Rejection::BadRequest(msg.to_owned())
    }
}

/// The search sent to the scheduler.
#[derive(Clone, Debug)]
pub struct QueryFlightRequest {
    pub is_cargo: bool,
    pub persons: Option<u32>,
    pub weight_grams: Option<u32>,
    pub vertiport_depart_id: String,
    pub vertiport_arrive_id: String,
    pub arrival_time: Option<UtcInstant>,
    pub departure_time: Option<UtcInstant>,
}

/// A window is acceptable when its upper bound lies strictly after `now`.
pub open spec fn window_in_future(w: Option<TimeWindow>, now: UtcInstant) -> bool {
    w is Some ==> now.precedes(w->0.timestamp_max)
}

/// The first check that a search fails, if any.
pub open spec fn query_fault(q: FlightQuery, now: UtcInstant) -> Option<QueryFault> {
    if q.cargo_weight_g >= MAX_CARGO_WEIGHT_G {
        Some(QueryFault::WeightTooHigh)
    } else if !is_uuid_text(q.vertiport_arrive_id@) {
        Some(QueryFault::BadArriveId)
    } else if !is_uuid_text(q.vertiport_depart_id@) {
        Some(QueryFault::BadDepartId)
    } else if !window_in_future(q.time_arrive_window, now) || !window_in_future(
        q.time_depart_window,
        now,
    ) {
        Some(QueryFault::PastWindow)
    } else if q.time_arrive_window is None && q.time_depart_window is None {
        Some(QueryFault::NoWindow)
    } else {
        None
    }
}

/// `r` is the scheduler search for the valid query `q`: a cargo search of
/// the query's weight between its vertiports, timed by the arrival window's
/// upper bound when there is one, else by the departure window's.
pub open spec fn is_request_for(q: FlightQuery, r: QueryFlightRequest) -> bool {
    &&& r.is_cargo
    &&& r.persons is None
    &&& r.weight_grams == Some(q.cargo_weight_g)
    &&& r.vertiport_depart_id@ == q.vertiport_depart_id@
    &&& r.vertiport_arrive_id@ == q.vertiport_arrive_id@
    &&& match q.time_arrive_window {
        Some(w) => r.arrival_time == Some(w.timestamp_max) && r.departure_time is None,
        None => r.arrival_time is None && r.departure_time == Some(
            q.time_depart_window->0.timestamp_max,
        ),
    }
}

fn window_ok(w: &Option<TimeWindow>, now: &UtcInstant) -> (r: bool)
    ensures
        r == window_in_future(*w, *now),
{
    match w {
        Some(w) => now.is_before(&w.timestamp_max),
        None => true,
    }
}

/// Checks a flight search against `now` and builds the scheduler request.
pub fn validate_query(q: &FlightQuery, now: &UtcInstant) -> (r: Result<
    QueryFlightRequest,
    QueryFault,
>)
    ensures
        r is Err <==> query_fault(*q, *now) is Some,
        r is Err ==> r->Err_0 == query_fault(*q, *now)->0,
        r is Ok ==> is_request_for(*q, r->Ok_0),
{
    if q.cargo_weight_g >= MAX_CARGO_WEIGHT_G {
        return Err(QueryFault::WeightTooHigh);
    }
    if !is_uuid(q.vertiport_arrive_id.as_str()) {
        return Err(QueryFault::BadArriveId);
    }
    if !is_uuid(q.vertiport_depart_id.as_str()) {
        return Err(QueryFault::BadDepartId);
    }
    if !window_ok(&q.time_arrive_window, now) || !window_ok(&q.time_depart_window, now) {
        return Err(QueryFault::PastWindow);
    }
    let (arrival_time, departure_time) = match (&q.time_arrive_window, &q.time_depart_window) {
        (Some(a), _) => (Some(a.timestamp_max), None),
        (None, Some(d)) => (None, Some(d.timestamp_max)),
        (None, None) => {
            return Err(QueryFault::NoWindow);
        },
    };
    Ok(
        QueryFlightRequest {
            is_cargo: true,
            persons: None,
            weight_grams: Some(q.cargo_weight_g),
            vertiport_depart_id: q.vertiport_depart_id.clone(),
            vertiport_arrive_id: q.vertiport_arrive_id.clone(),
            arrival_time,
            departure_time,
        },
    )
}

/// `new` is `old` with the pricing outcome `quote` attached: the price when
/// there is one, labelled in US dollars; no price and no currency otherwise.
pub open spec fn priced_as<P>(old: FlightLeg<P>, new: FlightLeg<P>, quote: Option<P>) -> bool {
    &&& new.flight_plan_id == old.flight_plan_id
    &&& new.vertiport_depart_id == old.vertiport_depart_id
    &&& new.vertiport_arrive_id == old.vertiport_arrive_id
    &&& new.timestamp_depart == old.timestamp_depart
    &&& new.timestamp_arrive == old.timestamp_arrive
    &&& new.distance_m == old.distance_m
    &&& new.base_pricing == quote
    &&& (new.currency_type is Some <==> quote is Some)
    &&& (new.currency_type is Some ==> new.currency_type->0@ == "usd"@)
}

/// Attaches one pricing outcome to a leg.
pub fn priced<P>(leg: FlightLeg<P>, quote: Option<P>) -> (r: FlightLeg<P>)
    ensures
        priced_as(leg, r, quote),
{
    let currency_type = match &quote {
        Some(_) => Some("usd".to_owned()),
        None => None,
    };
    FlightLeg { currency_type, base_pricing: quote, ..leg }
}

/// Attaches prices to legs, one pricing outcome per leg in order; with no
/// pricing service (`None`) every leg goes out without price or currency.
/// Legs are never dropped for want of a price.
pub fn attach_prices<P>(legs: Vec<FlightLeg<P>>, quotes: Option<Vec<Option<P>>>) -> (r: Vec<
    FlightLeg<P>,
>)
    requires
        quotes is Some ==> quotes->0@.len() == legs@.len(),
    ensures
        r@.len() == legs@.len(),
        forall|i: int|
            0 <= i < r@.len() ==> priced_as(
                legs@[i],
                #[trigger] r@[i],
                match quotes {
                    Some(q) => q@[i],
                    None => None,
                },
            ),
{
    let ghost legs0 = legs@;
    let ghost quotes0: Seq<Option<P>> = if quotes is Some {
        quotes->0@
    } else {
        Seq::new(legs@.len(), |i: int| None)
    };
    let mut rest = legs;
    let mut pending: Vec<Option<P>> = match quotes {
        Some(q) => q,
        None => Vec::new(),
    };
    let priced_all = pending.len() > 0;
    let mut out: Vec<FlightLeg<P>> = Vec::new();
    while rest.len() > 0
        invariant
            out@.len() + rest@.len() == legs0.len(),
            rest@ == legs0.subrange(out@.len() as int, legs0.len() as int),
            quotes0.len() == legs0.len(),
            priced_all ==> pending@ == quotes0.subrange(out@.len() as int, legs0.len() as int),
            !priced_all ==> forall|i: int| 0 <= i < quotes0.len() ==> #[trigger] quotes0[i] is None,
            priced_all ==> quotes is Some,
            quotes is Some ==> quotes0 == quotes->0@,
            !priced_all && quotes is Some ==> legs0.len() == 0,
            forall|i: int| 0 <= i < out@.len() ==> priced_as(legs0[i], #[trigger] out@[i], quotes0[i]),
        decreases rest@.len(),
    {
        let leg = rest.remove(0);
        let quote = if priced_all {
            pending.remove(0)
        } else {
            None
        };
        out.push(priced(leg, quote));
    }
    out
}

/// Interprets the scheduler's answer to a search: the translated legs, or a
/// 409 with the transport's message.
pub fn flight_results<P>(reply: Result<Vec<QueryFlightPlan>, String>) -> (r: Result<
    Vec<FlightLeg<P>>,
    Rejection,
>)
    ensures
        r is Ok <==> reply is Ok,
        reply is Err ==> r->Err_0 is Conflict && r->Err_0->Conflict_0@ == reply->Err_0@,
        reply is Ok ==> r->Ok_0@.len() == surviving(reply->Ok_0@).len() && forall|i: int|
            0 <= i < r->Ok_0@.len() ==> translates(
                #[trigger] surviving(reply->Ok_0@)[i],
                r->Ok_0@[i],
            ),
{
    match reply {
        Ok(plans) => Ok(parse_flights(&plans)),
        Err(msg) => Err(Rejection::Conflict(msg)),
    }
}

/// What a flight search does once the scheduler's part is known.
pub enum SearchStep<P> {
    /// Ask the pricing service about these legs, then attach the outcomes.
    Price(Vec<FlightLeg<P>>),
    /// Answer the client without consulting pricing.
    Reply(Result<Vec<FlightLeg<P>>, Rejection>),
}

/// Decides the step after the scheduler: `scheduler` is `None` when it could
/// not be acquired, else its reply. Pricing is consulted only once the
/// scheduler answered with flights; an unreachable scheduler is a 503.
pub fn after_scheduler<P>(scheduler: Option<Result<Vec<QueryFlightPlan>, String>>) -> (r: SearchStep<P>)
    ensures
        scheduler is None ==> r is Reply && r->Reply_0 is Err && r->Reply_0->Err_0 is Unavailable,
        scheduler is Some && scheduler->0 is Err ==> r is Reply && r->Reply_0 is Err
            && r->Reply_0->Err_0 is Conflict && r->Reply_0->Err_0->Conflict_0@
            == scheduler->0->Err_0@,
        scheduler is Some && scheduler->0 is Ok ==> r is Price && r->Price_0@.len() == surviving(
            scheduler->0->Ok_0@,
        ).len() && forall|i: int|
            0 <= i < r->Price_0@.len() ==> translates(
                #[trigger] surviving(scheduler->0->Ok_0@)[i],
                r->Price_0@[i],
            ),
{
    match scheduler {
        None => SearchStep::Reply(Err(unavailable(Backend::Scheduler))),
        Some(reply) => match flight_results(reply) {
            Ok(legs) => SearchStep::Price(legs),
            Err(e) => SearchStep::Reply(Err(e)),
        },
    }
}

} // verus!
