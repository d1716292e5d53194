//! The public request and response shapes of the gateway.
//!
//! Prices are carried as an opaque type parameter `P`: the gateway never
//! computes with a price, it only moves it from the pricing service to the
//! client.
use vstd::prelude::*;

verus! {

/// A point in time in UTC: whole seconds since the Unix epoch and the
/// nanoseconds past that second.
#[derive(Clone, Copy, Debug, PartialEq, Eq, Structural)]
pub struct UtcInstant {
    pub secs: i64,
    pub nanos: u32,
}

impl UtcInstant {
    /// The nanosecond part is below one second.
    pub open spec fn wf(self) -> bool {
        self.nanos < 1_000_000_000
    }

    /// Strict chronological order.
    pub open spec fn precedes(self, other: UtcInstant) -> bool {
        self.secs < other.secs || (self.secs == other.secs && self.nanos < other.nanos)
    }

    pub fn is_before(&self, other: &UtcInstant) -> (r: bool)
        ensures
            r == self.precedes(*other),
    {
        self.secs < other.secs || (self.secs == other.secs && self.nanos < other.nanos)
    }
}

/// A time window (min and max).
#[derive(Clone, Copy, Debug, PartialEq, Eq, Structural)]
pub struct TimeWindow {
    pub timestamp_min: UtcInstant,
    pub timestamp_max: UtcInstant,
}

/// Request body of a flight search.
///
/// The cargo weight is given in whole grams: the client's kilogram figure
/// times one thousand, truncated.
#[derive(Clone, Debug)]
pub struct FlightQuery {
    pub vertiport_depart_id: String,
    pub vertiport_arrive_id: String,
    pub time_depart_window: Option<TimeWindow>,
    pub time_arrive_window: Option<TimeWindow>,
    pub cargo_weight_g: u32,
}

/// Request body to cancel an itinerary.
#[derive(Clone, Debug)]
pub struct ItineraryCancel {
    pub id: String,
}

/// Request body to confirm an itinerary.
#[derive(Clone, Debug)]
pub struct ItineraryConfirm {
    pub id: String,
    pub user_id: String,
}

/// One leg of a flight, as offered to the client.
#[derive(Clone, Debug)]
pub struct FlightLeg<P> {
    pub flight_plan_id: String,
    pub vertiport_depart_id: String,
    pub vertiport_arrive_id: String,
    pub timestamp_depart: UtcInstant,
    pub timestamp_arrive: UtcInstant,
    /// The estimated trip distance in metres.
    pub distance_m: u32,
    pub currency_type: Option<String>,
    pub base_pricing: Option<P>,
}

/// An ordered journey of legs with an aggregate price.
#[derive(Clone, Debug)]
pub struct Itinerary<P> {
    pub id: String,
    pub legs: Vec<FlightLeg<P>>,
    pub currency_type: Option<String>,
    pub base_pricing: Option<P>,
}

/// Outcome of an itinerary confirmation.
#[derive(Clone, Debug)]
pub enum ConfirmStatus {
    Success(String),
    Conflict(String),
    NotFound(String),
    Unauthorized(String),
    Unavailable,
}

/// The readiness service of the gateway.
#[derive(Clone, Copy, Debug, Default)]
pub struct CargoGrpcImpl {}

impl CargoGrpcImpl {
    /// The gateway answers readiness probes as soon as it runs.
    pub fn is_ready(&self) -> (r: bool)
        ensures
            r,
    {
        true
    }
}

} // verus!
