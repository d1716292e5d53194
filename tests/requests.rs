use svc_cargo::handlers::{
    cancel_reply, check_flight_plan_id, confirm_reply, unavailable, vertiports_reply, Backend,
    CancelReply,
};
use svc_cargo::pool::{grpc_endpoint, GrpcClient};
use svc_cargo::query::{validate_query, QueryFault, Rejection};
use svc_cargo::types::{CargoGrpcImpl, FlightQuery, TimeWindow, UtcInstant};

const DEPART: &str = "6ba7b810-9dad-11d1-80b4-00c04fd430c8";
const ARRIVE: &str = "6ba7b811-9dad-11d1-80b4-00c04fd430c8";
const NOW: UtcInstant = UtcInstant { secs: 1_700_000_000, nanos: 0 };

fn at(secs: i64, nanos: u32) -> UtcInstant {
    UtcInstant { secs, nanos }
}

fn window(max: UtcInstant) -> Option<TimeWindow> {
    Some(TimeWindow { timestamp_min: max, timestamp_max: max })
}

fn happy_query() -> FlightQuery {
    FlightQuery {
        vertiport_depart_id: DEPART.to_string(),
        vertiport_arrive_id: ARRIVE.to_string(),
        time_depart_window: None,
        time_arrive_window: Some(TimeWindow {
            timestamp_min: at(NOW.secs + 3600, 0),
            timestamp_max: at(NOW.secs + 7200, 0),
        }),
        cargo_weight_g: (5.0f32 * 1000.0) as u32,
    }
}

fn message(r: Rejection) -> String {
    match r {
        Rejection::BadRequest(m) | Rejection::Unavailable(m) | Rejection::Conflict(m) => m,
    }
}

#[test]
fn happy_query_builds_request() {
    let req = validate_query(&happy_query(), &NOW).unwrap();
    assert!(req.is_cargo);
    assert_eq!(req.persons, None);
    assert_eq!(req.weight_grams, Some(5000));
    assert_eq!(req.vertiport_depart_id, DEPART);
    assert_eq!(req.vertiport_arrive_id, ARRIVE);
    assert_eq!(req.arrival_time, Some(at(NOW.secs + 7200, 0)));
    assert_eq!(req.departure_time, None);
}

#[test]
fn depart_window_forwards_its_upper_bound() {
    let mut q = happy_query();
    q.time_arrive_window = None;
    q.time_depart_window = Some(TimeWindow { timestamp_min: at(NOW.secs + 1, 0), timestamp_max: at(NOW.secs + 9, 0) });
    let req = validate_query(&q, &NOW).unwrap();
    assert_eq!(req.departure_time, Some(at(NOW.secs + 9, 0)));
    assert_eq!(req.arrival_time, None);
}

#[test]
fn weight_boundaries() {
    let mut q = happy_query();
    q.cargo_weight_g = (999.999f32 * 1000.0) as u32;
    assert!(validate_query(&q, &NOW).is_ok());
    q.cargo_weight_g = (1000.0f32 * 1000.0) as u32;
    assert_eq!(validate_query(&q, &NOW).unwrap_err(), QueryFault::WeightTooHigh);
    q.cargo_weight_g = 999_999;
    assert!(validate_query(&q, &NOW).is_ok());
    q.cargo_weight_g = 1_000_000;
    let f = validate_query(&q, &NOW).unwrap_err();
    assert_eq!(f.rejection().status(), 400);
}

#[test]
fn window_must_end_strictly_after_now() {
    let mut q = happy_query();
    q.time_arrive_window = window(NOW);
    assert_eq!(validate_query(&q, &NOW).unwrap_err(), QueryFault::PastWindow);
    q.time_arrive_window = window(at(NOW.secs, 1_000_000));
    assert!(validate_query(&q, &NOW).is_ok());
}

#[test]
fn past_window_mentions_past() {
    let mut q = happy_query();
    q.time_arrive_window = Some(TimeWindow { timestamp_min: at(NOW.secs - 3600, 0), timestamp_max: at(NOW.secs - 1, 0) });
    let f = validate_query(&q, &NOW).unwrap_err();
    assert_eq!(f, QueryFault::PastWindow);
    let r = f.rejection();
    assert_eq!(r.status(), 400);
    assert!(message(r).contains("past"));
}

#[test]
fn past_depart_window_rejected() {
    let mut q = happy_query();
    q.time_depart_window = window(at(NOW.secs - 1, 0));
    assert_eq!(validate_query(&q, &NOW).unwrap_err(), QueryFault::PastWindow);
}

#[test]
fn bad_depart_uuid_mentions_departure() {
    let mut q = happy_query();
    q.vertiport_depart_id = "not-a-uuid".to_string();
    let f = validate_query(&q, &NOW).unwrap_err();
    assert_eq!(f, QueryFault::BadDepartId);
    let r = f.rejection();
    assert_eq!(r.status(), 400);
    assert!(message(r).contains("Departure"));
}

#[test]
fn bad_arrive_uuid_rejected() {
    let mut q = happy_query();
    q.vertiport_arrive_id = "6ba7b811-9dad-11d1-80b4-00c04fd430cz".to_string();
    assert_eq!(validate_query(&q, &NOW).unwrap_err(), QueryFault::BadArriveId);
}

#[test]
fn missing_windows_rejected() {
    let mut q = happy_query();
    q.time_arrive_window = None;
    assert_eq!(validate_query(&q, &NOW).unwrap_err(), QueryFault::NoWindow);
    assert_eq!(QueryFault::NoWindow.rejection().status(), 400);
}

#[test]
fn uuid_forms_accepted() {
    for id in [
        "6ba7b8109dad11d180b400c04fd430c8",
        "6BA7B810-9DAD-11D1-80B4-00C04FD430C8",
        "{6ba7b810-9dad-11d1-80b4-00c04fd430c8}",
        "URN:uuid:6ba7b810-9dad-11d1-80b4-00c04fd430c8",
    ] {
        assert!(check_flight_plan_id(id).is_ok(), "{}", id);
    }
    for id in ["", "6ba7b810-9dad-11d1-80b4-00c04fd430c", "6ba7b810x9dad-11d1-80b4-00c04fd430c8", "urn:uuix:6ba7b810-9dad-11d1-80b4-00c04fd430c8"] {
        assert_eq!(check_flight_plan_id(id).unwrap_err().status(), 400, "{}", id);
    }
}

#[test]
fn confirm_replies() {
    assert!(confirm_reply(Ok(true)).is_ok());
    assert_eq!(confirm_reply(Ok(false)).unwrap_err().status(), 409);
    let e = confirm_reply(Err("down".to_string())).unwrap_err();
    assert_eq!(e.status(), 409);
    assert_eq!(message(e), "down");
}

#[test]
fn cancel_replies() {
    assert_eq!(cancel_reply(Ok(CancelReply { cancelled: true, reason: String::new() })).unwrap(), 200);
    let e = cancel_reply(Ok(CancelReply { cancelled: false, reason: "too late".to_string() })).unwrap_err();
    assert_eq!(e.status(), 409);
    assert_eq!(message(e), "too late");
    assert_eq!(cancel_reply(Err("x".to_string())).unwrap_err().status(), 409);
}

#[test]
fn unavailable_is_503() {
    for b in [Backend::Scheduler, Backend::Storage, Backend::Pricing] {
        assert_eq!(unavailable(b).status(), 503);
    }
}

#[test]
fn vertiport_replies() {
    assert_eq!(vertiports_reply(Ok(vec![1, 2])).unwrap(), vec![1, 2]);
    assert_eq!(vertiports_reply::<u8>(Err("gone".to_string())).unwrap_err().status(), 409);
}

#[test]
fn endpoint_address() {
    assert_eq!(grpc_endpoint(Some("50052")), "http://[::]:50052");
    assert_eq!(grpc_endpoint(None), "http://[::]:");
}

#[test]
fn slot_dials_once_then_reuses() {
    let mut slot: GrpcClient<u32> = GrpcClient::new(grpc_endpoint(Some("1")));
    let mut dials = 0;
    let mut got = Vec::new();
    for _ in 0..5 {
        if slot.needs_dial() {
            dials += 1;
            slot.record_dial(if dials == 1 { Some(7) } else { None });
        }
        got.push(*slot.client());
    }
    assert_eq!(dials, 1);
    assert!(got.iter().all(|c| *c == Some(7)));
    assert_eq!(slot.address(), "http://[::]:1");
}

#[test]
fn slot_redials_after_failure_and_invalidate() {
    let mut slot: GrpcClient<u32> = GrpcClient::new(String::from("a"));
    assert!(slot.needs_dial());
    slot.record_dial(None);
    assert!(slot.needs_dial());
    slot.record_dial(Some(3));
    assert!(!slot.needs_dial());
    slot.invalidate();
    assert!(slot.needs_dial());
    assert_eq!(*slot.client(), None);
}

#[test]
fn readiness_is_true() {
    assert!(CargoGrpcImpl::default().is_ready());
}
