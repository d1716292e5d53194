//! The decisions of the confirm, cancel and vertiport endpoints around their
//! single backend call.
use vstd::prelude::*;
use crate::ids::{is_uuid, is_uuid_text};
use crate::query::Rejection;

verus! {

/// The backends the gateway calls.
#[derive(Clone, Copy, Debug, PartialEq, Eq, Structural)]
pub enum Backend {
    Scheduler,
    Storage,
    Pricing,
}

/// The text of the 503 for `backend`.
pub open spec fn unavailable_message(backend: Backend) -> Seq<char> {
    match backend {
        Backend::Scheduler => "scheduler service unavailable."@,
        Backend::Storage => "storage service is unavailable."@,
        Backend::Pricing => "pricing service unavailable."@,
    }
}

/// The 503 answered when `backend` cannot be acquired.
pub fn unavailable(backend: Backend) -> (r: Rejection)
    ensures
        r is Unavailable,
        r->Unavailable_0@ == unavailable_message(backend),
{
    let msg = match backend {
        Backend::Scheduler => "scheduler service unavailable.",
        Backend::Storage => "storage service is unavailable.",
        Backend::Pricing => "pricing service unavailable.",
    };
    Rejection::Unavailable(msg.to_owned())
}

/// Accepts a flight plan ID to confirm or cancel only in UUID form; the
/// backend is not contacted otherwise.
pub fn check_flight_plan_id(id: &str) -> (r: Result<(), Rejection>)
    ensures
        r is Ok <==> is_uuid_text(id@),
        r is Err ==> r->Err_0 is BadRequest && r->Err_0->BadRequest_0@
            == "Invalid flight plan UUID."@,
{
    if is_uuid(id) {
        Ok(())
    } else {
        Err(Rejection::BadRequest("Invalid flight plan UUID.".to_owned()))
    }
}

/// A transport failure of a backend call becomes a 409 carrying its message.
pub open spec fn conflict_with(r: Rejection, msg: Seq<char>) -> bool {
    r is Conflict && r->Conflict_0@ == msg
}

/// Interprets the scheduler's answer to a confirmation: confirmed gives
/// success, declined or failed gives a 409.
pub fn confirm_reply(reply: Result<bool, String>) -> (r: Result<(), Rejection>)
    ensures
        r is Ok <==> reply == Ok::<bool, String>(true),
        reply == Ok::<bool, String>(false) ==> r is Err && conflict_with(
            r->Err_0,
            "Could not confirm flight."@,
        ),
        reply is Err ==> r is Err && conflict_with(r->Err_0, reply->Err_0@),
{
    match reply {
        Ok(true) => Ok(()),
        Ok(false) => Err(Rejection::Conflict("Could not confirm flight.".to_owned())),
        Err(msg) => Err(Rejection::Conflict(msg)),
    }
}

/// The scheduler's answer to a cancellation.
#[derive(Clone, Debug)]
pub struct CancelReply {
    pub cancelled: bool,
    pub reason: String,
}

/// Interprets the scheduler's answer to a cancellation: cancelled gives 200,
/// declined gives a 409 with the scheduler's reason, failed a 409 with the
/// transport's message.
pub fn cancel_reply(reply: Result<CancelReply, String>) -> (r: Result<u16, Rejection>)
    ensures
        r is Ok <==> (reply is Ok && reply->Ok_0.cancelled),
        r is Ok ==> r->Ok_0 == 200,
        reply is Ok && !reply->Ok_0.cancelled ==> r is Err && conflict_with(
            r->Err_0,
            reply->Ok_0.reason@,
        ),
        reply is Err ==> r is Err && conflict_with(r->Err_0, reply->Err_0@),
{
    match reply {
        Ok(c) => if c.cancelled {
            Ok(200)
        } else {
            Err(Rejection::Conflict(c.reason))
        },
        Err(msg) => Err(Rejection::Conflict(msg)),
    }
}

/// Interprets the storage service's answer to a vertiport listing: the list
/// as it came, or a 409 with the transport's message.
pub fn vertiports_reply<T>(reply: Result<Vec<T>, String>) -> (r: Result<Vec<T>, Rejection>)
    ensures
        r is Ok <==> reply is Ok,
        r is Ok ==> r->Ok_0@ == reply->Ok_0@,
        reply is Err ==> conflict_with(r->Err_0, reply->Err_0@),
{
    match reply {
        Ok(v) => Ok(v),
        Err(msg) => Err(Rejection::Conflict(msg)),
    }
}

} // verus!
