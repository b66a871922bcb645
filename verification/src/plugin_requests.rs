//! Plugin requests, and the happenings that the framework records for them.

use crate::codec::{base64_text, decodes_to, encodable, encode};
use crate::custody::{decode_payload, refuses_payload};
use crate::errors::{failure_error, reports_failure, ApiError, StewardFailure};
use crate::happenings::Happening;
use crate::json::{as_flag, bytes_value, get_field, parse_bytes, value_bool, value_fields};
use crate::responses::ClientResponse;
use crate::text::{begins_with, same_text};
use serde_json::Value;
use std::time::SystemTime;
use vstd::prelude::*;
use vstd::string::*;

verus! {

/// Hands out correlation ids.
#[derive(Debug)]
pub struct CorrelationIds {
    pub next: u64,
}

impl CorrelationIds {
    /// The first id is 1.
    pub fn new() -> (r: CorrelationIds)
        ensures
            r.next == 1,
    {
        CorrelationIds { next: 1 }
    }

    /// The next id. Ids are unique until the counter wraps.
    pub fn take(&mut self) -> (r: u64)
        ensures
            r == old(self).next,
            final(self).next == (if r == u64::MAX {
                0
            } else {
                (r + 1) as u64
            }),
    {
        let id: u64 = self.next;
        self.next = id.wrapping_add(1);
        id
    }
}

/// A request as the router takes it. It has no deadline.
#[derive(Debug)]
pub struct PluginRequest {
    pub request_type: String,
    pub payload: Vec<u8>,
    pub correlation_id: u64,
    pub instance_id: Option<String>,
}

/// Makes the router's request out of a client's. A payload that is no base64 is
/// refused and uses up no correlation id.
pub fn prepare_plugin_request(
    ids: &mut CorrelationIds,
    request_type: String,
    payload_b64: &str,
    instance_id: Option<String>,
) -> (r: Result<PluginRequest, ApiError>)
    ensures
        match r {
            Ok(req) => {
                &&& decodes_to(payload_b64@, req.payload@)
                &&& req.request_type == request_type
                &&& req.correlation_id == old(ids).next
                &&& req.instance_id == instance_id
                &&& final(ids).next == (if old(ids).next == u64::MAX {
                    0
                } else {
                    (old(ids).next + 1) as u64
                })
            },
            Err(e) => refuses_payload(e, ""@, payload_b64@) && *final(ids) == *old(ids),
        },
{
    match decode_payload("", payload_b64) {
        Err(e) => Err(e),
        Ok(payload) => {
            let correlation_id: u64 = ids.take();
            Ok(PluginRequest { request_type, payload, correlation_id, instance_id })
        },
    }
}

/// The new state that a `flight_mode.set` payload asks for. A payload without a
/// truth value under `on` counts as on.
pub open spec fn asks_on(payload: Option<Value>) -> bool {
    match payload {
        Some(v) => match value_fields(v) {
            Some(fields) => if fields.contains_key("on"@) {
                match value_bool(fields["on"@]) {
                    Some(on) => on,
                    None => true,
                }
            } else {
                true
            },
            None => true,
        },
        None => true,
    }
}

/// The new state that a parsed `flight_mode.set` payload asks for.
pub fn flight_mode_on(payload: Option<&Value>) -> (r: bool)
    ensures
        r == asks_on(
            match payload {
                Some(v) => Some(*v),
                None => None,
            },
        ),
{
    match payload {
        Some(v) => match get_field(v, "on") {
            Some(x) => match as_flag(x) {
                Some(on) => on,
                None => true,
            },
            None => true,
        },
        None => true,
    }
}

/// The new state that a `flight_mode.set` payload asks for.
pub fn parse_flight_mode_set_on(payload: &[u8]) -> (r: bool)
    ensures
        r == asks_on(bytes_value(payload@)),
{
    let parsed = parse_bytes(payload);
    flight_mode_on(parsed.as_ref())
}

/// The request sets the flight mode of a rack class.
pub open spec fn sets_flight_mode(shelf: Seq<char>, request_type: Seq<char>) -> bool {
    "flight_mode."@.is_prefix_of(shelf) && request_type == "flight_mode.set"@
}

/// The happening that the framework records for a request that succeeded.
pub fn post_dispatch_happening(
    shelf: &str,
    request_type: &str,
    payload: &[u8],
    now: SystemTime,
) -> (r: Option<Happening>)
    ensures
        if sets_flight_mode(shelf@, request_type@) {
            &&& r matches Some(Happening::FlightModeChanged { rack_class, on, at })
            &&& rack_class@ == shelf@
            &&& on == asks_on(bytes_value(payload@))
            &&& at == now
        } else {
            r is None
        },
{
    if begins_with(shelf, "flight_mode.") && same_text(request_type, "flight_mode.set") {
        Some(
            Happening::FlightModeChanged {
                rack_class: shelf.to_owned(),
                on: parse_flight_mode_set_on(payload),
                at: now,
            },
        )
    } else {
        None
    }
}

/// The answer of `request`, with the happening to emit: only a request that
/// succeeded leaves one. The outcome is the payload of the plugin's response.
pub fn plugin_request_reply(
    shelf: &str,
    request_type: &str,
    payload: &[u8],
    now: SystemTime,
    outcome: Result<Vec<u8>, StewardFailure>,
) -> (r: (ClientResponse, Option<Happening>))
    requires
        outcome matches Ok(bytes) ==> encodable(bytes@.len()),
    ensures
        match outcome {
            Ok(bytes) => {
                &&& r.0 matches ClientResponse::Success { payload_b64 }
                &&& payload_b64@ == base64_text(bytes@)
                &&& decodes_to(payload_b64@, bytes@)
                &&& if sets_flight_mode(shelf@, request_type@) {
                    &&& r.1 matches Some(Happening::FlightModeChanged { rack_class, on, at })
                    &&& rack_class@ == shelf@
                    &&& on == asks_on(bytes_value(payload@))
                    &&& at == now
                } else {
                    r.1 is None
                }
            },
            Err(failure) => {
                &&& r.0 matches ClientResponse::Error { error }
                &&& reports_failure(error, failure)
                &&& r.1 is None
            },
        },
{
    match outcome {
        Ok(bytes) => {
            let happening = post_dispatch_happening(shelf, request_type, payload, now);
            (ClientResponse::Success { payload_b64: encode(bytes.as_slice()) }, happening)
        },
        Err(failure) => (ClientResponse::Error { error: failure_error(failure) }, None),
    }
}

}
