//! What becomes of each frame of a connection.

use crate::access::ResponderLock;
use crate::errors::{is_error, refusal, ErrorClass};
use crate::projections::{scope_of, ProjectionScope};
use crate::requests::{filter_of, ClientRequest, HappeningFilter};
use crate::responses::ClientResponse;
use crate::text::concat2;
use serde_json::Value;
use vstd::prelude::*;

verus! {

/// What becomes of a frame.
#[derive(Debug)]
pub enum Route {
    /// Write the response and read the next frame.
    Reply(ClientResponse),
    /// Write the response and close the connection.
    Close(ClientResponse),
    /// Dispatch the request, write the response and read the next frame.
    Dispatch(ClientRequest),
    /// Stream happenings from here on.
    StreamHappenings { since: Option<u64>, filter: HappeningFilter, coalesce: Option<Value> },
    /// Stream the projections of a subject from here on.
    StreamSubject { canonical_id: String, scope: ProjectionScope, follow_aliases: bool },
}

/// Decides what becomes of a frame. A frame that holds no request comes as the
/// parser's error. `coalesce_error` says what is wrong with the request's
/// coalescing, if anything is.
pub fn route_frame(parsed: Result<ClientRequest, String>, coalesce_error: Option<&str>) -> (r:
    Route)
    ensures
        match parsed {
            Err(why) => r matches Route::Reply(ClientResponse::Error { error }) && is_error(
                error,
                ErrorClass::ProtocolViolation,
                "invalid JSON: "@ + why@,
                "invalid_json"@,
            ),
            Ok(ClientRequest::SubscribeHappenings { since, filter, coalesce }) => if coalesce
                is Some && coalesce_error is Some {
                r matches Route::Close(ClientResponse::Error { error }) && is_error(
                    error,
                    ErrorClass::ContractViolation,
                    coalesce_error->0@,
                    "coalesce_invalid"@,
                )
            } else {
                r == (Route::StreamHappenings { since, filter: filter_of(filter), coalesce })
            },
            Ok(ClientRequest::SubscribeSubject { canonical_id, scope, follow_aliases }) => r == (
            Route::StreamSubject { canonical_id, scope: scope_of(scope), follow_aliases }),
            Ok(req) => r == Route::Dispatch(req),
        },
{
    match parsed {
        Err(why) => {
            let message = concat2("invalid JSON: ", why.as_str());
            Route::Reply(
                ClientResponse::Error {
                    error: refusal(
                        ErrorClass::ProtocolViolation,
                        message.as_str(),
                        "invalid_json",
                    ),
                },
            )
        },
        Ok(ClientRequest::SubscribeHappenings { since, filter, coalesce }) => {
            if coalesce.is_some() {
                if let Some(why) = coalesce_error {
                    return Route::Close(
                        ClientResponse::Error {
                            error: refusal(
                                ErrorClass::ContractViolation,
                                why,
                                "coalesce_invalid",
                            ),
                        },
                    );
                }
            }
            Route::StreamHappenings { since, filter: HappeningFilter::from(filter), coalesce }
        },
        Ok(ClientRequest::SubscribeSubject { canonical_id, scope, follow_aliases }) => {
            Route::StreamSubject {
                canonical_id,
                scope: ProjectionScope::from(scope),
                follow_aliases,
            }
        },
        Ok(req) => Route::Dispatch(req),
    }
}

/// Ends a connection, however it ends: a claim on the responder lock is given
/// up.
pub fn end_connection(responder: &mut Option<ResponderLock>, id: u64)
    ensures
        match *old(responder) {
            None => *final(responder) is None,
            Some(lock) => *final(responder) is Some && final(responder)->0.holder == (
            if lock.holder == Some(id) {
                None
            } else {
                lock.holder
            }),
        },
{
    match responder {
        Some(lock) => lock.release_responder(id),
        None => {},
    }
}

}
