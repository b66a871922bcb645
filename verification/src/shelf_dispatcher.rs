//! Requests that plugins send to the shelves of other plugins.
//!
//! A request travels as a JSON envelope through the steward's request path and
//! comes back as a JSON reply. This module builds the envelope, decodes the
//! reply, and classifies the error that a reply carries. Sending is done
//! outside, between [`prepare`] and [`conclude`].

use crate::codec::{base64_decoded, base64_text, decode, decodes_to, encodable, encode};
use crate::json::{
    as_number, as_text, get_field, is_object, object3, object4, object_value, render, text_of_value,
    text_value, value_fields, value_str, value_text, value_u64,
};
use crate::text::{concat2, concat4, contains_text, has_text, same_text};
use serde_json::Value;
use vstd::prelude::*;
use vstd::string::*;

verus! {

/// Why a shelf request failed.
#[derive(Debug)]
pub enum ShelfDispatchError {
    /// The shelf does not stock the verb.
    VerbNotStockedOnShelf { shelf: String, request_type: String },
    /// Nothing is admitted on the shelf.
    NoPluginOnShelf { shelf: String },
    /// The request ran out of time.
    DeadlineExceeded { budget_ms: u32 },
    /// The request may succeed later.
    Transient { detail: String },
    /// The request will not succeed.
    Permanent { detail: String },
    /// The request path itself failed.
    SubstrateFailure { detail: String },
}

/// How the request path refused a request.
#[derive(Debug)]
pub enum HttpDispatchError {
    InvalidPayload(String),
    SerializationFailed(String),
    RequestRefused { body: Value },
}

/// On whose behalf a request is made.
#[derive(Debug)]
pub struct Principal {
    pub subject: String,
    pub capabilities: Vec<String>,
}

/// The field `key` of an object.
pub open spec fn field(v: Value, key: Seq<char>) -> Option<Value> {
    match value_fields(v) {
        Some(m) => if m.contains_key(key) {
            Some(m[key])
        } else {
            None
        },
        None => None,
    }
}

/// The text of the field `key` of an object.
pub open spec fn str_field(v: Value, key: Seq<char>) -> Option<Seq<char>> {
    match field(v, key) {
        Some(f) => value_str(f),
        None => None,
    }
}

/// The text of the field `key` of an error's details, or of the error itself.
pub open spec fn detail_field(err: Value, key: Seq<char>) -> Option<Seq<char>> {
    let inner = match field(err, "details"@) {
        Some(d) => str_field(d, key),
        None => None,
    };
    if inner is Some {
        inner
    } else {
        str_field(err, key)
    }
}

/// A text, or another in its place.
pub open spec fn text_or(o: Option<Seq<char>>, other: Seq<char>) -> Seq<char> {
    match o {
        Some(s) => s,
        None => other,
    }
}

fn text_field<'a>(v: &'a Value, key: &str) -> (r: Option<&'a str>)
    ensures
        match r {
            Some(s) => str_field(*v, key@) == Some(s@),
            None => str_field(*v, key@) is None,
        },
{
    match get_field(v, key) {
        Some(f) => as_text(f),
        None => None,
    }
}

/// The text of the field `key` of an error's details, or of the error itself.
pub fn extract_field(err: &Value, key: &str) -> (r: Option<String>)
    ensures
        match r {
            Some(s) => detail_field(*err, key@) == Some(s@),
            None => detail_field(*err, key@) is None,
        },
{
    if let Some(d) = get_field(err, "details") {
        if let Some(s) = text_field(d, key) {
            return Some(s.to_owned());
        }
    }
    match text_field(err, key) {
        Some(s) => Some(s.to_owned()),
        None => None,
    }
}

/// The class of an error reply.
pub open spec fn error_class(err: Value) -> Seq<char> {
    text_or(str_field(err, "class"@), "unknown"@)
}

/// The message of an error reply.
pub open spec fn error_message(err: Value) -> Seq<char> {
    text_or(str_field(err, "message"@), Seq::empty())
}

/// The time budget that an error reply names.
pub open spec fn error_budget(err: Value) -> u32 {
    match field(err, "details"@) {
        Some(d) => match field(d, "budget_ms"@) {
            Some(b) => match value_u64(b) {
                Some(n) => n as u32,
                None => 0,
            },
            None => 0,
        },
        None => 0,
    }
}

/// The error that an error reply stands for.
pub open spec fn classified(err: Value, e: ShelfDispatchError) -> bool {
    let class = error_class(err);
    let message = error_message(err);
    if value_fields(err) is None {
        e matches ShelfDispatchError::SubstrateFailure { detail } && detail@
            == "error not an object: "@ + value_text(err)
    } else if class == "not_found"@ {
        if contains_text(message, "not stocked on shelf"@) {
            e matches ShelfDispatchError::VerbNotStockedOnShelf { shelf, request_type } && shelf@
                == text_or(detail_field(err, "shelf"@), Seq::empty()) && request_type@ == text_or(
                detail_field(err, "request_type"@),
                Seq::empty(),
            )
        } else if contains_text(message, "no plugin on shelf"@) {
            e matches ShelfDispatchError::NoPluginOnShelf { shelf } && shelf@ == text_or(
                detail_field(err, "shelf"@),
                message,
            )
        } else {
            e matches ShelfDispatchError::Permanent { detail } && detail@ == message
        }
    } else if class == "deadline_exceeded"@ {
        e matches ShelfDispatchError::DeadlineExceeded { budget_ms } && budget_ms == error_budget(
            err,
        )
    } else if class == "transient"@ {
        e matches ShelfDispatchError::Transient { detail } && detail@ == message
    } else if class == "permanent"@ || class == "contract_violation"@ || class == "bad_request"@ {
        e matches ShelfDispatchError::Permanent { detail } && detail@ == message
    } else {
        e matches ShelfDispatchError::SubstrateFailure { detail } && detail@ == "class="@ + class
            + " message="@ + message
    }
}

fn budget_of(err: &Value) -> (r: u32)
    ensures
        r == error_budget(*err),
{
    if let Some(d) = get_field(err, "details") {
        if let Some(b) = get_field(d, "budget_ms") {
            if let Some(n) = as_number(b) {
                return n as u32;
            }
        }
    }
    0
}

fn text_or_empty(o: Option<String>) -> (r: String)
    ensures
        r@ == (match o {
            Some(s) => s@,
            None => Seq::empty(),
        }),
{
    match o {
        Some(s) => s,
        None => String::new(),
    }
}

/// Classifies the error of an error reply.
pub fn classify_error_payload(err: &Value) -> (r: ShelfDispatchError)
    ensures
        classified(*err, r),
{
    if !is_object(err) {
        return ShelfDispatchError::SubstrateFailure {
            detail: concat2("error not an object: ", render(err).as_str()),
        };
    }
    let class = match text_field(err, "class") {
        Some(s) => s,
        None => "unknown",
    };
    let detail = match text_field(err, "message") {
        Some(s) => s.to_owned(),
        None => String::new(),
    };
    if same_text(class, "not_found") {
        if has_text(detail.as_str(), "not stocked on shelf") {
            ShelfDispatchError::VerbNotStockedOnShelf {
                shelf: text_or_empty(extract_field(err, "shelf")),
                request_type: text_or_empty(extract_field(err, "request_type")),
            }
        } else if has_text(detail.as_str(), "no plugin on shelf") {
            let shelf = match extract_field(err, "shelf") {
                Some(s) => s,
                None => detail,
            };
            ShelfDispatchError::NoPluginOnShelf { shelf }
        } else {
            ShelfDispatchError::Permanent { detail }
        }
    } else if same_text(class, "deadline_exceeded") {
        ShelfDispatchError::DeadlineExceeded { budget_ms: budget_of(err) }
    } else if same_text(class, "transient") {
        ShelfDispatchError::Transient { detail }
    } else if same_text(class, "permanent") || same_text(class, "contract_violation") || same_text(
        class,
        "bad_request",
    ) {
        ShelfDispatchError::Permanent { detail }
    } else {
        ShelfDispatchError::SubstrateFailure {
            detail: concat4("class=", class, " message=", detail.as_str()),
        }
    }
}

/// What a reply is worth to the plugin that sent the request.
pub open spec fn decoded(value: Value, r: Result<Vec<u8>, ShelfDispatchError>) -> bool {
    if value_fields(value) is None {
        r matches Err(ShelfDispatchError::SubstrateFailure { detail }) && detail@
            == "expected JSON object response, got "@ + value_text(value)
    } else if field(value, "error"@) is Some {
        r matches Err(e) && classified(field(value, "error"@)->0, e)
    } else {
        match str_field(value, "payload_b64"@) {
            None => r matches Err(ShelfDispatchError::SubstrateFailure { detail }) && detail@
                == "response missing payload_b64 field: "@ + value_text(value),
            Some(text) => match base64_decoded(text) {
                Ok(bytes) => r matches Ok(payload) && payload@ == bytes,
                Err(why) => r matches Err(ShelfDispatchError::SubstrateFailure { detail })
                    && detail@ == "payload_b64 decode failed: "@ + why,
            },
        }
    }
}

/// Decodes a reply: the payload of a success envelope, or the classified error
/// of an error envelope.
pub fn decode_dispatch_response(value: Value) -> (r: Result<Vec<u8>, ShelfDispatchError>)
    ensures
        decoded(value, r),
{
    if !is_object(&value) {
        return Err(
            ShelfDispatchError::SubstrateFailure {
                detail: concat2("expected JSON object response, got ", render(&value).as_str()),
            },
        );
    }
    if let Some(err) = get_field(&value, "error") {
        return Err(classify_error_payload(err));
    }
    let text = match text_field(&value, "payload_b64") {
        Some(s) => s,
        None => {
            return Err(
                ShelfDispatchError::SubstrateFailure {
                    detail: concat2(
                        "response missing payload_b64 field: ",
                        render(&value).as_str(),
                    ),
                },
            );
        },
    };
    match decode(text) {
        Ok(bytes) => Ok(bytes),
        Err(why) => Err(
            ShelfDispatchError::SubstrateFailure {
                detail: concat2("payload_b64 decode failed: ", why.as_str()),
            },
        ),
    }
}

/// What the request path's answer is worth to the plugin that sent the request.
pub open spec fn concluded(
    outcome: Result<Value, HttpDispatchError>,
    r: Result<Vec<u8>, ShelfDispatchError>,
) -> bool {
    match outcome {
        Ok(value) => decoded(value, r),
        Err(HttpDispatchError::InvalidPayload(why)) => r matches Err(
            ShelfDispatchError::Permanent { detail },
        ) && detail@ == why@,
        Err(HttpDispatchError::SerializationFailed(why)) => r matches Err(
            ShelfDispatchError::SubstrateFailure { detail },
        ) && detail@ == why@,
        Err(HttpDispatchError::RequestRefused { body }) => match field(body, "error"@) {
            Some(err) => r matches Err(e) && classified(err, e),
            None => r matches Err(ShelfDispatchError::SubstrateFailure { detail }) && detail@
                == "refused response missing error envelope: "@ + value_text(body),
        },
    }
}

/// Turns the request path's answer into what the sender gets.
pub fn conclude(outcome: Result<Value, HttpDispatchError>) -> (r: Result<
    Vec<u8>,
    ShelfDispatchError,
>)
    ensures
        concluded(outcome, r),
{
    match outcome {
        Ok(value) => decode_dispatch_response(value),
        Err(HttpDispatchError::InvalidPayload(detail)) => Err(
            ShelfDispatchError::Permanent { detail },
        ),
        Err(HttpDispatchError::SerializationFailed(detail)) => Err(
            ShelfDispatchError::SubstrateFailure { detail },
        ),
        Err(HttpDispatchError::RequestRefused { body }) => match get_field(&body, "error") {
            Some(err) => Err(classify_error_payload(err)),
            None => Err(
                ShelfDispatchError::SubstrateFailure {
                    detail: concat2(
                        "refused response missing error envelope: ",
                        render(&body).as_str(),
                    ),
                },
            ),
        },
    }
}

/// The envelope of a shelf request.
pub open spec fn envelope(
    shelf: Seq<char>,
    request_type: Seq<char>,
    payload: Seq<u8>,
    instance_id: Option<Seq<char>>,
) -> Value {
    match instance_id {
        None => object_value(
            map![
                "shelf"@ => text_value(shelf),
                "request_type"@ => text_value(request_type),
                "payload_b64"@ => text_value(base64_text(payload)),
            ],
        ),
        Some(id) => object_value(
            map![
                "shelf"@ => text_value(shelf),
                "request_type"@ => text_value(request_type),
                "payload_b64"@ => text_value(base64_text(payload)),
                "instance_id"@ => text_value(id),
            ],
        ),
    }
}

/// Builds the envelope of a shelf request.
pub fn build_envelope(
    shelf: &str,
    request_type: &str,
    payload: &Vec<u8>,
    instance_id: Option<&str>,
) -> (r: Value)
    requires
        encodable(payload@.len()),
    ensures
        r == envelope(
            shelf@,
            request_type@,
            payload@,
            match instance_id {
                Some(id) => Some(id@),
                None => None,
            },
        ),
{
    let body = text_of_value(encode(payload.as_slice()).as_str());
    proof {
        reveal_strlit("shelf");
        reveal_strlit("request_type");
        reveal_strlit("payload_b64");
        reveal_strlit("instance_id");
        assert("shelf"@.len() == 5);
        assert("request_type"@.len() == 12);
        assert("payload_b64"@.len() == 11);
        assert("instance_id"@.len() == 11);
        assert("payload_b64"@[0] == 'p' && "instance_id"@[0] == 'i');
    }
    match instance_id {
        None => object3(
            "shelf",
            text_of_value(shelf),
            "request_type",
            text_of_value(request_type),
            "payload_b64",
            body,
        ),
        Some(id) => object4(
            "shelf",
            text_of_value(shelf),
            "request_type",
            text_of_value(request_type),
            "payload_b64",
            body,
            "instance_id",
            text_of_value(id),
        ),
    }
}

/// What a sender is told before the dispatcher is wired to the server.
pub open spec fn unwired_text() -> Seq<char> {
    "shelf request dispatcher not yet wired to server (admission-time dispatch before boot complete; retryable)"@
}

/// The dispatcher, with a handle of the server once that exists.
pub struct StewardShelfRequestDispatcher<S> {
    server: Option<S>,
}

impl<S> View for StewardShelfRequestDispatcher<S> {
    type V = Option<S>;

    closed spec fn view(&self) -> Option<S> {
        self.server
    }
}

impl<S> StewardShelfRequestDispatcher<S> {
    /// A dispatcher that is not wired yet.
    pub fn new() -> (r: Self)
        ensures
            r@ is None,
    {
        StewardShelfRequestDispatcher { server: None }
    }

    /// Wires the dispatcher. The first server stays: later calls are ignored.
    pub fn set_server(&mut self, server: S)
        ensures
            final(self)@ == (match old(self)@ {
                Some(s) => Some(s),
                None => Some(server),
            }),
    {
        if self.server.is_none() {
            self.server = Some(server);
        }
    }

    /// The server, once the dispatcher is wired.
    pub fn server_handle(&self) -> (r: Option<&S>)
        ensures
            match r {
                Some(s) => self@ == Some(*s),
                None => self@ is None,
            },
    {
        self.server.as_ref()
    }
}

impl<S> Default for StewardShelfRequestDispatcher<S> {
    /// A dispatcher that is not wired yet.
    fn default() -> (r: Self)
        ensures
            r@ is None,
    {
        Self::new()
    }
}

/// Prepares a request: its envelope, or the retryable failure that the sender
/// gets while there is no server to send it to.
pub fn prepare(
    server_is_live: bool,
    shelf: &str,
    request_type: &str,
    payload: &Vec<u8>,
    instance_id: Option<&str>,
) -> (r: Result<Value, ShelfDispatchError>)
    requires
        encodable(payload@.len()),
    ensures
        match r {
            Ok(v) => server_is_live && v == envelope(
                shelf@,
                request_type@,
                payload@,
                match instance_id {
                    Some(id) => Some(id@),
                    None => None,
                },
            ),
            Err(e) => !server_is_live && (e matches ShelfDispatchError::SubstrateFailure { detail }
                && detail@ == unwired_text()),
        },
{
    if !server_is_live {
        return Err(
            ShelfDispatchError::SubstrateFailure {
                detail:
                    "shelf request dispatcher not yet wired to server (admission-time dispatch before boot complete; retryable)".to_owned(),
            },
        );
    }
    Ok(build_envelope(shelf, request_type, payload, instance_id))
}

/// The capabilities that plugin-issued requests carry: none, the destination's
/// own gates decide.
pub fn plugin_system_capabilities() -> (r: Vec<String>)
    ensures
        r@.len() == 0,
{
    Vec::new()
}

/// The principal of requests that in-process plugins send.
pub fn plugin_system_principal() -> (r: Principal)
    ensures
        r.subject@ == "plugin-system"@,
        r.capabilities@.len() == 0,
{
    Principal { subject: "plugin-system".to_owned(), capabilities: plugin_system_capabilities() }
}

/// The principal of requests that an out-of-process plugin sends: the plugin
/// itself.
pub fn caller_principal(caller_plugin: &str) -> (r: Principal)
    ensures
        r.subject@ == caller_plugin@,
        r.capabilities@.len() == 0,
{
    Principal { subject: caller_plugin.to_owned(), capabilities: plugin_system_capabilities() }
}

/// What a handler sends back reaches the sender: a success envelope of some
/// bytes decodes to those bytes.
pub proof fn law_payload_round_trip(
    bytes: Seq<u8>,
    text: Seq<char>,
    value: Value,
    r: Result<Vec<u8>, ShelfDispatchError>,
)
    requires
        decodes_to(text, bytes),
        str_field(value, "payload_b64"@) == Some(text),
        field(value, "error"@) is None,
        decoded(value, r),
    ensures
        r matches Ok(payload) && payload@ == bytes,
{
}

/// A refusal is classified alike whether the request path reports it as a
/// refusal or as a reply with an error in it.
pub proof fn law_refusal_is_classified_alike(
    body: Value,
    a: Result<Vec<u8>, ShelfDispatchError>,
    b: Result<Vec<u8>, ShelfDispatchError>,
)
    requires
        field(body, "error"@) is Some,
        concluded(Ok(body), a),
        concluded(Err(HttpDispatchError::RequestRefused { body }), b),
    ensures
        a matches Err(e) && classified(field(body, "error"@)->0, e),
        b matches Err(e) && classified(field(body, "error"@)->0, e),
{
}

}
