//! Laws of the requests that plugins send to the shelves of other plugins.

use crate::codec::{base64_decoded, base64_text, encodable};
use crate::json::{object_value, text_value, value_fields, value_str, value_text, value_u64};
use crate::shelf_dispatcher::{
    build_envelope, caller_principal, classify_error_payload, conclude, decode_dispatch_response,
    extract_field, plugin_system_capabilities, plugin_system_principal, prepare,
    HttpDispatchError, Principal, ShelfDispatchError, StewardShelfRequestDispatcher,
};
use crate::text::contains_text;
use serde_json::Value;
use vstd::prelude::*;

verus! {

/// The object has the entry.
pub open spec fn has_entry(v: Value, key: Seq<char>) -> bool {
    value_fields(v) is Some && value_fields(v)->Some_0.contains_key(key)
}

/// The entry of an object.
pub open spec fn entry(v: Value, key: Seq<char>) -> Value {
    value_fields(v)->Some_0[key]
}

/// The object has the entry, and it is this text.
pub open spec fn reads(v: Value, key: Seq<char>, text: Seq<char>) -> bool {
    has_entry(v, key) && value_str(entry(v, key)) == Some(text)
}

/// The object has the entry, and it is a text.
pub open spec fn is_text(v: Value, key: Seq<char>) -> bool {
    has_entry(v, key) && value_str(entry(v, key)) is Some
}

/// The details of the error have the text under the key; where they have none, the
/// error itself has it.
pub open spec fn specifies(err: Value, key: Seq<char>, text: Seq<char>) -> bool {
    if has_entry(err, "details"@) && is_text(entry(err, "details"@), key) {
        reads(entry(err, "details"@), key, text)
    } else {
        reads(err, key, text)
    }
}

/// Neither the details of the error nor the error itself have a text under the key.
pub open spec fn leaves_open(err: Value, key: Seq<char>) -> bool {
    !(has_entry(err, "details"@) && is_text(entry(err, "details"@), key)) && !is_text(err, key)
}

/// A field of an error is looked for in its details first.
pub proof fn law_details_come_first(err: Value, key: &str, r: Option<String>)
    requires
        call_ensures(extract_field, (&err, key), r),
    ensures
        r is Some ==> specifies(err, key@, r->Some_0@),
        r is None ==> leaves_open(err, key@),
{
}

/// The message of an error: what it gives as such, or nothing.
pub open spec fn message_is(err: Value, message: Seq<char>) -> bool {
    if is_text(err, "message"@) {
        reads(err, "message"@, message)
    } else {
        message == Seq::<char>::empty()
    }
}

/// The failure is what the error reports. A shelf that has no plugin and one that does
/// not stock the verb are told apart by the message; a deadline comes with its budget;
/// what may succeed later is told apart from what will not; anything else is the fault
/// of the request path.
pub open spec fn stands_for_failure(
    err: Value,
    message: Seq<char>,
    e: ShelfDispatchError,
) -> bool {
    &&& value_fields(err) is None ==> e is SubstrateFailure && e->SubstrateFailure_detail@
        == "error not an object: "@ + value_text(err)
    &&& reads(err, "class"@, "not_found"@) ==> ({
        &&& contains_text(message, "not stocked on shelf"@) ==> ({
            &&& e is VerbNotStockedOnShelf
            &&& specifies(err, "shelf"@, e->VerbNotStockedOnShelf_shelf@) || (leaves_open(
                err,
                "shelf"@,
            ) && e->VerbNotStockedOnShelf_shelf@ == Seq::<char>::empty())
            &&& specifies(err, "request_type"@, e->request_type@) || (leaves_open(
                err,
                "request_type"@,
            ) && e->request_type@ == Seq::<char>::empty())
        })
        &&& !contains_text(message, "not stocked on shelf"@) && contains_text(
            message,
            "no plugin on shelf"@,
        ) ==> ({
            &&& e is NoPluginOnShelf
            &&& specifies(err, "shelf"@, e->NoPluginOnShelf_shelf@) || (leaves_open(
                err,
                "shelf"@,
            ) && e->NoPluginOnShelf_shelf@ == message)
        })
        &&& !contains_text(message, "not stocked on shelf"@) && !contains_text(
            message,
            "no plugin on shelf"@,
        ) ==> e is Permanent && e->Permanent_detail@ == message
    })
    &&& reads(err, "class"@, "deadline_exceeded"@) ==> ({
        &&& e is DeadlineExceeded
        &&& forall|n: u64|
            has_entry(err, "details"@) && has_entry(entry(err, "details"@), "budget_ms"@)
                && #[trigger] value_u64(entry(entry(err, "details"@), "budget_ms"@)) == Some(n)
                ==> e->budget_ms == n as u32
        &&& has_entry(err, "details"@) && has_entry(entry(err, "details"@), "budget_ms"@)
            && value_u64(entry(entry(err, "details"@), "budget_ms"@)) is None ==> e->budget_ms == 0
        &&& !has_entry(err, "details"@) || !has_entry(entry(err, "details"@), "budget_ms"@)
            ==> e->budget_ms == 0
    })
    &&& reads(err, "class"@, "transient"@) ==> e is Transient && e->Transient_detail@ == message
    &&& reads(err, "class"@, "permanent"@) || reads(err, "class"@, "contract_violation"@) || reads(
        err,
        "class"@,
        "bad_request"@,
    ) ==> e is Permanent && e->Permanent_detail@ == message
    &&& value_fields(err) is Some && !is_text(err, "class"@) ==> e is SubstrateFailure
        && e->SubstrateFailure_detail@ == "class="@ + "unknown"@ + " message="@ + message
    &&& forall|class: Seq<char>| #[trigger]
        reads(err, "class"@, class) && class != "not_found"@ && class != "deadline_exceeded"@
            && class != "transient"@ && class != "permanent"@ && class != "contract_violation"@
            && class != "bad_request"@ ==> e is SubstrateFailure && e->SubstrateFailure_detail@
            == "class="@ + class + " message="@ + message
}

proof fn lemma_classes_differ()
    ensures
        "not_found"@ != "deadline_exceeded"@,
        "not_found"@ != "transient"@,
        "not_found"@ != "permanent"@,
        "not_found"@ != "contract_violation"@,
        "not_found"@ != "bad_request"@,
        "not_found"@ != "unknown"@,
        "deadline_exceeded"@ != "transient"@,
        "deadline_exceeded"@ != "permanent"@,
        "deadline_exceeded"@ != "contract_violation"@,
        "deadline_exceeded"@ != "bad_request"@,
        "deadline_exceeded"@ != "unknown"@,
        "transient"@ != "permanent"@,
        "transient"@ != "contract_violation"@,
        "transient"@ != "bad_request"@,
        "transient"@ != "unknown"@,
        "permanent"@ != "unknown"@,
        "contract_violation"@ != "unknown"@,
        "bad_request"@ != "unknown"@,
{
    reveal_strlit("not_found");
    reveal_strlit("deadline_exceeded");
    reveal_strlit("transient");
    reveal_strlit("permanent");
    reveal_strlit("contract_violation");
    reveal_strlit("bad_request");
    reveal_strlit("unknown");
    assert("not_found"@[0] == 'n');
    assert("deadline_exceeded"@[0] == 'd');
    assert("transient"@[0] == 't');
    assert("permanent"@[0] == 'p');
    assert("contract_violation"@[0] == 'c');
    assert("bad_request"@[0] == 'b');
    assert("unknown"@[0] == 'u');
}

proof fn lemma_classified(err: Value, message: Seq<char>, e: ShelfDispatchError)
    requires
        crate::shelf_dispatcher::classified(err, e),
        message_is(err, message),
    ensures
        stands_for_failure(err, message, e),
{
    lemma_classes_differ();
    assert(crate::shelf_dispatcher::error_message(err) == message);
}

/// An error is classified by its class and its message.
pub proof fn law_errors_are_classified(err: Value, message: Seq<char>, e: ShelfDispatchError)
    requires
        call_ensures(classify_error_payload, (&err,), e),
        message_is(err, message),
    ensures
        stands_for_failure(err, message, e),
{
    lemma_classified(err, message, e);
}

/// The result is what the reply is worth: the failure that its error stands for, or the
/// bytes of its payload.
pub open spec fn is_worth(
    value: Value,
    message: Seq<char>,
    r: Result<Vec<u8>, ShelfDispatchError>,
) -> bool {
    &&& value_fields(value) is None ==> r is Err && r->Err_0 is SubstrateFailure
        && r->Err_0->SubstrateFailure_detail@ == "expected JSON object response, got "@
        + value_text(value)
    &&& has_entry(value, "error"@) && message_is(entry(value, "error"@), message) ==> r is Err
        && stands_for_failure(entry(value, "error"@), message, r->Err_0)
    &&& value_fields(value) is Some && !has_entry(value, "error"@) ==> ({
        &&& !is_text(value, "payload_b64"@) ==> r is Err && r->Err_0 is SubstrateFailure
            && r->Err_0->SubstrateFailure_detail@ == "response missing payload_b64 field: "@
            + value_text(value)
        &&& forall|text: Seq<char>| #[trigger]
            reads(value, "payload_b64"@, text) ==> match base64_decoded(text) {
                Ok(bytes) => r is Ok && r->Ok_0@ == bytes,
                Err(why) => r is Err && r->Err_0 is SubstrateFailure
                    && r->Err_0->SubstrateFailure_detail@ == "payload_b64 decode failed: "@ + why,
            }
    })
}

proof fn lemma_worth(value: Value, message: Seq<char>, r: Result<Vec<u8>, ShelfDispatchError>)
    requires
        crate::shelf_dispatcher::decoded(value, r),
    ensures
        is_worth(value, message, r),
{
    if has_entry(value, "error"@) && message_is(entry(value, "error"@), message) {
        lemma_classified(entry(value, "error"@), message, r->Err_0);
    }
}

/// A reply is worth its payload, or the failure that its error stands for.
pub proof fn law_replies_are_decoded(
    value: Value,
    message: Seq<char>,
    r: Result<Vec<u8>, ShelfDispatchError>,
)
    requires
        call_ensures(decode_dispatch_response, (value,), r),
    ensures
        is_worth(value, message, r),
{
    lemma_worth(value, message, r);
}

/// What the request path answers reaches the sender: a reply for what it is worth, a
/// payload that was refused as a failure for good, a request that could not be written
/// as the request path's fault, and a refusal as the error that it carries.
pub proof fn law_answers_reach_the_sender(
    outcome: Result<Value, HttpDispatchError>,
    message: Seq<char>,
    r: Result<Vec<u8>, ShelfDispatchError>,
)
    requires
        call_ensures(conclude, (outcome,), r),
    ensures
        match outcome {
            Ok(value) => is_worth(value, message, r),
            Err(HttpDispatchError::InvalidPayload(why)) => r is Err && r->Err_0 is Permanent
                && r->Err_0->Permanent_detail@ == why@,
            Err(HttpDispatchError::SerializationFailed(why)) => {
                r is Err && r->Err_0 is SubstrateFailure && r->Err_0->SubstrateFailure_detail@
                    == why@
            },
            Err(HttpDispatchError::RequestRefused { body }) => {
                &&& r is Err
                &&& has_entry(body, "error"@) && message_is(entry(body, "error"@), message)
                    ==> stands_for_failure(entry(body, "error"@), message, r->Err_0)
                &&& !has_entry(body, "error"@) ==> r->Err_0 is SubstrateFailure
                    && r->Err_0->SubstrateFailure_detail@
                    == "refused response missing error envelope: "@ + value_text(body)
            },
        },
{
    match outcome {
        Ok(value) => {
            lemma_worth(value, message, r);
        },
        Err(HttpDispatchError::RequestRefused { body }) => {
            if has_entry(body, "error"@) && message_is(entry(body, "error"@), message) {
                lemma_classified(entry(body, "error"@), message, r->Err_0);
            }
        },
        _ => {},
    }
}

/// The envelope holds the request: the shelf, the verb, the payload in base64, and the
/// instance where one is meant, each under its name, and nothing else.
pub open spec fn encloses(
    v: Value,
    shelf: Seq<char>,
    request_type: Seq<char>,
    payload: Seq<u8>,
    instance_id: Option<&str>,
) -> bool {
    &&& instance_id is None ==> v == object_value(
        map![
            "shelf"@ => text_value(shelf),
            "request_type"@ => text_value(request_type),
            "payload_b64"@ => text_value(base64_text(payload)),
        ],
    )
    &&& instance_id is Some ==> v == object_value(
        map![
            "shelf"@ => text_value(shelf),
            "request_type"@ => text_value(request_type),
            "payload_b64"@ => text_value(base64_text(payload)),
            "instance_id"@ => text_value(instance_id->Some_0@),
        ],
    )
}

/// A request is sent in an envelope, once there is a server; until then the sender is
/// told to try again.
pub proof fn law_requests_are_enclosed(
    server_is_live: bool,
    shelf: &str,
    request_type: &str,
    payload: Vec<u8>,
    instance_id: Option<&str>,
    v: Value,
    r: Result<Value, ShelfDispatchError>,
)
    requires
        encodable(payload@.len()),
        call_ensures(build_envelope, (shelf, request_type, &payload, instance_id), v),
        call_ensures(prepare, (server_is_live, shelf, request_type, &payload, instance_id), r),
    ensures
        encloses(v, shelf@, request_type@, payload@, instance_id),
        r is Ok <==> server_is_live,
        r is Ok ==> encloses(r->Ok_0, shelf@, request_type@, payload@, instance_id),
        r is Err ==> r->Err_0 is SubstrateFailure && r->Err_0->SubstrateFailure_detail@
            == "shelf request dispatcher not yet wired to server (admission-time dispatch before boot complete; retryable)"@,
{
}

/// A dispatcher is wired once: the first server that it gets stays.
pub proof fn law_the_first_server_stays<S>(
    fresh: StewardShelfRequestDispatcher<S>,
    default: StewardShelfRequestDispatcher<S>,
    dispatcher: &mut StewardShelfRequestDispatcher<S>,
    server: S,
    some: StewardShelfRequestDispatcher<S>,
    handle: Option<&S>,
)
    requires
        call_ensures(StewardShelfRequestDispatcher::<S>::new, (), fresh),
        call_ensures(<StewardShelfRequestDispatcher<S> as Default>::default, (), default),
        call_ensures(
            StewardShelfRequestDispatcher::<S>::set_server,
            (dispatcher, server),
            (),
        ),
        call_ensures(StewardShelfRequestDispatcher::<S>::server_handle, (&some,), handle),
    ensures
        fresh@ is None,
        default@ is None,
        old(dispatcher)@ is None ==> final(dispatcher)@ == Some(server),
        old(dispatcher)@ is Some ==> final(dispatcher)@ == old(dispatcher)@,
        handle is Some <==> some@ is Some,
        handle is Some ==> some@ == Some(*handle->Some_0),
{
}

/// A plugin's requests carry no capability: they are made in the name of the plugin
/// system, or of the plugin itself where it runs in a process of its own.
pub proof fn law_plugins_bring_no_capabilities(
    none: Vec<String>,
    system: Principal,
    plugin: &str,
    caller: Principal,
)
    requires
        call_ensures(plugin_system_capabilities, (), none),
        call_ensures(plugin_system_principal, (), system),
        call_ensures(caller_principal, (plugin,), caller),
    ensures
        none@.len() == 0,
        system.subject@ == "plugin-system"@,
        system.capabilities@.len() == 0,
        caller.subject@ == plugin@,
        caller.capabilities@.len() == 0,
{
}

}
