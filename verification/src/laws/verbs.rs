//! What a source verb does to the plugin that plays, to the custody of the active
//! source, and to the audit ledger.

use crate::json::{array_value, value_fields, value_str, value_text, value_u64};
use crate::source_verb_dispatch::{check_shape, request_for, scheme, scheme_of};
use crate::source_verb_dispatch::{breaks_scheme, first_colon, payload_value};
use crate::source_verb_dispatch::{claim_value, DefaultSourceVerbDispatcher, DispatchAction};
use crate::source_verb_dispatch::{DispatchError, DispatchEvent, ItemUri, LifecycleOutcome};
use crate::source_verb_dispatch::{LocatedPlugin, SourceClaim, SourceVerb, VerbApprover};
use crate::source_verb_dispatch::{VerbCall, VerbDispatch, VerbRequest, AUDIO_ACTIVE_SOURCE};
use crate::text::decimal;
use serde_json::Value;
use vstd::prelude::*;
use vstd::utf8::*;

verus! {

/// The name under which a handler knows a call.
pub open spec fn verb_name(call: VerbCall) -> Seq<char> {
    match call {
        VerbCall::PlayNow { .. } => "play_now"@,
        VerbCall::PlayNowCollection { .. } => "play_now_collection"@,
        VerbCall::Stop => "stop"@,
        VerbCall::Pause => "pause"@,
        VerbCall::Resume => "resume"@,
        VerbCall::Seek { .. } => "seek"@,
        VerbCall::Next => "next"@,
        VerbCall::Previous => "previous"@,
    }
}

/// The call starts something to play.
pub open spec fn starts(call: VerbCall) -> bool {
    call is PlayNow || call is PlayNowCollection
}

/// The verb of a call, by its name, and what it does to custody: only what starts
/// something acquires it, and only a stop gives it up.
pub proof fn law_verbs_by_their_names(
    call: VerbCall,
    verb: SourceVerb,
    name: &'static str,
    acquires: bool,
    releases: bool,
    by_uri: bool,
)
    requires
        call_ensures(VerbCall::verb, (&call,), verb),
        call_ensures(SourceVerb::as_str, (verb,), name),
        call_ensures(VerbCall::acquires_custody, (&call,), acquires),
        call_ensures(VerbCall::releases_custody, (&call,), releases),
        call_ensures(VerbCall::resolves_via_uri, (&call,), by_uri),
    ensures
        name@ == verb_name(call),
        acquires <==> starts(call),
        by_uri <==> starts(call),
        releases <==> call is Stop,
{
}

/// The verbs that no call has go by these names.
pub proof fn law_verbs_without_a_call_by_their_names(verb: SourceVerb, name: &'static str)
    requires
        call_ensures(SourceVerb::as_str, (verb,), name),
    ensures
        verb is PlayNext ==> name@ == "play_next"@,
        verb is Enqueue ==> name@ == "enqueue"@,
        verb is EnqueueAndStart ==> name@ == "enqueue_and_start"@,
        verb is ReplaceQueue ==> name@ == "replace_queue"@,
        verb is Save ==> name@ == "save"@,
{
}

/// The URI that finds the handler is the item's, or the first item's.
pub proof fn law_primary_uris_come_first(call: VerbCall, r: Option<&ItemUri>)
    requires
        call_ensures(VerbCall::primary_uri, (&call,), r),
    ensures
        call matches VerbCall::PlayNow { uri } ==> r is Some && r->0@ == uri@,
        call matches VerbCall::PlayNowCollection { uris } ==> r is Some && r->0@ == uris@[0]@,
        !starts(call) ==> r is None,
{
}

/// The approver's text tells users, plans and subsystems apart.
pub proof fn law_approvers_are_told_apart(approver: VerbApprover, r: String)
    requires
        call_ensures(VerbApprover::to_text, (&approver,), r),
    ensures
        approver matches VerbApprover::User { uid } ==> r@ == "user:"@ + decimal(uid as nat),
        approver matches VerbApprover::Plan { plan_id } ==> r@ == "plan:"@ + plan_id@,
        approver matches VerbApprover::System { reason } ==> r@ == "system:"@ + reason@,
{
}

/// The value says what to play or where to go: a play names its URI, a collection
/// all of its URIs in order, a seek its position.
pub open spec fn orders(v: Value, call: VerbCall) -> bool {
    &&& value_fields(v) matches Some(fields)
    &&& fields.contains_key("v"@) && value_u64(fields["v"@]) == Some(1u64)
    &&& call matches VerbCall::PlayNow { uri } ==> fields.contains_key("uri"@) && value_str(
        fields["uri"@],
    ) == Some(uri@)
    &&& call matches VerbCall::PlayNowCollection { uris } ==> fields.contains_key("uris"@)
        && exists|items: Seq<Value>| #[trigger]
        array_value(items) == fields["uris"@] && items.len() == uris@.len() && forall|i: int|
            0 <= i < items.len() ==> value_str(#[trigger] items[i]) == Some(uris@[i]@)
    &&& call matches VerbCall::Seek { position_ms } ==> fields.contains_key("position_ms"@)
        && value_u64(fields["position_ms"@]) == Some(position_ms)
}

/// The request names the verb, its payload is the text of a JSON object that says
/// what to do, and it carries no id and no elevation of its own.
pub open spec fn conveys(r: VerbRequest, call: VerbCall) -> bool {
    &&& r.request_type@ == verb_name(call)
    &&& exists|v: Value| #[trigger] orders(v, call) && r.payload@ == encode_utf8(value_text(v))
    &&& r.correlation_id == 0
    &&& !r.has_step_up
}

proof fn lemma_conveys(r: VerbRequest, call: VerbCall)
    requires
        crate::source_verb_dispatch::is_request_of(r, call),
    ensures
        conveys(r, call),
{
    assert(orders(payload_value(call), call));
}

/// A handler is told which verb it is, and what to play or where to go.
pub proof fn law_requests_convey_the_call(call: VerbCall, r: VerbRequest)
    requires
        call_ensures(request_for, (&call,), r),
    ensures
        conveys(r, call),
{
    lemma_conveys(r, call);
}

/// Two plays whose requests are the same in their JSON have the same URI.
pub proof fn law_orders_tell_plays_apart(v: Value, a: VerbCall, b: VerbCall)
    requires
        orders(v, a),
        orders(v, b),
    ensures
        a matches VerbCall::PlayNow { uri: x } ==> b matches VerbCall::PlayNow { uri: y } ==> x@
            == y@,
        a matches VerbCall::Seek { position_ms: x } ==> b matches VerbCall::Seek {
            position_ms: y,
        } ==> x == y,
{
}

/// A URI's scheme is what stands before its first colon, and is not empty; a URI
/// without one is invalid.
pub proof fn law_schemes_stand_before_the_colon(uri: &str, r: Result<&str, DispatchError>)
    requires
        call_ensures(scheme_of, (uri,), r),
    ensures
        match r {
            Ok(s) => {
                &&& 0 < s@.len() < uri@.len()
                &&& s@ == uri@.take(s@.len() as int)
                &&& uri@[s@.len() as int] == ':'
                &&& forall|i: int| 0 <= i < s@.len() ==> uri@[i] != ':'
            },
            Err(e) => {
                &&& e matches DispatchError::InvalidUri(text) && text@ == uri@
                &&& (uri@.len() > 0 && uri@[0] == ':') || forall|i: int|
                    0 <= i < uri@.len() ==> uri@[i] != ':'
            },
        },
{
    lemma_scheme(uri@);
}

proof fn lemma_scheme(uri: Seq<char>)
    ensures
        match scheme(uri) {
            Some(s) => {
                &&& 0 < s.len() < uri.len()
                &&& s == uri.take(s.len() as int)
                &&& uri[s.len() as int] == ':'
                &&& forall|i: int| 0 <= i < s.len() ==> uri[i] != ':'
            },
            None => (uri.len() > 0 && uri[0] == ':') || forall|i: int|
                0 <= i < uri.len() ==> uri[i] != ':',
        },
{
    if exists|i: int| first_colon(uri, i) {
    } else {
        if exists|i: int| 0 <= i < uri.len() && uri[i] == ':' {
            let i = choose|i: int| 0 <= i < uri.len() && uri[i] == ':';
            lemma_some_colon_is_first(uri, i);
        }
    }
}

proof fn lemma_some_colon_is_first(uri: Seq<char>, i: int)
    requires
        0 <= i < uri.len(),
        uri[i] == ':',
    ensures
        exists|k: int| first_colon(uri, k),
    decreases i,
{
    if exists|j: int| 0 <= j < i && uri[j] == ':' {
        let j = choose|j: int| 0 <= j < i && uri[j] == ':';
        lemma_some_colon_is_first(uri, j);
    } else {
        assert(first_colon(uri, i));
    }
}

/// Item `i` is the first that does not have the scheme of the first item, or is the
/// first item itself and has none.
pub open spec fn first_odd(uris: Seq<ItemUri>, i: int) -> bool {
    &&& 0 <= i < uris.len()
    &&& forall|j: int| 0 <= j < i ==> scheme((#[trigger] uris[j])@) == scheme(uris[0]@)
    &&& if i == 0 {
        scheme(uris[0]@) is None
    } else {
        scheme(uris[0]@) is Some && scheme(uris[i]@) != scheme(uris[0]@)
    }
}

/// The refusal is about item `i`: it has no scheme, or another one than the first.
pub open spec fn names_the_odd(uris: Seq<ItemUri>, i: int, e: DispatchError) -> bool {
    match scheme(uris[i]@) {
        None => e matches DispatchError::InvalidUri(text) && text@ == uris[i]@,
        Some(other) => e matches DispatchError::CollectionSchemeMismatch {
            first_scheme,
            other_scheme,
        } && scheme(uris[0]@) == Some(first_scheme@) && other_scheme@ == other,
    }
}

/// A collection is accepted if and only if it has items and all have the scheme of
/// the first. A refusal names the trouble: no items, an item without a scheme, or
/// the two schemes that differ.
pub proof fn law_collections_have_one_scheme(call: VerbCall, r: Result<(), DispatchError>)
    requires
        call_ensures(check_shape, (&call,), r),
    ensures
        match call {
            VerbCall::PlayNowCollection { uris } => {
                &&& r is Ok <==> uris@.len() > 0 && scheme(uris@[0]@) is Some && forall|i: int|
                    0 <= i < uris@.len() ==> scheme((#[trigger] uris@[i])@) == scheme(uris@[0]@)
                &&& uris@.len() == 0 <==> (r matches Err(DispatchError::EmptyCollection))
                &&& r matches Err(DispatchError::InvalidUri(text)) ==> exists|i: int|
                    0 <= i < uris@.len() && (#[trigger] uris@[i])@ == text@ && scheme(text@) is None
                &&& r matches Err(
                    DispatchError::CollectionSchemeMismatch { first_scheme, other_scheme },
                ) ==> first_scheme@ != other_scheme@ && scheme(uris@[0]@) == Some(first_scheme@)
                    && exists|i: int|
                    0 <= i < uris@.len() && scheme((#[trigger] uris@[i])@) == Some(other_scheme@)
                &&& r matches Err(e) ==> e is EmptyCollection || e is InvalidUri || e
                    is CollectionSchemeMismatch
                &&& r is Err && uris@.len() > 0 ==> exists|i: int| #[trigger]
                    first_odd(uris@, i) && names_the_odd(uris@, i, r->Err_0)
            },
            _ => r is Ok,
        },
{
    if let VerbCall::PlayNowCollection { uris } = call {
        if r is Err && uris@.len() > 0 {
            let i = choose|i: int| #[trigger]
                breaks_scheme(uris@, i) && match scheme(uris@[i]@) {
                    None => r->Err_0 matches DispatchError::InvalidUri(text) && text@
                        == uris@[i]@,
                    Some(other) => r->Err_0 matches DispatchError::CollectionSchemeMismatch {
                        first_scheme,
                        other_scheme,
                    } && Some(first_scheme@) == scheme(uris@[0]@) && other_scheme@ == other,
                };
            assert(uris@[i]@ == uris@[i]@);
            assert(first_odd(uris@, i));
        }
    }
}

/// A dispatch begins with the lookup of the plugin for its URI, if it starts
/// something, and of the claim on the active source otherwise. A collection that
/// is refused ends at once.
pub proof fn law_dispatches_begin_with_a_lookup<R, U, A, L, B>(
    d: DefaultSourceVerbDispatcher<R, U, A, L, B>,
    approver: VerbApprover,
    call: VerbCall,
    r: (VerbDispatch, DispatchAction),
)
    requires
        call_ensures(
            DefaultSourceVerbDispatcher::<R, U, A, L, B>::begin,
            (&d, approver, call),
            r,
        ),
    ensures
        r.0.approver == approver,
        r.0.call == call,
        r.0.ledger <==> d.ledger is Some,
        r.0.bus <==> d.bus is Some,
        !starts(call) ==> r.1 is QueryClaim,
        call matches VerbCall::PlayNow { uri } ==> r.1 matches DispatchAction::LookupScheme {
            uri: asked,
        } && asked@ == uri@,
        call matches VerbCall::PlayNowCollection { uris } ==> {
            ||| r.1 matches DispatchAction::Finish(Err(_))
            ||| r.1 matches DispatchAction::LookupScheme { uri: asked } && uris@.len() > 0
                && asked@ == uris@[0]@
        },
        call matches VerbCall::PlayNowCollection { uris } ==> uris@.len() == 0
            ==> r.1 matches DispatchAction::Finish(Err(DispatchError::EmptyCollection)),
        call matches VerbCall::PlayNowCollection { uris } ==> uris@.len() > 0 && scheme(
            uris@[0]@,
        ) is Some && (forall|i: int|
            0 <= i < uris@.len() ==> scheme((#[trigger] uris@[i])@) == scheme(uris@[0]@))
            ==> r.1 is LookupScheme,
        call matches VerbCall::PlayNowCollection { uris } ==> forall|i: int| #[trigger]
            first_odd(uris@, i) ==> (r.1 matches DispatchAction::Finish(Err(e)) && names_the_odd(
                uris@,
                i,
                e,
            )),
        r.0.failure is None,
        waits(r.0, r.1),
{
    if let VerbCall::PlayNowCollection { uris } = call {
        assert forall|i: int| #[trigger] first_odd(uris@, i) implies (
        r.1 matches DispatchAction::Finish(Err(e)) && names_the_odd(uris@, i, e)) by {
            assert(breaks_scheme(uris@, i));
            if r.1 is Finish && r.1->Finish_0 is Err {
                let k = choose|k: int| #[trigger]
                    breaks_scheme(uris@, k) && names_the_odd(uris@, k, r.1->Finish_0->Err_0);
                assert(first_odd(uris@, k));
                if k < i {
                    assert(scheme(uris@[k]@) == scheme(uris@[0]@));
                }
                if i < k {
                    assert(scheme(uris@[i]@) == scheme(uris@[0]@));
                }
            }
        }
    }
}

/// The dispatch waits for what comes of the action that it asked for; one that is
/// finished waits for nothing.
pub open spec fn waits(d: VerbDispatch, action: DispatchAction) -> bool {
    &&& action is LookupScheme <==> d.phase is ResolvingScheme
    &&& action is QueryClaim <==> d.phase is ResolvingHolder
    &&& action is RecordClaim <==> d.phase is Claiming
    &&& action is LookupPlugin <==> d.phase is Locating
    &&& action is TakeCustody <==> d.phase is Bootstrapping
    &&& action is HandleRequest <==> d.phase is Handling
    &&& action is ReleaseCustody <==> d.phase is Releasing
    &&& action is EmitPlaybackEnded <==> d.phase is Announcing
    &&& action is AppendAudit <==> d.phase is Auditing
    &&& action is Finish <==> d.phase is Done
}

/// A dispatch stays what it is, whatever comes of its actions: who approved it, what it
/// is about, and whether it is audited and announced. It always waits for what it
/// asked for, and a failure is not forgotten.
pub proof fn law_dispatches_stay_what_they_are(
    d: VerbDispatch,
    event: DispatchEvent,
    r: (VerbDispatch, DispatchAction),
)
    requires
        call_ensures(VerbDispatch::step, (d, event), r),
    ensures
        r.0.approver == d.approver,
        r.0.call == d.call,
        r.0.ledger == d.ledger,
        r.0.bus == d.bus,
        waits(r.0, r.1),
        d.failure is Some ==> r.0.failure is Some,
        r.0.failure is Some && d.failure is None ==> ({
            ||| event matches DispatchEvent::Plugin(None) && r.0.failure->0@
                == "no plugin on shelf: "@ + d.handler@
            ||| event matches DispatchEvent::RequestHandled(Err(why)) && r.0.failure->0@ == why@
        }),
        event matches DispatchEvent::Plugin(None) ==> r.0.failure is Some,
        event matches DispatchEvent::RequestHandled(Err(_)) ==> r.0.failure is Some,
{
}

/// The audit entry of a dispatch: who approved it, which plugin handled it, which
/// verb it was, on what and how many items, whether custody was acquired, and how
/// it went.
pub open spec fn audits(
    action: DispatchAction,
    d: VerbDispatch,
    handler: Seq<char>,
    failure: Option<Seq<char>>,
) -> bool {
    &&& action matches DispatchAction::AppendAudit { approver, handler: who, payload, outcome }
    &&& d.approver matches VerbApprover::User { uid } ==> approver@ == "user:"@ + decimal(
        uid as nat,
    )
    &&& d.approver matches VerbApprover::Plan { plan_id } ==> approver@ == "plan:"@ + plan_id@
    &&& d.approver matches VerbApprover::System { reason } ==> approver@ == "system:"@ + reason@
    &&& who@ == handler
    &&& payload.verb@ == verb_name(d.call)
    &&& d.call matches VerbCall::PlayNow { uri } ==> payload.primary_uri is Some
        && payload.primary_uri->0@ == uri@ && payload.uri_count == 1
    &&& d.call matches VerbCall::PlayNowCollection { uris } ==> payload.primary_uri is Some
        && payload.primary_uri->0@ == uris@[0]@ && payload.uri_count == uris@.len() as u32
    &&& !starts(d.call) ==> payload.primary_uri is None && payload.uri_count == 0
    &&& payload.acquired_custody <==> starts(d.call)
    &&& failure is None <==> outcome is Success
    &&& failure is Some ==> (outcome matches LifecycleOutcome::Failed { reason } && reason@
        == failure->0)
}

/// The end of a dispatch for its caller: the shelf that it was sent to and whether
/// custody was acquired, or the refusal.
pub open spec fn tells_caller(
    action: DispatchAction,
    d: VerbDispatch,
    shelf: Seq<char>,
    failure: Option<Seq<char>>,
) -> bool {
    match failure {
        None => action matches DispatchAction::Finish(Ok(outcome)) && outcome.handler_shelf@
            == shelf && (outcome.acquired_custody <==> starts(d.call)),
        Some(why) => action matches DispatchAction::Finish(
            Err(DispatchError::RouterError(text)),
        ) && text@ == why,
    }
}

/// A dispatch comes to its end by way of the audit ledger, if there is one.
pub open spec fn concludes(
    action: DispatchAction,
    d: VerbDispatch,
    handler: Seq<char>,
    shelf: Seq<char>,
    failure: Option<Seq<char>>,
) -> bool {
    if d.ledger {
        audits(action, d, handler, failure)
    } else {
        tells_caller(action, d, shelf, failure)
    }
}

/// The plugin that owns the scheme is to hold the active source, from before the
/// request on: the claim names it, the URI, the verb and the approver. Where no
/// plugin owns the scheme, or the lookup fails, nothing is claimed.
pub proof fn law_owners_of_the_scheme_claim_the_source(
    d: VerbDispatch,
    found: Result<Option<String>, String>,
    r: (VerbDispatch, DispatchAction),
)
    requires
        call_ensures(VerbDispatch::step, (d, DispatchEvent::SchemeLookup(found)), r),
        starts(d.call),
    ensures
        r.0.call == d.call,
        r.0.approver == d.approver,
        found matches Ok(Some(plugin)) ==> {
            &&& r.0.handler@ == plugin@
            &&& r.1 matches DispatchAction::RecordClaim { holder, uri, params }
            &&& holder@ == plugin@
            &&& d.call matches VerbCall::PlayNow { uri: u } ==> uri@ == u@
            &&& d.call matches VerbCall::PlayNowCollection { uris } ==> uri@ == uris@[0]@
            &&& exists|v: Value| #[trigger]
                value_text(v) == params@ && value_fields(v) is Some && {
                    let fields = value_fields(v)->0;
                    &&& fields.contains_key("verb"@)
                    &&& value_str(fields["verb"@]) == Some(verb_name(d.call))
                    &&& fields.contains_key("approver"@)
                    &&& d.approver matches VerbApprover::User { uid } ==> value_str(
                        fields["approver"@],
                    ) == Some("user:"@ + decimal(uid as nat))
                    &&& d.approver matches VerbApprover::Plan { plan_id } ==> value_str(
                        fields["approver"@],
                    ) == Some("plan:"@ + plan_id@)
                    &&& d.approver matches VerbApprover::System { reason } ==> value_str(
                        fields["approver"@],
                    ) == Some("system:"@ + reason@)
                }
        },
        found matches Ok(None) ==> r.1 matches DispatchAction::Finish(Err(e)) && (e
            is UriSchemeNotRegistered || e is InvalidUri),
        found matches Ok(None) ==> d.call matches VerbCall::PlayNow { uri } ==> {
            &&& scheme(uri@) matches Some(s) ==> r.1 matches DispatchAction::Finish(
                Err(DispatchError::UriSchemeNotRegistered { scheme: named }),
            ) && named@ == s
            &&& scheme(uri@) is None ==> (r.1 matches DispatchAction::Finish(
                Err(DispatchError::InvalidUri(text)),
            ) && text@ == uri@)
        },
        found matches Err(why) ==> r.1 matches DispatchAction::Finish(
            Err(DispatchError::RouterError(text)),
        ) && text@ == "URI-scheme lookup failed: "@ + why@,
{
    let v = claim_value(d.approver, d.call);
    assert(value_text(v) == value_text(v));
}

/// A transport verb goes to the plugin that holds the active source, and to none if
/// nothing was ever claimed or the claim was released.
pub proof fn law_transport_goes_to_the_holder(
    d: VerbDispatch,
    claim: Result<Option<SourceClaim>, String>,
    r: (VerbDispatch, DispatchAction),
)
    requires
        call_ensures(VerbDispatch::step, (d, DispatchEvent::CurrentClaim(claim)), r),
    ensures
        claim matches Ok(Some(SourceClaim { holder_plugin: Some(plugin) })) ==> r.0.handler@
            == plugin@ && (r.1 matches DispatchAction::LookupPlugin { plugin: asked } && asked@
            == plugin@),
        claim matches Ok(None) ==> r.1 matches DispatchAction::Finish(
            Err(DispatchError::NoActiveSource { .. }),
        ),
        claim matches Ok(Some(SourceClaim { holder_plugin: None })) ==> r.1 matches
            DispatchAction::Finish(Err(DispatchError::NoActiveSource { .. })),
        claim matches Err(why) ==> r.1 matches DispatchAction::Finish(
            Err(DispatchError::CustodyArbitrationFailed(text)),
        ) && text@ == "current() failed: "@ + why@,
{
}

/// The refusal for want of an active source names the verb of the call.
pub proof fn law_refusals_name_the_verb(
    d: VerbDispatch,
    claim: Result<Option<SourceClaim>, String>,
    state: VerbDispatch,
    verb: SourceVerb,
    name: &'static str,
)
    requires
        call_ensures(
            VerbDispatch::step,
            (d, DispatchEvent::CurrentClaim(claim)),
            (state, DispatchAction::Finish(Err(DispatchError::NoActiveSource { verb }))),
        ),
        call_ensures(SourceVerb::as_str, (verb,), name),
    ensures
        name@ == verb_name(d.call),
{
}

/// The handler is looked up once the claim is on record; a claim that cannot be
/// recorded ends the dispatch.
pub proof fn law_handlers_are_located_after_the_claim(
    d: VerbDispatch,
    recorded: Result<(), String>,
    r: (VerbDispatch, DispatchAction),
)
    requires
        call_ensures(VerbDispatch::step, (d, DispatchEvent::ClaimRecorded(recorded)), r),
    ensures
        recorded is Ok ==> r.0.handler@ == d.handler@ && (r.1 matches
            DispatchAction::LookupPlugin { plugin } && plugin@ == d.handler@),
        recorded matches Err(why) ==> r.1 matches DispatchAction::Finish(
            Err(DispatchError::CustodyArbitrationFailed(text)),
        ) && text@ == why@,
{
}

/// The request goes to the shelf of the located handler, after custody was tried
/// there if the handler is a warden that answers and the verb starts something. A
/// handler that is on no shelf is a failure.
pub proof fn law_requests_go_to_the_handlers_shelf(
    d: VerbDispatch,
    found: Option<LocatedPlugin>,
    r: (VerbDispatch, DispatchAction),
)
    requires
        call_ensures(VerbDispatch::step, (d, DispatchEvent::Plugin(found)), r),
    ensures
        r.0.call == d.call,
        r.0.handler@ == d.handler@,
        found matches Some(plugin) ==> {
            let warden = plugin.manifest is Some && plugin.manifest->0.is_warden
                && plugin.manifest->0.is_respondent;
            &&& r.0.shelf@ == plugin.shelf@
            &&& starts(d.call) && warden ==> (r.1 matches DispatchAction::TakeCustody {
                shelf,
                custody_domain,
            } && shelf@ == plugin.shelf@ && (match plugin.manifest->0.custody_domain {
                Some(domain) => custody_domain@ == domain@,
                None => custody_domain@.len() == 0,
            }))
            &&& !(starts(d.call) && warden) ==> (r.1 matches DispatchAction::HandleRequest {
                shelf,
                request,
            } && shelf@ == plugin.shelf@ && conveys(request, d.call))
        },
        found is None ==> concludes(
            r.1,
            d,
            d.handler@,
            r.0.shelf@,
            Some("no plugin on shelf: "@ + d.handler@),
        ),
{
    if let DispatchAction::HandleRequest { request, .. } = r.1 {
        lemma_conveys(request, d.call);
    }
}

/// However taking custody went, the request is sent.
pub proof fn law_requests_follow_the_custody(
    d: VerbDispatch,
    r: (VerbDispatch, DispatchAction),
)
    requires
        call_ensures(VerbDispatch::step, (d, DispatchEvent::CustodyTried), r),
    ensures
        r.1 matches DispatchAction::HandleRequest { shelf, request } && shelf@ == d.shelf@
            && conveys(request, d.call),
        r.0.handler@ == d.handler@,
        r.0.shelf@ == d.shelf@,
{
    if let DispatchAction::HandleRequest { request, .. } = r.1 {
        lemma_conveys(request, d.call);
    }
}

/// A stop that was accepted gives up the active source; nothing else does, and
/// neither does a stop that failed.
pub proof fn law_only_an_accepted_stop_releases(
    d: VerbDispatch,
    handled: Result<(), String>,
    r: (VerbDispatch, DispatchAction),
)
    requires
        call_ensures(VerbDispatch::step, (d, DispatchEvent::RequestHandled(handled)), r),
        d.failure is None,
    ensures
        r.1 is ReleaseCustody <==> handled is Ok && d.call is Stop,
        handled is Ok && d.call !is Stop ==> concludes(r.1, d, d.handler@, d.shelf@, None),
        handled matches Err(why) ==> concludes(r.1, d, d.handler@, d.shelf@, Some(why@)),
{
}

/// Once the source is given up, the end of the playback is announced for the plugin
/// that played, if there is a bus.
pub proof fn law_the_end_is_announced(d: VerbDispatch, r: (VerbDispatch, DispatchAction))
    requires
        call_ensures(VerbDispatch::step, (d, DispatchEvent::CustodyReleased), r),
        d.failure is None,
        d.call is Stop,
    ensures
        d.bus ==> (r.1 matches DispatchAction::EmitPlaybackEnded { source_plugin, claim_uri }
            && source_plugin@ == d.handler@ && claim_uri is None),
        !d.bus ==> concludes(r.1, d, d.handler@, d.shelf@, None),
{
}

/// After the announcement the dispatch concludes; after the audit entry the caller
/// is told.
pub proof fn law_dispatches_conclude(d: VerbDispatch, r: (VerbDispatch, DispatchAction))
    ensures
        call_ensures(VerbDispatch::step, (d, DispatchEvent::PlaybackEndedEmitted), r) ==> d.failure
            is None ==> concludes(r.1, d, d.handler@, d.shelf@, None),
        call_ensures(VerbDispatch::step, (d, DispatchEvent::AuditAppended), r) ==> tells_caller(
            r.1,
            d,
            d.shelf@,
            match d.failure {
                Some(why) => Some(why@),
                None => None,
            },
        ),
{
}

/// The verb as it stands in messages.
pub open spec fn verb_label(verb: SourceVerb) -> Seq<char> {
    match verb {
        SourceVerb::PlayNow => "PlayNow"@,
        SourceVerb::PlayNowCollection => "PlayNowCollection"@,
        SourceVerb::PlayNext => "PlayNext"@,
        SourceVerb::Enqueue => "Enqueue"@,
        SourceVerb::EnqueueAndStart => "EnqueueAndStart"@,
        SourceVerb::ReplaceQueue => "ReplaceQueue"@,
        SourceVerb::Save => "Save"@,
        SourceVerb::Stop => "Stop"@,
        SourceVerb::Pause => "Pause"@,
        SourceVerb::Resume => "Resume"@,
        SourceVerb::Seek => "Seek"@,
        SourceVerb::Next => "Next"@,
        SourceVerb::Previous => "Previous"@,
    }
}

/// What a failed dispatch says of itself.
pub proof fn law_errors_say_what_failed(e: DispatchError, r: String)
    requires
        call_ensures(DispatchError::to_text, (&e,), r),
    ensures
        e matches DispatchError::InvalidUri(uri) ==> r@ == "dispatcher: invalid URI: "@ + uri@,
        e matches DispatchError::UriSchemeNotRegistered { scheme } ==> r@
            == "dispatcher: URI scheme "@ + scheme@ + " not registered"@,
        e is EmptyCollection ==> r@ == "dispatcher: PlayNowCollection called with empty uris list"@,
        e matches DispatchError::CollectionSchemeMismatch { first_scheme, other_scheme } ==> r@
            == "dispatcher: PlayNowCollection items have heterogeneous schemes (first "@
            + first_scheme@ + ", conflicting "@ + other_scheme@ + ")"@,
        e matches DispatchError::CustodyArbitrationFailed(why) ==> r@
            == "dispatcher: custody arbitration failed: "@ + why@,
        e matches DispatchError::RouterError(why) ==> r@ == "dispatcher: router refused dispatch: "@
            + why@,
        e matches DispatchError::UnsupportedVerb(verb) ==> r@ == "dispatcher: verb "@ + verb_label(
            verb,
        ) + " is not supported in this layer"@,
        e matches DispatchError::NoActiveSource { verb } ==> r@ == "dispatcher: "@ + verb_label(
            verb,
        ) + " requires an active source but audio.active_source has no current holder"@,
        AUDIO_ACTIVE_SOURCE@ == "audio.active_source"@,
{
}

/// A dispatcher has the collaborators that it was given, and a URI is its text.
pub proof fn law_dispatchers_have_what_they_are_given<R, U, A, L, B>(
    router: R,
    uri_schemes: U,
    active_source: A,
    ledger: L,
    bus: B,
    plain: DefaultSourceVerbDispatcher<R, U, A, L, B>,
    audited: DefaultSourceVerbDispatcher<R, U, A, L, B>,
    announcing: DefaultSourceVerbDispatcher<R, U, A, L, B>,
    text: &str,
    uri: ItemUri,
    shown: &str,
)
    requires
        call_ensures(
            DefaultSourceVerbDispatcher::<R, U, A, L, B>::new,
            (router, uri_schemes, active_source),
            plain,
        ),
        call_ensures(
            DefaultSourceVerbDispatcher::<R, U, A, L, B>::with_ledger,
            (plain, ledger),
            audited,
        ),
        call_ensures(
            DefaultSourceVerbDispatcher::<R, U, A, L, B>::with_bus,
            (audited, bus),
            announcing,
        ),
        call_ensures(ItemUri::new, (text,), uri),
        call_ensures(ItemUri::as_str, (&uri,), shown),
    ensures
        plain.ledger is None && plain.bus is None,
        audited.ledger == Some(ledger) && audited.bus is None,
        announcing.ledger == Some(ledger) && announcing.bus == Some(bus),
        announcing.router == router,
        announcing.uri_schemes == uri_schemes,
        announcing.active_source == active_source,
        uri.uri@ == text@,
        shown@ == text@,
{
}

}
