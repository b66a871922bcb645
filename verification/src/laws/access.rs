//! Laws of access: who gets a capability, and what a connection may do without it.

use crate::access::{
    grants, law_grants, negotiable_capabilities, negotiate, permitted, require_appointments_admin,
    require_grammar_admin, require_plugins_admin, require_reconciliation,
    require_reconciliation_admin, require_user_interaction_responder, require_watches_admin, texts,
    CapabilityRule, ClientAcl, ConnectionIds, ConnectionState, PeerCredentials, ResponderLock,
    StewardIdentity,
};
use crate::claimant::ClaimantTokenIssuer;
use crate::connection::{end_connection, route_frame, Route};
use crate::dispatch::{dispatch_request, Desk, Plan, Wiring};
use crate::errors::{ApiError, ErrorClass};
use crate::laws::dispatch::{scope_asked, scope_walked};
use crate::laws::refusals::{refuses, says};
use crate::plugin_requests::CorrelationIds;
use crate::requests::ClientRequest;
use std::time::SystemTime;
use vstd::prelude::*;

verus! {

/// The list names the number.
pub open spec fn listed(list: Seq<u32>, n: Option<u32>) -> bool {
    n is Some && exists|i: int| 0 <= i < list.len() && #[trigger] list[i] == n->Some_0
}

/// A rule admits a peer that runs as the steward does, where local peers are welcome,
/// and a peer whose user or group it lists; so nobody of whom nothing is known.
pub proof fn law_rules_go_by_their_lists(
    rule: CapabilityRule,
    peer: PeerCredentials,
    steward: StewardIdentity,
    r: bool,
)
    requires
        call_ensures(CapabilityRule::allows, (&rule, peer, steward), r),
    ensures
        rule.allow_local && peer.uid is Some && steward.uid == peer.uid ==> r,
        listed(rule.allow_uids@, peer.uid) ==> r,
        listed(rule.allow_gids@, peer.gid) ==> r,
        r ==> ({
            ||| rule.allow_local && peer.uid is Some && steward.uid == peer.uid
            ||| listed(rule.allow_uids@, peer.uid)
            ||| listed(rule.allow_gids@, peer.gid)
        }),
        peer.uid is None && peer.gid is None ==> !r,
{
    if listed(rule.allow_uids@, peer.uid) {
        assert(rule.allow_uids@.contains(peer.uid->Some_0));
    }
    if listed(rule.allow_gids@, peer.gid) {
        assert(rule.allow_gids@.contains(peer.gid->Some_0));
    }
}

/// The rule admits local peers and lists nobody.
pub open spec fn only_local(rule: CapabilityRule) -> bool {
    rule.allow_local && rule.allow_uids@.len() == 0 && rule.allow_gids@.len() == 0
}

/// Where the operator says nothing, every capability is for local peers only.
pub proof fn law_access_is_local_by_default(rule: CapabilityRule, acl: ClientAcl)
    requires
        call_ensures(CapabilityRule::local_only, (), rule),
        call_ensures(<ClientAcl as Default>::default, (), acl),
    ensures
        only_local(rule),
        only_local(acl.resolve_claimants),
        only_local(acl.plugins_admin),
        only_local(acl.reconciliation_admin),
        only_local(acl.fast_path_admin),
        only_local(acl.user_interaction_responder),
        only_local(acl.appointments_admin),
        only_local(acl.watches_admin),
        only_local(acl.grammar_admin),
{
    lemma_names_differ();
    assert(acl.rule("resolve_claimants"@) == Some(acl.resolve_claimants));
    assert(acl.rule("plugins_admin"@) == Some(acl.plugins_admin));
    assert(acl.rule("reconciliation_admin"@) == Some(acl.reconciliation_admin));
    assert(acl.rule("fast_path_admin"@) == Some(acl.fast_path_admin));
    assert(acl.rule("user_interaction_responder"@) == Some(acl.user_interaction_responder));
    assert(acl.rule("appointments_admin"@) == Some(acl.appointments_admin));
    assert(acl.rule("watches_admin"@) == Some(acl.watches_admin));
    assert(acl.rule("grammar_admin"@) == Some(acl.grammar_admin));
}

/// Each capability has the rule of its name, and nothing else has a rule.
pub proof fn law_rules_go_by_their_names(acl: ClientAcl, name: &str, r: Option<&CapabilityRule>)
    requires
        call_ensures(ClientAcl::rule_for, (&acl, name), r),
    ensures
        name@ == "resolve_claimants"@ ==> r == Some(&acl.resolve_claimants),
        name@ == "plugins_admin"@ ==> r == Some(&acl.plugins_admin),
        name@ == "reconciliation_admin"@ ==> r == Some(&acl.reconciliation_admin),
        name@ == "fast_path_admin"@ ==> r == Some(&acl.fast_path_admin),
        name@ == "user_interaction_responder"@ ==> r == Some(&acl.user_interaction_responder),
        name@ == "appointments_admin"@ ==> r == Some(&acl.appointments_admin),
        name@ == "watches_admin"@ ==> r == Some(&acl.watches_admin),
        name@ == "grammar_admin"@ ==> r == Some(&acl.grammar_admin),
        r is Some ==> ({
            ||| name@ == "resolve_claimants"@
            ||| name@ == "plugins_admin"@
            ||| name@ == "reconciliation_admin"@
            ||| name@ == "fast_path_admin"@
            ||| name@ == "user_interaction_responder"@
            ||| name@ == "appointments_admin"@
            ||| name@ == "watches_admin"@
            ||| name@ == "grammar_admin"@
        }),
{
    lemma_names_differ();
}

/// The capabilities that can be negotiated are those that have a rule.
pub proof fn law_capabilities_by_their_names(names: Vec<&'static str>)
    requires
        call_ensures(negotiable_capabilities, (), names),
    ensures
        names@.len() == 8,
        names@[0]@ == "resolve_claimants"@,
        names@[1]@ == "plugins_admin"@,
        names@[2]@ == "reconciliation_admin"@,
        names@[3]@ == "fast_path_admin"@,
        names@[4]@ == "user_interaction_responder"@,
        names@[5]@ == "appointments_admin"@,
        names@[6]@ == "watches_admin"@,
        names@[7]@ == "grammar_admin"@,
{
}

/// The names of the capabilities are all different.
pub proof fn lemma_names_differ()
    ensures
        "plugins_admin"@ != "resolve_claimants"@,
        "reconciliation_admin"@ != "resolve_claimants"@,
        "reconciliation_admin"@ != "plugins_admin"@,
        "fast_path_admin"@ != "resolve_claimants"@,
        "fast_path_admin"@ != "plugins_admin"@,
        "fast_path_admin"@ != "reconciliation_admin"@,
        "user_interaction_responder"@ != "resolve_claimants"@,
        "user_interaction_responder"@ != "plugins_admin"@,
        "user_interaction_responder"@ != "reconciliation_admin"@,
        "user_interaction_responder"@ != "fast_path_admin"@,
        "appointments_admin"@ != "resolve_claimants"@,
        "appointments_admin"@ != "plugins_admin"@,
        "appointments_admin"@ != "reconciliation_admin"@,
        "appointments_admin"@ != "fast_path_admin"@,
        "appointments_admin"@ != "user_interaction_responder"@,
        "watches_admin"@ != "resolve_claimants"@,
        "watches_admin"@ != "plugins_admin"@,
        "watches_admin"@ != "reconciliation_admin"@,
        "watches_admin"@ != "fast_path_admin"@,
        "watches_admin"@ != "user_interaction_responder"@,
        "watches_admin"@ != "appointments_admin"@,
        "grammar_admin"@ != "resolve_claimants"@,
        "grammar_admin"@ != "plugins_admin"@,
        "grammar_admin"@ != "reconciliation_admin"@,
        "grammar_admin"@ != "fast_path_admin"@,
        "grammar_admin"@ != "user_interaction_responder"@,
        "grammar_admin"@ != "appointments_admin"@,
        "grammar_admin"@ != "watches_admin"@,
{
    reveal_strlit("resolve_claimants");
    reveal_strlit("plugins_admin");
    reveal_strlit("reconciliation_admin");
    reveal_strlit("fast_path_admin");
    reveal_strlit("user_interaction_responder");
    reveal_strlit("appointments_admin");
    reveal_strlit("watches_admin");
    reveal_strlit("grammar_admin");
    assert("plugins_admin"@.len() != "resolve_claimants"@.len());
    assert("reconciliation_admin"@.len() != "resolve_claimants"@.len());
    assert("reconciliation_admin"@.len() != "plugins_admin"@.len());
    assert("fast_path_admin"@.len() != "resolve_claimants"@.len());
    assert("fast_path_admin"@.len() != "plugins_admin"@.len());
    assert("fast_path_admin"@.len() != "reconciliation_admin"@.len());
    assert("user_interaction_responder"@.len() != "resolve_claimants"@.len());
    assert("user_interaction_responder"@.len() != "plugins_admin"@.len());
    assert("user_interaction_responder"@.len() != "reconciliation_admin"@.len());
    assert("user_interaction_responder"@.len() != "fast_path_admin"@.len());
    assert("appointments_admin"@.len() != "resolve_claimants"@.len());
    assert("appointments_admin"@.len() != "plugins_admin"@.len());
    assert("appointments_admin"@.len() != "reconciliation_admin"@.len());
    assert("appointments_admin"@.len() != "fast_path_admin"@.len());
    assert("appointments_admin"@.len() != "user_interaction_responder"@.len());
    assert("watches_admin"@.len() != "resolve_claimants"@.len());
    assert("watches_admin"@[0] != "plugins_admin"@[0]);
    assert("watches_admin"@.len() != "reconciliation_admin"@.len());
    assert("watches_admin"@.len() != "fast_path_admin"@.len());
    assert("watches_admin"@.len() != "user_interaction_responder"@.len());
    assert("watches_admin"@.len() != "appointments_admin"@.len());
    assert("grammar_admin"@.len() != "resolve_claimants"@.len());
    assert("grammar_admin"@[0] != "plugins_admin"@[0]);
    assert("grammar_admin"@.len() != "reconciliation_admin"@.len());
    assert("grammar_admin"@.len() != "fast_path_admin"@.len());
    assert("grammar_admin"@.len() != "user_interaction_responder"@.len());
    assert("grammar_admin"@.len() != "appointments_admin"@.len());
    assert("grammar_admin"@[0] != "watches_admin"@[0]);
}

/// Ids are handed out one after the other, from 1 on.
pub proof fn law_ids_are_fresh(
    connections: ConnectionIds,
    requests: CorrelationIds,
    ids: &mut ConnectionIds,
    correlations: &mut CorrelationIds,
    id: u64,
    correlation: u64,
)
    requires
        call_ensures(ConnectionIds::new, (), connections),
        call_ensures(CorrelationIds::new, (), requests),
        call_ensures(ConnectionIds::next_connection_id, (ids,), id),
        call_ensures(CorrelationIds::take, (correlations,), correlation),
    ensures
        connections.next == 1,
        requests.next == 1,
        id == old(ids).next,
        id < u64::MAX ==> final(ids).next == id + 1,
        id == u64::MAX ==> final(ids).next == 0,
        correlation == old(correlations).next,
        correlation < u64::MAX ==> final(correlations).next == correlation + 1,
        correlation == u64::MAX ==> final(correlations).next == 0,
{
}

/// A connection begins without capabilities, and has those that were granted.
pub proof fn law_connections_hold_what_was_granted(
    peer: PeerCredentials,
    id: u64,
    fresh: ConnectionState,
    conn: ConnectionState,
    name: &str,
    has: bool,
    shown: u64,
)
    requires
        call_ensures(ConnectionState::new, (peer, id), fresh),
        call_ensures(ConnectionState::has, (&conn, name), has),
        call_ensures(ConnectionState::id, (&conn,), shown),
    ensures
        fresh.peer == peer,
        fresh.connection_id == id,
        forall|n: Seq<char>| !#[trigger] fresh.granted_capabilities@.contains(n),
        has <==> conn.granted_capabilities@.contains(name@),
        shown == conn.connection_id,
{
}

/// At most one connection answers prompts: a claim succeeds if nobody else has the lock,
/// and then the claimant has it; it is given up by its holder alone.
pub proof fn law_one_connection_answers(
    fresh: ResponderLock,
    lock: &mut ResponderLock,
    id: u64,
    claimed: bool,
    held: &mut ResponderLock,
    some: ResponderLock,
    current: Option<u64>,
)
    requires
        call_ensures(ResponderLock::new, (), fresh),
        call_ensures(ResponderLock::try_claim_responder, (lock, id), claimed),
        call_ensures(ResponderLock::release_responder, (held, id), ()),
        call_ensures(ResponderLock::current_responder, (&some,), current),
    ensures
        fresh.holder is None,
        claimed <==> old(lock).holder is None || old(lock).holder == Some(id),
        claimed ==> final(lock).holder == Some(id),
        !claimed ==> final(lock).holder == old(lock).holder,
        old(held).holder == Some(id) ==> final(held).holder is None,
        old(held).holder != Some(id) ==> final(held).holder == old(held).holder,
        current == some.holder,
{
}

/// When a connection ends, its claim on the lock ends, and no other claim does.
pub proof fn law_ended_connections_answer_no_more(lock: &mut Option<ResponderLock>, id: u64)
    requires
        call_ensures(end_connection, (lock, id), ()),
    ensures
        *old(lock) is None ==> *final(lock) is None,
        *old(lock) is Some ==> *final(lock) is Some,
        *old(lock) is Some && old(lock)->Some_0.holder == Some(id)
            ==> final(lock)->Some_0.holder is None,
        *old(lock) is Some && old(lock)->Some_0.holder != Some(id)
            ==> final(lock)->Some_0.holder == old(lock)->Some_0.holder,
{
}

/// A name is asked for before the other one is for the first time.
pub open spec fn asked_earlier(wanted: Seq<Seq<char>>, name: Seq<char>, other: Seq<char>) -> bool {
    exists|p: int| ({
        &&& 0 <= p < wanted.len()
        &&& #[trigger] wanted[p] == name
        &&& forall|q: int| 0 <= q <= p ==> wanted[q] != other
    })
}

proof fn lemma_grants_keep_the_order(
    wanted: Seq<Seq<char>>,
    ok: spec_fn(Seq<char>) -> bool,
    i: int,
    j: int,
)
    requires
        0 <= i < j < grants(wanted, ok).len(),
    ensures
        asked_earlier(wanted, grants(wanted, ok)[i], grants(wanted, ok)[j]),
    decreases wanted.len(),
{
    let rest = wanted.drop_last();
    let before = grants(rest, ok);
    let name = grants(wanted, ok)[i];
    let other = grants(wanted, ok)[j];
    law_grants(rest, ok);
    if j < before.len() {
        lemma_grants_keep_the_order(rest, ok, i, j);
        let p = choose|p: int| ({
            &&& 0 <= p < rest.len()
            &&& #[trigger] rest[p] == name
            &&& forall|q: int| 0 <= q <= p ==> rest[q] != other
        });
        assert(wanted[p] == name);
        assert forall|q: int| 0 <= q <= p implies wanted[q] != other by {
            assert(rest[q] != other);
        }
    } else {
        assert(before.contains(name));
        assert(rest.contains(name) && !rest.contains(other));
        let p = choose|p: int| 0 <= p < rest.len() && rest[p] == name;
        assert(wanted[p] == name);
        assert forall|q: int| 0 <= q <= p implies wanted[q] != other by {
            assert(rest[q] != other);
        }
    }
}

/// The names that are granted have this name among them exactly if it was asked for, the
/// access list has a rule for it that admits the peer, and, for the responder's
/// capability, the lock is there and free or the connection's own. Each is there once, in
/// the order in which it was asked for.
pub open spec fn granted_duly(
    capabilities: Seq<String>,
    lock: Option<ResponderLock>,
    id: u64,
    granted: Seq<String>,
    name: Seq<char>,
    rule: Option<&CapabilityRule>,
    allowed: bool,
) -> bool {
    &&& (exists|i: int| 0 <= i < granted.len() && (#[trigger] granted[i])@ == name) <==> ({
        &&& exists|i: int| 0 <= i < capabilities.len() && (#[trigger] capabilities[i])@ == name
        &&& rule is Some
        &&& allowed
        &&& name == "user_interaction_responder"@ ==> lock is Some && (
        lock->Some_0.holder is None || lock->Some_0.holder == Some(id))
    })
    &&& forall|i: int, j: int|
        0 <= i < j < granted.len() ==> (#[trigger] granted[i])@ != (#[trigger] granted[j])@
            && asked_earlier(texts(capabilities), granted[i]@, granted[j]@)
}

/// The lock after a negotiation: the connection's own if it was granted the responder's
/// capability, and as it was if not.
pub open spec fn lock_follows(
    lock: Option<ResponderLock>,
    after: Option<ResponderLock>,
    id: u64,
    responds: bool,
) -> bool {
    &&& lock is None <==> after is None
    &&& lock is Some && responds ==> after->Some_0.holder == Some(id)
    &&& lock is Some && !responds ==> after->Some_0.holder == lock->Some_0.holder
}

/// What is granted under the access list is granted duly.
pub proof fn lemma_granted_duly(
    capabilities: Seq<String>,
    acl: ClientAcl,
    peer: PeerCredentials,
    steward: StewardIdentity,
    lock: Option<ResponderLock>,
    id: u64,
    granted: Seq<String>,
    name: &str,
    rule: Option<&CapabilityRule>,
    allowed: bool,
)
    requires
        texts(granted) == grants(
            texts(capabilities),
            |n: Seq<char>| permitted(n, acl, peer, steward, lock, id),
        ),
        call_ensures(ClientAcl::rule_for, (&acl, name), rule),
        rule is Some ==> call_ensures(
            CapabilityRule::allows,
            (rule->Some_0, peer, steward),
            allowed,
        ),
    ensures
        granted_duly(capabilities, lock, id, granted, name@, rule, allowed),
        texts(granted).contains(name@) <==> exists|i: int|
            0 <= i < granted.len() && (#[trigger] granted[i])@ == name@,
        texts(granted).contains(name@) <==> texts(capabilities).contains(name@) && permitted(
            name@,
            acl,
            peer,
            steward,
            lock,
            id,
        ),
{
    let ok = |n: Seq<char>| permitted(n, acl, peer, steward, lock, id);
    let wanted = texts(capabilities);
    let shown = texts(granted);
    law_grants(wanted, ok);
    assert(shown == grants(wanted, ok));
    lemma_texts(capabilities, name@);
    lemma_texts(granted, name@);
    assert forall|i: int, j: int| 0 <= i < j < granted.len() implies (#[trigger] granted[i])@
        != (#[trigger] granted[j])@ && asked_earlier(wanted, granted[i]@, granted[j]@) by {
        assert(shown[i] != shown[j]);
        lemma_grants_keep_the_order(wanted, ok, i, j);
    }
}

/// A negotiation grants what is due, and nothing else. What it grants replaces what was
/// granted before, and the lock follows.
pub proof fn law_negotiations_follow_the_access_list(
    capabilities: Vec<String>,
    acl: ClientAcl,
    steward: StewardIdentity,
    lock: &mut Option<ResponderLock>,
    conn: &mut ConnectionState,
    granted: Vec<String>,
    name: &str,
    rule: Option<&CapabilityRule>,
    allowed: bool,
)
    requires
        call_ensures(negotiate, (&capabilities, &acl, steward, lock, conn), granted),
        call_ensures(ClientAcl::rule_for, (&acl, name), rule),
        rule is Some ==> call_ensures(
            CapabilityRule::allows,
            (rule->Some_0, old(conn).peer, steward),
            allowed,
        ),
    ensures
        granted_duly(
            capabilities@,
            *old(lock),
            old(conn).connection_id,
            granted@,
            name@,
            rule,
            allowed,
        ),
        final(conn).granted_capabilities@.contains(name@) <==> exists|i: int|
            0 <= i < granted@.len() && (#[trigger] granted@[i])@ == name@,
        final(conn).peer == old(conn).peer,
        final(conn).connection_id == old(conn).connection_id,
        name@ == "user_interaction_responder"@ ==> lock_follows(
            *old(lock),
            *final(lock),
            old(conn).connection_id,
            final(conn).granted_capabilities@.contains(name@),
        ),
{
    lemma_granted_duly(
        capabilities@,
        acl,
        old(conn).peer,
        steward,
        *old(lock),
        old(conn).connection_id,
        granted@,
        name,
        rule,
        allowed,
    );
}

/// A negotiation that is dispatched grants what is due under the server's own access list,
/// identity and lock.
pub proof fn law_dispatched_negotiations_grant_what_is_due(
    capabilities: Vec<String>,
    desk: &mut Desk,
    issuer: &ClaimantTokenIssuer,
    wiring: Wiring,
    conn: &mut ConnectionState,
    now: SystemTime,
    plan: Plan,
    name: &str,
    rule: Option<&CapabilityRule>,
    allowed: bool,
)
    requires
        call_ensures(
            dispatch_request,
            (ClientRequest::Negotiate { capabilities }, desk, issuer, wiring, conn, now),
            plan,
        ),
        call_ensures(ClientAcl::rule_for, (&old(desk).acl, name), rule),
        rule is Some ==> call_ensures(
            CapabilityRule::allows,
            (rule->Some_0, old(conn).peer, old(desk).steward_identity),
            allowed,
        ),
    ensures
        plan is Reply && plan->Reply_0 is Negotiated && plan->Reply_0->Negotiated_ok,
        granted_duly(
            capabilities@,
            old(desk).responder,
            old(conn).connection_id,
            plan->Reply_0->granted@,
            name@,
            rule,
            allowed,
        ),
        final(conn).granted_capabilities@.contains(name@) <==> exists|i: int|
            0 <= i < plan->Reply_0->granted@.len() && (#[trigger] plan->Reply_0->granted@[i])@
                == name@,
        final(conn).peer == old(conn).peer,
        final(conn).connection_id == old(conn).connection_id,
        name@ == "user_interaction_responder"@ ==> lock_follows(
            old(desk).responder,
            final(desk).responder,
            old(conn).connection_id,
            final(conn).granted_capabilities@.contains(name@),
        ),
{
    lemma_granted_duly(
        capabilities@,
        old(desk).acl,
        old(conn).peer,
        old(desk).steward_identity,
        old(desk).responder,
        old(conn).connection_id,
        plan->Reply_0->granted@,
        name,
        rule,
        allowed,
    );
}

proof fn lemma_texts(v: Seq<String>, name: Seq<char>)
    ensures
        texts(v).contains(name) <==> exists|i: int|
            0 <= i < v.len() && (#[trigger] v[i])@ == name,
{
    if texts(v).contains(name) {
        let i = choose|i: int| 0 <= i < texts(v).len() && texts(v)[i] == name;
        assert(v[i]@ == name);
    }
    if exists|i: int| 0 <= i < v.len() && (#[trigger] v[i])@ == name {
        let i = choose|i: int| 0 <= i < v.len() && (#[trigger] v[i])@ == name;
        assert(texts(v)[i] == name);
    }
}

/// The way to plugin operations is open to a connection that holds
/// `plugins_admin`, where the server has what it takes, and to no other.
pub proof fn law_plugins_admin_is_needed<T>(
    handle: Option<&T>,
    conn: ConnectionState,
    op: &str,
    r: Result<&T, ApiError>,
)
    requires
        call_ensures(require_plugins_admin::<T>, (handle, &conn, op), r),
    ensures
        r is Ok ==> conn.granted_capabilities@.contains("plugins_admin"@),
        r is Ok ==> handle == Some(r->Ok_0),
        !conn.granted_capabilities@.contains("plugins_admin"@) ==> r is Err && says(
            r->Err_0,
            ErrorClass::PermissionDenied,
            op@ + ": "@ + "plugins_admin"@ + " not granted on this connection"@,
            "plugins_admin_not_granted"@,
        ),
        conn.granted_capabilities@.contains("plugins_admin"@) && handle is Some
            ==> r is Ok,
        conn.granted_capabilities@.contains("plugins_admin"@) && r is Err ==> says(
            r->Err_0,
            ErrorClass::Internal,
            op@ + ": this server was constructed without "@
                + "an admission engine handle; plugin lifecycle ops are unavailable"@,
            "admission_engine_not_configured"@,
        ),
{
}

/// The way to reconciliation is open to a connection that holds
/// `reconciliation_admin`, where the server has what it takes, and to no other.
pub proof fn law_reconciliation_admin_is_needed<T>(
    handle: Option<&T>,
    conn: ConnectionState,
    op: &str,
    r: Result<&T, ApiError>,
)
    requires
        call_ensures(require_reconciliation_admin::<T>, (handle, &conn, op), r),
    ensures
        r is Ok ==> conn.granted_capabilities@.contains("reconciliation_admin"@),
        r is Ok ==> handle == Some(r->Ok_0),
        !conn.granted_capabilities@.contains("reconciliation_admin"@) ==> r is Err && says(
            r->Err_0,
            ErrorClass::PermissionDenied,
            op@ + ": "@ + "reconciliation_admin"@ + " not granted on this connection"@,
            "reconciliation_admin_not_granted"@,
        ),
        conn.granted_capabilities@.contains("reconciliation_admin"@) && handle is Some
            ==> r is Ok,
        conn.granted_capabilities@.contains("reconciliation_admin"@) && r is Err ==> says(
            r->Err_0,
            ErrorClass::Internal,
            op@ + ": this server was constructed without "@
                + "a reconciliation coordinator handle; reconciliation admin ops are unavailable"@,
            "reconciliation_not_configured"@,
        ),
{
}

/// The way to answering prompts is open to a connection that holds
/// `user_interaction_responder`, where the server has what it takes, and to no other.
pub proof fn law_user_interaction_responder_is_needed<T>(
    handle: Option<&T>,
    conn: ConnectionState,
    op: &str,
    r: Result<&T, ApiError>,
)
    requires
        call_ensures(require_user_interaction_responder::<T>, (handle, &conn, op), r),
    ensures
        r is Ok ==> conn.granted_capabilities@.contains("user_interaction_responder"@),
        r is Ok ==> handle == Some(r->Ok_0),
        !conn.granted_capabilities@.contains("user_interaction_responder"@) ==> r is Err && says(
            r->Err_0,
            ErrorClass::PermissionDenied,
            op@ + ": "@ + "user_interaction_responder"@ + " not granted on this connection"@,
            "user_interaction_responder_not_granted"@,
        ),
        conn.granted_capabilities@.contains("user_interaction_responder"@) && handle is Some
            ==> r is Ok,
        conn.granted_capabilities@.contains("user_interaction_responder"@) && r is Err ==> says(
            r->Err_0,
            ErrorClass::Internal,
            op@ + ": this server was constructed without "@
                + "a prompt ledger; user-interaction routing is unavailable"@,
            "prompt_ledger_not_configured"@,
        ),
{
}

/// The way to appointments is open to a connection that holds
/// `appointments_admin`, where the server has what it takes, and to no other.
pub proof fn law_appointments_admin_is_needed<T>(
    handle: Option<&T>,
    conn: ConnectionState,
    op: &str,
    r: Result<&T, ApiError>,
)
    requires
        call_ensures(require_appointments_admin::<T>, (handle, &conn, op), r),
    ensures
        r is Ok ==> conn.granted_capabilities@.contains("appointments_admin"@),
        r is Ok ==> handle == Some(r->Ok_0),
        !conn.granted_capabilities@.contains("appointments_admin"@) ==> r is Err && says(
            r->Err_0,
            ErrorClass::PermissionDenied,
            op@ + ": "@ + "appointments_admin"@ + " not granted on this connection"@,
            "appointments_admin_not_granted"@,
        ),
        conn.granted_capabilities@.contains("appointments_admin"@) && handle is Some
            ==> r is Ok,
        conn.granted_capabilities@.contains("appointments_admin"@) && r is Err ==> says(
            r->Err_0,
            ErrorClass::Internal,
            op@ + ": this server was constructed without "@
                + "an appointments runtime; appointment-admin ops are unavailable"@,
            "appointments_not_configured"@,
        ),
{
}

/// The way to watches is open to a connection that holds
/// `watches_admin`, where the server has what it takes, and to no other.
pub proof fn law_watches_admin_is_needed<T>(
    handle: Option<&T>,
    conn: ConnectionState,
    op: &str,
    r: Result<&T, ApiError>,
)
    requires
        call_ensures(require_watches_admin::<T>, (handle, &conn, op), r),
    ensures
        r is Ok ==> conn.granted_capabilities@.contains("watches_admin"@),
        r is Ok ==> handle == Some(r->Ok_0),
        !conn.granted_capabilities@.contains("watches_admin"@) ==> r is Err && says(
            r->Err_0,
            ErrorClass::PermissionDenied,
            op@ + ": "@ + "watches_admin"@ + " not granted on this connection"@,
            "watches_admin_not_granted"@,
        ),
        conn.granted_capabilities@.contains("watches_admin"@) && handle is Some
            ==> r is Ok,
        conn.granted_capabilities@.contains("watches_admin"@) && r is Err ==> says(
            r->Err_0,
            ErrorClass::Internal,
            op@ + ": this server was constructed without "@
                + "a watches runtime; watch-admin ops are unavailable"@,
            "watches_not_configured"@,
        ),
{
}

/// The reconciliation coordinator is handed out to anyone, where there is one.
pub proof fn law_reconciliation_is_open<T>(handle: Option<&T>, op: &str, r: Result<&T, ApiError>)
    requires
        call_ensures(require_reconciliation::<T>, (handle, op), r),
    ensures
        r is Ok <==> handle is Some,
        r is Ok ==> handle == Some(r->Ok_0),
        r is Err ==> says(
            r->Err_0,
            ErrorClass::Internal,
            op@ + ": this server was constructed without "@
                + "a reconciliation coordinator handle; reconciliation ops are unavailable"@,
            "reconciliation_not_configured"@,
        ),
{
}

/// The grammar operations are open to a connection that holds `grammar_admin`, and to no
/// other.
pub proof fn law_grammar_admin_is_needed(conn: ConnectionState, op: &str, r: Result<(), ApiError>)
    requires
        call_ensures(require_grammar_admin, (&conn, op), r),
    ensures
        r is Ok <==> conn.granted_capabilities@.contains("grammar_admin"@),
        r is Err ==> says(
            r->Err_0,
            ErrorClass::PermissionDenied,
            op@ + ": "@ + "grammar_admin"@ + " not granted on this connection"@,
            "grammar_admin_not_granted"@,
        ),
{
}

/// A frame that is no request is answered and the connection goes on. A subscription
/// begins a stream with what it asks for, unless its coalescing is wrong, which closes
/// the connection. Every other request is dispatched as it is.
pub proof fn law_frames_are_routed(
    parsed: Result<ClientRequest, String>,
    coalesce_error: Option<&str>,
    r: Route,
)
    requires
        call_ensures(route_frame, (parsed, coalesce_error), r),
    ensures
        parsed is Err ==> r is Reply && refuses(
            r->Reply_0,
            ErrorClass::ProtocolViolation,
            "invalid JSON: "@ + parsed->Err_0@,
            "invalid_json"@,
        ),
        parsed is Ok ==> match parsed->Ok_0 {
            ClientRequest::SubscribeHappenings { since, filter, coalesce } => {
                if coalesce is Some && coalesce_error is Some {
                    r is Close && refuses(
                        r->Close_0,
                        ErrorClass::ContractViolation,
                        coalesce_error->Some_0@,
                        "coalesce_invalid"@,
                    )
                } else {
                    &&& r is StreamHappenings
                    &&& r->since == since
                    &&& r->filter.variants@ == filter.variants@
                    &&& r->filter.plugins@ == filter.plugins@
                    &&& r->filter.shelves@ == filter.shelves@
                    &&& r->coalesce == coalesce
                }
            },
            ClientRequest::SubscribeSubject { canonical_id, scope, follow_aliases } => {
                &&& r is StreamSubject
                &&& r->canonical_id == canonical_id
                &&& scope_walked(r->scope) == scope_asked(scope)
                &&& r->follow_aliases == follow_aliases
            },
            _ => r is Dispatch && r->Dispatch_0 == parsed->Ok_0,
        },
{
}

}
