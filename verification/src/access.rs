//! What a connection may do: peer credentials, the operator's access list,
//! capability negotiation, and the guards in front of privileged operations.

use crate::errors::{is_error, refusal, ApiError, ErrorClass};
use crate::text::{concat3, concat4, same_text};
use vstd::hash_set::StringHashSet;
use vstd::prelude::*;
use vstd::string::*;

verus! {

pub const CAPABILITY_RESOLVE_CLAIMANTS: &'static str = "resolve_claimants";

pub const CAPABILITY_PLUGINS_ADMIN: &'static str = "plugins_admin";

pub const CAPABILITY_RECONCILIATION_ADMIN: &'static str = "reconciliation_admin";

pub const CAPABILITY_FAST_PATH_ADMIN: &'static str = "fast_path_admin";

pub const CAPABILITY_USER_INTERACTION_RESPONDER: &'static str = "user_interaction_responder";

pub const CAPABILITY_APPOINTMENTS_ADMIN: &'static str = "appointments_admin";

pub const CAPABILITY_WATCHES_ADMIN: &'static str = "watches_admin";

pub const CAPABILITY_GRAMMAR_ADMIN: &'static str = "grammar_admin";

/// The capabilities that can be negotiated.
pub open spec fn negotiable() -> Seq<Seq<char>> {
    seq![
        "resolve_claimants"@,
        "plugins_admin"@,
        "reconciliation_admin"@,
        "fast_path_admin"@,
        "user_interaction_responder"@,
        "appointments_admin"@,
        "watches_admin"@,
        "grammar_admin"@,
    ]
}

/// The capabilities that can be negotiated.
pub fn negotiable_capabilities() -> (r: Vec<&'static str>)
    ensures
        r@.map_values(|s: &'static str| s@) == negotiable(),
        r@.len() == negotiable().len(),
        forall|i: int| 0 <= i < r@.len() ==> (#[trigger] r@[i])@ == negotiable()[i],
{
    let mut out: Vec<&'static str> = Vec::new();
    out.push(CAPABILITY_RESOLVE_CLAIMANTS);
    out.push(CAPABILITY_PLUGINS_ADMIN);
    out.push(CAPABILITY_RECONCILIATION_ADMIN);
    out.push(CAPABILITY_FAST_PATH_ADMIN);
    out.push(CAPABILITY_USER_INTERACTION_RESPONDER);
    out.push(CAPABILITY_APPOINTMENTS_ADMIN);
    out.push(CAPABILITY_WATCHES_ADMIN);
    out.push(CAPABILITY_GRAMMAR_ADMIN);
    assert(out@.map_values(|s: &'static str| s@) =~= negotiable());
    out
}

/// Who is at the other end of a connection, as far as the platform tells.
#[derive(Debug, Clone, Copy, PartialEq, Eq, Structural)]
pub struct PeerCredentials {
    pub uid: Option<u32>,
    pub gid: Option<u32>,
}

/// Who the steward runs as, as far as the platform tells.
#[derive(Debug, Clone, Copy, PartialEq, Eq, Structural)]
pub struct StewardIdentity {
    pub uid: Option<u32>,
    pub gid: Option<u32>,
}

/// Who may have one capability.
#[derive(Debug, Clone)]
pub struct CapabilityRule {
    /// A peer that runs under the steward's own UID.
    pub allow_local: bool,
    /// Peers with one of these UIDs.
    pub allow_uids: Vec<u32>,
    /// Peers with one of these GIDs.
    pub allow_gids: Vec<u32>,
}

fn holds(list: &Vec<u32>, id: Option<u32>) -> (r: bool)
    ensures
        r == (id matches Some(n) && list@.contains(n)),
{
    let wanted: u32 = match id {
        Some(n) => n,
        None => {
            return false;
        },
    };
    let mut i: usize = 0;
    while i < list.len()
        invariant
            i <= list.len(),
            id == Some(wanted),
            forall|j: int| 0 <= j < i ==> list@[j] != wanted,
        decreases list.len() - i,
    {
        if list[i] == wanted {
            return true;
        }
        i += 1;
    }
    false
}

impl CapabilityRule {
    /// The peer may have the capability.
    pub open spec fn admits(self, peer: PeerCredentials, steward: StewardIdentity) -> bool {
        ||| self.allow_local && peer.uid is Some && peer.uid == steward.uid
        ||| peer.uid is Some && self.allow_uids@.contains(peer.uid->0)
        ||| peer.gid is Some && self.allow_gids@.contains(peer.gid->0)
    }

    /// Whether the peer may have the capability. A peer whose credentials are
    /// unknown may not.
    pub fn allows(&self, peer: PeerCredentials, steward: StewardIdentity) -> (r: bool)
        ensures
            r == self.admits(peer, steward),
    {
        let local = match (peer.uid, steward.uid) {
            (Some(p), Some(s)) => self.allow_local && p == s,
            _ => false,
        };
        local || holds(&self.allow_uids, peer.uid) || holds(&self.allow_gids, peer.gid)
    }

    /// The rule that admits local peers only.
    pub fn local_only() -> (r: CapabilityRule)
        ensures
            r.allow_local,
            r.allow_uids@.len() == 0,
            r.allow_gids@.len() == 0,
    {
        CapabilityRule { allow_local: true, allow_uids: Vec::new(), allow_gids: Vec::new() }
    }
}

/// The operator's access list: one rule per negotiable capability.
#[derive(Debug, Clone)]
pub struct ClientAcl {
    pub resolve_claimants: CapabilityRule,
    pub plugins_admin: CapabilityRule,
    pub reconciliation_admin: CapabilityRule,
    pub fast_path_admin: CapabilityRule,
    pub user_interaction_responder: CapabilityRule,
    pub appointments_admin: CapabilityRule,
    pub watches_admin: CapabilityRule,
    pub grammar_admin: CapabilityRule,
}

impl Default for ClientAcl {
    /// Every capability for local peers only.
    fn default() -> (r: ClientAcl)
        ensures
            forall|name: Seq<char>|
                (#[trigger] r.rule(name)) matches Some(rule) ==> rule.allow_local
                    && rule.allow_uids@.len() == 0 && rule.allow_gids@.len() == 0,
    {
        ClientAcl {
            resolve_claimants: CapabilityRule::local_only(),
            plugins_admin: CapabilityRule::local_only(),
            reconciliation_admin: CapabilityRule::local_only(),
            fast_path_admin: CapabilityRule::local_only(),
            user_interaction_responder: CapabilityRule::local_only(),
            appointments_admin: CapabilityRule::local_only(),
            watches_admin: CapabilityRule::local_only(),
            grammar_admin: CapabilityRule::local_only(),
        }
    }
}

impl ClientAcl {
    /// The rule of a capability; none for a name that cannot be negotiated.
    pub open spec fn rule(self, name: Seq<char>) -> Option<CapabilityRule> {
        if name == "resolve_claimants"@ {
            Some(self.resolve_claimants)
        } else if name == "plugins_admin"@ {
            Some(self.plugins_admin)
        } else if name == "reconciliation_admin"@ {
            Some(self.reconciliation_admin)
        } else if name == "fast_path_admin"@ {
            Some(self.fast_path_admin)
        } else if name == "user_interaction_responder"@ {
            Some(self.user_interaction_responder)
        } else if name == "appointments_admin"@ {
            Some(self.appointments_admin)
        } else if name == "watches_admin"@ {
            Some(self.watches_admin)
        } else if name == "grammar_admin"@ {
            Some(self.grammar_admin)
        } else {
            None
        }
    }

    /// The rule of a capability.
    pub fn rule_for(&self, name: &str) -> (r: Option<&CapabilityRule>)
        ensures
            match r {
                Some(rule) => self.rule(name@) == Some(*rule),
                None => self.rule(name@) is None,
            },
    {
        if same_text(name, CAPABILITY_RESOLVE_CLAIMANTS) {
            Some(&self.resolve_claimants)
        } else if same_text(name, CAPABILITY_PLUGINS_ADMIN) {
            Some(&self.plugins_admin)
        } else if same_text(name, CAPABILITY_RECONCILIATION_ADMIN) {
            Some(&self.reconciliation_admin)
        } else if same_text(name, CAPABILITY_FAST_PATH_ADMIN) {
            Some(&self.fast_path_admin)
        } else if same_text(name, CAPABILITY_USER_INTERACTION_RESPONDER) {
            Some(&self.user_interaction_responder)
        } else if same_text(name, CAPABILITY_APPOINTMENTS_ADMIN) {
            Some(&self.appointments_admin)
        } else if same_text(name, CAPABILITY_WATCHES_ADMIN) {
            Some(&self.watches_admin)
        } else if same_text(name, CAPABILITY_GRAMMAR_ADMIN) {
            Some(&self.grammar_admin)
        } else {
            None
        }
    }
}

/// Every negotiable capability has a rule, and nothing else has.
pub proof fn law_negotiable_are_gated(acl: ClientAcl, name: Seq<char>)
    ensures
        acl.rule(name) is Some <==> negotiable().contains(name),
{
    let all = negotiable();
    if acl.rule(name) is Some {
        if name == "resolve_claimants"@ {
            assert(all[0] == name);
        } else if name == "plugins_admin"@ {
            assert(all[1] == name);
        } else if name == "reconciliation_admin"@ {
            assert(all[2] == name);
        } else if name == "fast_path_admin"@ {
            assert(all[3] == name);
        } else if name == "user_interaction_responder"@ {
            assert(all[4] == name);
        } else if name == "appointments_admin"@ {
            assert(all[5] == name);
        } else if name == "watches_admin"@ {
            assert(all[6] == name);
        } else {
            assert(all[7] == name);
        }
    }
}

/// Hands out connection ids.
#[derive(Debug)]
pub struct ConnectionIds {
    pub next: u64,
}

impl ConnectionIds {
    /// The first id is 1.
    pub fn new() -> (r: ConnectionIds)
        ensures
            r.next == 1,
    {
        ConnectionIds { next: 1 }
    }

    /// The next id. Ids are unique until the counter wraps.
    pub fn next_connection_id(&mut self) -> (r: u64)
        ensures
            r == old(self).next,
            final(self).next == (if r == u64::MAX {
                0
            } else {
                (r + 1) as u64
            }),
    {
        let id: u64 = self.next;
        self.next = id.wrapping_add(1);
        id
    }
}

/// The state of one connection.
pub struct ConnectionState {
    pub peer: PeerCredentials,
    /// What the last negotiation granted.
    pub granted_capabilities: StringHashSet,
    pub connection_id: u64,
}

impl ConnectionState {
    /// A connection that has not negotiated yet.
    pub fn new(peer: PeerCredentials, connection_id: u64) -> (r: ConnectionState)
        ensures
            r.peer == peer,
            r.granted_capabilities@ == Set::<Seq<char>>::empty(),
            r.connection_id == connection_id,
    {
        ConnectionState { peer, granted_capabilities: StringHashSet::new(), connection_id }
    }

    /// The capability has been granted.
    pub open spec fn holds(&self, name: Seq<char>) -> bool {
        self.granted_capabilities@.contains(name)
    }

    /// Whether the capability has been granted.
    pub fn has(&self, name: &str) -> (r: bool)
        ensures
            r == self.holds(name@),
    {
        self.granted_capabilities.contains(name)
    }

    /// The connection's id.
    pub fn id(&self) -> (r: u64)
        ensures
            r == self.connection_id,
    {
        self.connection_id
    }
}

/// The lock that lets at most one connection answer user interactions.
#[derive(Debug)]
pub struct ResponderLock {
    pub holder: Option<u64>,
}

impl ResponderLock {
    /// A lock that nobody holds.
    pub fn new() -> (r: ResponderLock)
        ensures
            r.holder is None,
    {
        ResponderLock { holder: None }
    }

    /// The connection that holds the lock.
    pub fn current_responder(&self) -> (r: Option<u64>)
        ensures
            r == self.holder,
    {
        self.holder
    }

    /// The connection can have the lock: nobody holds it, or itself does.
    pub open spec fn open_to(self, id: u64) -> bool {
        self.holder is None || self.holder == Some(id)
    }

    /// Claims the lock. The holder keeps it against others, and may claim it
    /// again.
    pub fn try_claim_responder(&mut self, id: u64) -> (r: bool)
        ensures
            r == old(self).open_to(id),
            final(self).holder == (if old(self).open_to(id) {
                Some(id)
            } else {
                old(self).holder
            }),
    {
        match self.holder {
            None => {
                self.holder = Some(id);
                true
            },
            Some(h) => h == id,
        }
    }

    /// Gives up the lock; a connection that does not hold it changes nothing.
    pub fn release_responder(&mut self, id: u64)
        ensures
            final(self).holder == (if old(self).holder == Some(id) {
                None
            } else {
                old(self).holder
            }),
    {
        if let Some(h) = self.holder {
            if h == id {
                self.holder = None;
            }
        }
    }
}

/// The connection gets the capability if it asks for it: the name can be
/// negotiated, the access list admits the peer, and for the responder
/// capability the lock is there and open to the connection.
pub open spec fn permitted(
    name: Seq<char>,
    acl: ClientAcl,
    peer: PeerCredentials,
    steward: StewardIdentity,
    lock: Option<ResponderLock>,
    id: u64,
) -> bool {
    &&& acl.rule(name) is Some
    &&& acl.rule(name)->0.admits(peer, steward)
    &&& name == "user_interaction_responder"@ ==> lock is Some && lock->0.open_to(id)
}

/// The requested names that are permitted, each once, in the order in which
/// they were first requested.
pub open spec fn grants(requested: Seq<Seq<char>>, ok: spec_fn(Seq<char>) -> bool) -> Seq<
    Seq<char>,
>
    decreases requested.len(),
{
    if requested.len() == 0 {
        Seq::empty()
    } else {
        let before = grants(requested.drop_last(), ok);
        let name = requested.last();
        if ok(name) && !before.contains(name) {
            before.push(name)
        } else {
            before
        }
    }
}

/// The texts of some strings.
pub open spec fn texts(v: Seq<String>) -> Seq<Seq<char>> {
    v.map_values(|s: String| s@)
}

fn has_name(list: &Vec<String>, name: &str) -> (r: bool)
    ensures
        r == texts(list@).contains(name@),
{
    let mut i: usize = 0;
    while i < list.len()
        invariant
            i <= list.len(),
            forall|j: int| 0 <= j < i ==> (#[trigger] list@[j])@ != name@,
        decreases list.len() - i,
    {
        if same_text(list[i].as_str(), name) {
            assert(texts(list@)[i as int] == name@);
            return true;
        }
        i += 1;
    }
    proof {
        if texts(list@).contains(name@) {
            let j = choose|j: int| 0 <= j < texts(list@).len() && texts(list@)[j] == name@;
            assert(list@[j]@ == name@);
        }
    }
    false
}

/// Negotiates capabilities. Unknown and refused names are left out without an
/// error; the granted set replaces what an earlier negotiation granted.
pub fn negotiate(
    capabilities: &Vec<String>,
    acl: &ClientAcl,
    steward: StewardIdentity,
    lock: &mut Option<ResponderLock>,
    conn: &mut ConnectionState,
) -> (granted: Vec<String>)
    ensures
        texts(granted@) == grants(
            texts(capabilities@),
            |name: Seq<char>|
                permitted(name, *acl, old(conn).peer, steward, *old(lock), old(conn).connection_id),
        ),
        final(conn).peer == old(conn).peer,
        final(conn).connection_id == old(conn).connection_id,
        final(conn).granted_capabilities@ == texts(granted@).to_set(),
        ({
            let claims = texts(capabilities@).contains("user_interaction_responder"@) && permitted(
                "user_interaction_responder"@,
                *acl,
                old(conn).peer,
                steward,
                *old(lock),
                old(conn).connection_id,
            );
            match *old(lock) {
                None => *final(lock) is None,
                Some(l) => *final(lock) is Some && final(lock)->0.holder == (if claims {
                    Some(old(conn).connection_id)
                } else {
                    l.holder
                }),
            }
        }),
{
    let ghost ok = |name: Seq<char>|
        permitted(name, *acl, old(conn).peer, steward, *old(lock), old(conn).connection_id);
    let ghost wanted = texts(capabilities@);
    let ghost responder = "user_interaction_responder"@;
    let id: u64 = conn.connection_id;
    let peer = conn.peer;
    let mut granted: Vec<String> = Vec::new();
    let mut set = StringHashSet::new();
    let mut i: usize = 0;
    proof {
        assert(wanted.take(0) =~= Seq::<Seq<char>>::empty());
        assert(texts(granted@) =~= Seq::<Seq<char>>::empty());
        assert(texts(granted@).to_set() =~= Set::<Seq<char>>::empty());
    }
    while i < capabilities.len()
        invariant
            i <= capabilities.len(),
            *conn == *old(conn),
            id == old(conn).connection_id,
            peer == old(conn).peer,
            wanted == texts(capabilities@),
            responder == "user_interaction_responder"@,
            ok == (|name: Seq<char>|
                permitted(
                    name,
                    *acl,
                    old(conn).peer,
                    steward,
                    *old(lock),
                    old(conn).connection_id,
                )),
            texts(granted@) == grants(wanted.take(i as int), ok),
            set@ == texts(granted@).to_set(),
            match *old(lock) {
                None => *lock is None,
                Some(l) => *lock is Some && lock->0.holder == (if wanted.take(i as int).contains(
                    responder,
                ) && ok(responder) {
                    Some(id)
                } else {
                    l.holder
                }),
            },
        decreases capabilities.len() - i,
    {
        let name = capabilities[i].as_str();
        let ghost shown = texts(granted@);
        let ghost seen = wanted.take(i as int);
        let mut allowed: bool = false;
        match acl.rule_for(name) {
            None => {},
            Some(rule) => {
                if rule.allows(peer, steward) {
                    if same_text(name, CAPABILITY_USER_INTERACTION_RESPONDER) {
                        match lock {
                            Some(l) => {
                                allowed = l.try_claim_responder(id);
                            },
                            None => {},
                        }
                    } else {
                        allowed = true;
                    }
                }
            },
        }
        assert(allowed == ok(name@));
        if allowed && !has_name(&granted, name) {
            set.insert(capabilities[i].clone());
            granted.push(capabilities[i].clone());
            proof {
                assert(texts(granted@) =~= shown.push(name@));
                assert(texts(granted@).to_set() =~= shown.to_set().insert(name@)) by {
                    broadcast use vstd::seq_lib::group_seq_properties;

                    assert forall|x: Seq<char>| #[trigger]
                        shown.push(name@).contains(x) == (shown.contains(x) || x == name@) by {
                        if shown.contains(x) {
                            let k = choose|k: int| 0 <= k < shown.len() && shown[k] == x;
                            assert(shown.push(name@)[k] == x);
                        }
                        assert(shown.push(name@)[shown.len() as int] == name@);
                    }
                }
            }
        }
        proof {
            let next = wanted.take(i + 1);
            assert(next.drop_last() =~= seen);
            assert(next.last() == name@);
            assert(next =~= seen.push(name@));
            assert(next.contains(responder) == (seen.contains(responder) || name@ == responder)) by {
                if seen.contains(responder) {
                    let k = choose|k: int| 0 <= k < seen.len() && seen[k] == responder;
                    assert(next[k] == responder);
                }
                assert(next[i as int] == name@);
            }
        }
        i += 1;
    }
    assert(wanted.take(capabilities.len() as int) =~= wanted);
    conn.granted_capabilities = set;
    granted
}

/// The refusal of an operation whose capability the connection lacks.
pub open spec fn is_not_granted(
    e: ApiError,
    op: Seq<char>,
    capability: Seq<char>,
    subclass: Seq<char>,
) -> bool {
    is_error(
        e,
        ErrorClass::PermissionDenied,
        op + ": "@ + capability + " not granted on this connection"@,
        subclass,
    )
}

/// The refusal of an operation whose subsystem the server does not have.
pub open spec fn is_not_configured(
    e: ApiError,
    op: Seq<char>,
    absent: Seq<char>,
    subclass: Seq<char>,
) -> bool {
    is_error(
        e,
        ErrorClass::Internal,
        op + ": this server was constructed without "@ + absent,
        subclass,
    )
}

fn not_granted(op: &str, capability: &str, subclass: &str) -> (e: ApiError)
    ensures
        is_not_granted(e, op@, capability@, subclass@),
{
    let text = concat4(op, ": ", capability, " not granted on this connection");
    refusal(ErrorClass::PermissionDenied, text.as_str(), subclass)
}

fn not_configured(op: &str, absent: &str, subclass: &str) -> (e: ApiError)
    ensures
        is_not_configured(e, op@, absent@, subclass@),
{
    let text = concat3(op, ": this server was constructed without ", absent);
    refusal(ErrorClass::Internal, text.as_str(), subclass)
}

/// Opens plugin lifecycle and reload operations to a connection that holds
/// `plugins_admin`, and hands out the admission engine.
pub fn require_plugins_admin<'a, T>(
    handle: Option<&'a T>,
    conn: &ConnectionState,
    op: &str,
) -> (r: Result<&'a T, ApiError>)
    ensures
        match r {
            Ok(h) => conn.holds("plugins_admin"@) && handle == Some(h),
            Err(e) => if !conn.holds("plugins_admin"@) {
                is_not_granted(e, op@, "plugins_admin"@, "plugins_admin_not_granted"@)
            } else {
                handle is None && is_not_configured(
                    e,
                    op@,
                    "an admission engine handle; plugin lifecycle ops are unavailable"@,
                    "admission_engine_not_configured"@,
                )
            },
        },
{
    if !conn.has("plugins_admin") {
        return Err(not_granted(op, "plugins_admin", "plugins_admin_not_granted"));
    }
    match handle {
        Some(h) => Ok(h),
        None => Err(
            not_configured(
                op,
                "an admission engine handle; plugin lifecycle ops are unavailable",
                "admission_engine_not_configured",
            ),
        ),
    }
}

/// Opens the manual reconciliation trigger to a connection that holds
/// `reconciliation_admin`, and hands out the reconciliation coordinator.
pub fn require_reconciliation_admin<'a, T>(
    handle: Option<&'a T>,
    conn: &ConnectionState,
    op: &str,
) -> (r: Result<&'a T, ApiError>)
    ensures
        match r {
            Ok(h) => conn.holds("reconciliation_admin"@) && handle == Some(h),
            Err(e) => if !conn.holds("reconciliation_admin"@) {
                is_not_granted(e, op@, "reconciliation_admin"@, "reconciliation_admin_not_granted"@)
            } else {
                handle is None && is_not_configured(
                    e,
                    op@,
                    "a reconciliation coordinator handle; reconciliation admin ops are unavailable"@,
                    "reconciliation_not_configured"@,
                )
            },
        },
{
    if !conn.has("reconciliation_admin") {
        return Err(not_granted(op, "reconciliation_admin", "reconciliation_admin_not_granted"));
    }
    match handle {
        Some(h) => Ok(h),
        None => Err(
            not_configured(
                op,
                "a reconciliation coordinator handle; reconciliation admin ops are unavailable",
                "reconciliation_not_configured",
            ),
        ),
    }
}

/// Opens the user interaction operations to a connection that holds
/// `user_interaction_responder`, and hands out the prompt ledger.
pub fn require_user_interaction_responder<'a, T>(
    handle: Option<&'a T>,
    conn: &ConnectionState,
    op: &str,
) -> (r: Result<&'a T, ApiError>)
    ensures
        match r {
            Ok(h) => conn.holds("user_interaction_responder"@) && handle == Some(h),
            Err(e) => if !conn.holds("user_interaction_responder"@) {
                is_not_granted(e, op@, "user_interaction_responder"@, "user_interaction_responder_not_granted"@)
            } else {
                handle is None && is_not_configured(
                    e,
                    op@,
                    "a prompt ledger; user-interaction routing is unavailable"@,
                    "prompt_ledger_not_configured"@,
                )
            },
        },
{
    if !conn.has("user_interaction_responder") {
        return Err(not_granted(op, "user_interaction_responder", "user_interaction_responder_not_granted"));
    }
    match handle {
        Some(h) => Ok(h),
        None => Err(
            not_configured(
                op,
                "a prompt ledger; user-interaction routing is unavailable",
                "prompt_ledger_not_configured",
            ),
        ),
    }
}

/// Opens the appointment operations to a connection that holds
/// `appointments_admin`, and hands out the appointments runtime.
pub fn require_appointments_admin<'a, T>(
    handle: Option<&'a T>,
    conn: &ConnectionState,
    op: &str,
) -> (r: Result<&'a T, ApiError>)
    ensures
        match r {
            Ok(h) => conn.holds("appointments_admin"@) && handle == Some(h),
            Err(e) => if !conn.holds("appointments_admin"@) {
                is_not_granted(e, op@, "appointments_admin"@, "appointments_admin_not_granted"@)
            } else {
                handle is None && is_not_configured(
                    e,
                    op@,
                    "an appointments runtime; appointment-admin ops are unavailable"@,
                    "appointments_not_configured"@,
                )
            },
        },
{
    if !conn.has("appointments_admin") {
        return Err(not_granted(op, "appointments_admin", "appointments_admin_not_granted"));
    }
    match handle {
        Some(h) => Ok(h),
        None => Err(
            not_configured(
                op,
                "an appointments runtime; appointment-admin ops are unavailable",
                "appointments_not_configured",
            ),
        ),
    }
}

/// Opens the watch operations to a connection that holds
/// `watches_admin`, and hands out the watches runtime.
pub fn require_watches_admin<'a, T>(
    handle: Option<&'a T>,
    conn: &ConnectionState,
    op: &str,
) -> (r: Result<&'a T, ApiError>)
    ensures
        match r {
            Ok(h) => conn.holds("watches_admin"@) && handle == Some(h),
            Err(e) => if !conn.holds("watches_admin"@) {
                is_not_granted(e, op@, "watches_admin"@, "watches_admin_not_granted"@)
            } else {
                handle is None && is_not_configured(
                    e,
                    op@,
                    "a watches runtime; watch-admin ops are unavailable"@,
                    "watches_not_configured"@,
                )
            },
        },
{
    if !conn.has("watches_admin") {
        return Err(not_granted(op, "watches_admin", "watches_admin_not_granted"));
    }
    match handle {
        Some(h) => Ok(h),
        None => Err(
            not_configured(
                op,
                "a watches runtime; watch-admin ops are unavailable",
                "watches_not_configured",
            ),
        ),
    }
}

/// Hands out the reconciliation coordinator for the read-only operations,
/// which every connection may use.
pub fn require_reconciliation<'a, T>(handle: Option<&'a T>, op: &str) -> (r: Result<
    &'a T,
    ApiError,
>)
    ensures
        match r {
            Ok(h) => handle == Some(h),
            Err(e) => handle is None && is_not_configured(
                e,
                op@,
                "a reconciliation coordinator handle; reconciliation ops are unavailable"@,
                "reconciliation_not_configured"@,
            ),
        },
{
    match handle {
        Some(h) => Ok(h),
        None => Err(
            not_configured(
                op,
                "a reconciliation coordinator handle; reconciliation ops are unavailable",
                "reconciliation_not_configured",
            ),
        ),
    }
}

/// Opens the grammar operations to a connection that holds `grammar_admin`.
pub fn require_grammar_admin(conn: &ConnectionState, op: &str) -> (r: Result<(), ApiError>)
    ensures
        match r {
            Ok(_) => conn.holds("grammar_admin"@),
            Err(e) => !conn.holds("grammar_admin"@) && is_not_granted(
                e,
                op@,
                "grammar_admin"@,
                "grammar_admin_not_granted"@,
            ),
        },
{
    if conn.has("grammar_admin") {
        Ok(())
    } else {
        Err(not_granted(op, "grammar_admin", "grammar_admin_not_granted"))
    }
}

/// A negotiation grants what was asked for and is permitted, and nothing
/// else; nothing is granted twice.
pub proof fn law_grants(requested: Seq<Seq<char>>, ok: spec_fn(Seq<char>) -> bool)
    ensures
        forall|name: Seq<char>| #[trigger]
            grants(requested, ok).contains(name) <==> requested.contains(name) && ok(name),
        grants(requested, ok).no_duplicates(),
    decreases requested.len(),
{
    if requested.len() > 0 {
        let rest = requested.drop_last();
        let last = requested.last();
        let before = grants(rest, ok);
        let after = grants(requested, ok);
        law_grants(rest, ok);
        assert(requested =~= rest.push(last));
        assert forall|name: Seq<char>| requested.contains(name) == (rest.contains(name) || name
            == last) by {
            if rest.contains(name) {
                let k = choose|k: int| 0 <= k < rest.len() && rest[k] == name;
                assert(requested[k] == name);
            }
            assert(requested[rest.len() as int] == last);
        }
        assert forall|name: Seq<char>| #[trigger]
            after.contains(name) <==> requested.contains(name) && ok(name) by {
            if ok(last) && !before.contains(last) {
                assert(after == before.push(last));
                assert(after[before.len() as int] == last);
                if before.contains(name) {
                    let k = choose|k: int| 0 <= k < before.len() && before[k] == name;
                    assert(after[k] == name);
                }
            }
        }
    }
}

/// At most one connection holds the responder capability through the lock:
/// after a connection has claimed it, every other is refused until the holder
/// releases it.
pub proof fn law_one_responder(lock: ResponderLock, holder: u64, other: u64)
    requires
        lock.holder == Some(holder),
        holder != other,
    ensures
        !lock.open_to(other),
        lock.open_to(holder),
{
}

}
