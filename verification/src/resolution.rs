//! Resolving claimant tokens, and the audit ledger of who asked.

use crate::access::ConnectionState;
use crate::claimant::{ClaimantToken, ClaimantTokenIssuer, KnownPlugin};
use crate::errors::{is_error, refusal, ErrorClass};
use crate::responses::{ClaimantResolutionWire, ClientResponse};
use std::time::SystemTime;
use vstd::prelude::*;

verus! {

/// One `resolve_claimants` call, granted or refused.
#[derive(Debug)]
pub struct ResolutionLogEntry {
    pub peer_uid: Option<u32>,
    pub peer_gid: Option<u32>,
    pub tokens_requested: usize,
    pub tokens_resolved: usize,
    pub granted: bool,
    pub at: SystemTime,
}

/// The calls in the order in which they came. Operator tooling reads it; it is
/// not part of any stream.
#[derive(Debug)]
pub struct ResolutionLedger {
    pub log: Vec<ResolutionLogEntry>,
}

impl ResolutionLedger {
    /// A ledger without entries.
    pub fn new() -> (r: ResolutionLedger)
        ensures
            r.log@.len() == 0,
    {
        ResolutionLedger { log: Vec::new() }
    }

    /// Adds an entry.
    pub fn record(&mut self, entry: ResolutionLogEntry)
        ensures
            final(self).log@ == old(self).log@.push(entry),
    {
        self.log.push(entry);
    }

    /// How many entries there are.
    pub fn count(&self) -> (r: usize)
        ensures
            r == self.log@.len(),
    {
        self.log.len()
    }

    /// The entries, oldest first.
    pub fn entries(&self) -> (r: &Vec<ResolutionLogEntry>)
        ensures
            *r == self.log,
    {
        &self.log
    }
}

/// The plugin that a token resolves to.
pub open spec fn resolved(issuer: ClaimantTokenIssuer, raw: Seq<char>) -> Option<KnownPlugin> {
    if exists|i: int| #[trigger] issuer.resolves_to(raw, i) {
        Some(issuer.known@[choose|i: int| #[trigger] issuer.resolves_to(raw, i)])
    } else {
        None
    }
}

/// The tokens that resolve, in the order of the request, with what they stand
/// for; the others are left out.
pub open spec fn resolutions_of(tokens: Seq<String>, issuer: ClaimantTokenIssuer) -> Seq<
    ClaimantResolutionWire,
>
    decreases tokens.len(),
{
    if tokens.len() == 0 {
        Seq::empty()
    } else {
        let before = resolutions_of(tokens.drop_last(), issuer);
        match resolved(issuer, tokens.last()@) {
            Some(plugin) => before.push(
                ClaimantResolutionWire {
                    token: tokens.last(),
                    plugin_name: plugin.name,
                    plugin_version: plugin.version,
                },
            ),
            None => before,
        }
    }
}

/// Resolves tokens for a connection that holds `resolve_claimants`. Every call
/// is recorded, refused ones too.
pub fn handle_resolve_claimants(
    issuer: &ClaimantTokenIssuer,
    ledger: &mut ResolutionLedger,
    conn: &ConnectionState,
    tokens: Vec<String>,
    now: SystemTime,
) -> (r: ClientResponse)
    ensures
        if conn.holds("resolve_claimants"@) {
            r matches ClientResponse::Resolutions { resolutions } && resolutions@
                == resolutions_of(tokens@, *issuer)
        } else {
            r matches ClientResponse::Error { error } && is_error(
                error,
                ErrorClass::PermissionDenied,
                "resolve_claimants not granted on this connection"@,
                "resolve_claimants_not_granted"@,
            )
        },
        final(ledger).log@ == old(ledger).log@.push(
            (ResolutionLogEntry {
                peer_uid: conn.peer.uid,
                peer_gid: conn.peer.gid,
                tokens_requested: tokens@.len() as usize,
                tokens_resolved: if conn.holds("resolve_claimants"@) {
                    resolutions_of(tokens@, *issuer).len() as usize
                } else {
                    0
                },
                granted: conn.holds("resolve_claimants"@),
                at: now,
            }),
        ),
{
    let requested: usize = tokens.len();
    if !conn.has("resolve_claimants") {
        ledger.record(
            ResolutionLogEntry {
                peer_uid: conn.peer.uid,
                peer_gid: conn.peer.gid,
                tokens_requested: requested,
                tokens_resolved: 0,
                granted: false,
                at: now,
            },
        );
        return ClientResponse::Error {
            error: refusal(
                ErrorClass::PermissionDenied,
                "resolve_claimants not granted on this connection",
                "resolve_claimants_not_granted",
            ),
        };
    }
    let mut resolutions: Vec<ClaimantResolutionWire> = Vec::new();
    let mut i: usize = 0;
    assert(tokens@.take(0) =~= Seq::<String>::empty());
    while i < tokens.len()
        invariant
            i <= tokens.len(),
            resolutions@ == resolutions_of(tokens@.take(i as int), *issuer),
        decreases tokens.len() - i,
    {
        let raw = &tokens[i];
        proof {
            let next = tokens@.take(i + 1);
            assert(next.drop_last() =~= tokens@.take(i as int));
            assert(next.last() == raw);
        }
        match issuer.resolve(raw.as_str()) {
            Some((plugin_name, plugin_version)) => {
                proof {
                    let k = choose|k: int| #[trigger]
                        issuer.resolves_to(raw@, k) && plugin_name == issuer.known@[k].name
                            && plugin_version == issuer.known@[k].version;
                    let l = choose|l: int| #[trigger] issuer.resolves_to(raw@, l);
                    assert(issuer.resolves_to(raw@, k) && issuer.resolves_to(raw@, l));
                    assert(k == l);
                }
                resolutions.push(
                    ClaimantResolutionWire { token: raw.clone(), plugin_name, plugin_version },
                );
            },
            None => {},
        }
        i += 1;
    }
    assert(tokens@.take(tokens@.len() as int) =~= tokens@);
    let found: usize = resolutions.len();
    ledger.record(
        ResolutionLogEntry {
            peer_uid: conn.peer.uid,
            peer_gid: conn.peer.gid,
            tokens_requested: requested,
            tokens_resolved: found,
            granted: true,
            at: now,
        },
    );
    ClientResponse::Resolutions { resolutions }
}

/// A resolution names only tokens that were asked for and that stand for the
/// plugin it gives.
pub proof fn law_resolutions_are_sound(tokens: Seq<String>, issuer: ClaimantTokenIssuer, i: int)
    requires
        0 <= i < resolutions_of(tokens, issuer).len(),
    ensures
        ({
            let row = resolutions_of(tokens, issuer)[i];
            tokens.contains(row.token) && issuer.token(row.plugin_name@).text() == row.token@
        }),
    decreases tokens.len(),
{
    if tokens.len() > 0 {
        let rest = tokens.drop_last();
        let before = resolutions_of(rest, issuer);
        if i < before.len() {
            law_resolutions_are_sound(rest, issuer, i);
            let k = choose|k: int| 0 <= k < rest.len() && rest[k] == before[i].token;
            assert(tokens[k] == before[i].token);
        } else {
            assert(tokens[tokens.len() - 1] == tokens.last());
            let k = choose|k: int| #[trigger] issuer.resolves_to(tokens.last()@, k);
            assert(issuer.resolves_to(tokens.last()@, k));
        }
    }
}

/// A token that can be resolved is answered: a resolution has a row for it.
pub proof fn law_resolvable_is_answered(
    tokens: Seq<String>,
    issuer: ClaimantTokenIssuer,
    i: int,
    token: ClaimantToken,
)
    requires
        0 <= i < tokens.len(),
        tokens[i]@ == token.text(),
        issuer.resolvable(token),
    ensures
        exists|k: int|
            0 <= k < resolutions_of(tokens, issuer).len() && (#[trigger] resolutions_of(
                tokens,
                issuer,
            )[k]).token == tokens[i],
    decreases tokens.len(),
{
    let rest = tokens.drop_last();
    let before = resolutions_of(rest, issuer);
    let all = resolutions_of(tokens, issuer);
    if i < rest.len() {
        law_resolvable_is_answered(rest, issuer, i, token);
        let k = choose|k: int|
            0 <= k < before.len() && (#[trigger] before[k]).token == rest[i];
        assert(all[k] == before[k]);
    } else {
        assert(all[before.len() as int].token == tokens[i]);
    }
}

}
