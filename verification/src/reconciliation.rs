//! The answers of the reconciliation operations.

use crate::errors::{is_error, refusal, ErrorClass, StewardFailure};
use crate::responses::{ClientResponse, ReconciliationPairWire};
use crate::text::concat2;
use serde_json::Value;
use vstd::prelude::*;

verus! {

/// An active pair of a composer and a warden.
#[derive(Debug)]
pub struct ReconciliationPairSnapshot {
    pub pair_id: String,
    pub composer_shelf: String,
    pub warden_shelf: String,
    pub generation: u64,
    pub last_applied_at_ms: Option<u64>,
}

/// What the warden of a pair has applied last.
#[derive(Debug)]
pub struct PairProjection {
    pub pair_id: String,
    pub generation: u64,
    pub applied_state: Value,
}

impl ReconciliationPairSnapshot {
    /// The wire form of a pair.
    pub open spec fn wire(self) -> ReconciliationPairWire {
        ReconciliationPairWire {
            pair_id: self.pair_id,
            composer_shelf: self.composer_shelf,
            warden_shelf: self.warden_shelf,
            generation: self.generation,
            last_applied_at_ms: self.last_applied_at_ms,
        }
    }
}

/// The answer of `list_reconciliation_pairs`.
pub fn list_reconciliation_pairs_reply(snapshot: Vec<ReconciliationPairSnapshot>) -> (r:
    ClientResponse)
    ensures
        r matches ClientResponse::ReconciliationPairs { reconciliation_pairs, pairs }
            && reconciliation_pairs && pairs@ == snapshot@.map_values(
            |s: ReconciliationPairSnapshot| s.wire(),
        ),
{
    let ghost all = snapshot@;
    let mut pairs: Vec<ReconciliationPairWire> = Vec::new();
    for s in it: snapshot
        invariant
            it.seq() == all,
            pairs@.len() == it.index(),
            forall|i: int| 0 <= i < pairs@.len() ==> #[trigger] pairs@[i] == all[i].wire(),
    {
        assert(s == all[it.index() as int]);
        pairs.push(
            ReconciliationPairWire {
                pair_id: s.pair_id,
                composer_shelf: s.composer_shelf,
                warden_shelf: s.warden_shelf,
                generation: s.generation,
                last_applied_at_ms: s.last_applied_at_ms,
            },
        );
    }
    assert(pairs@ =~= all.map_values(|s: ReconciliationPairSnapshot| s.wire()));
    ClientResponse::ReconciliationPairs { reconciliation_pairs: true, pairs }
}

/// The answer of `project_reconciliation_pair`.
pub fn project_reconciliation_pair_reply(pair: String, found: Option<PairProjection>) -> (r:
    ClientResponse)
    ensures
        match found {
            Some(p) => r == (ClientResponse::ReconciliationPairProjection {
                reconciliation_pair: true,
                pair: p.pair_id,
                generation: p.generation,
                applied_state: p.applied_state,
            }),
            None => r matches ClientResponse::Error { error } && is_error(
                error,
                ErrorClass::NotFound,
                "project_reconciliation_pair: no active pair with id "@ + pair@,
                "reconciliation_pair_not_found"@,
            ),
        },
{
    match found {
        Some(p) => ClientResponse::ReconciliationPairProjection {
            reconciliation_pair: true,
            pair: p.pair_id,
            generation: p.generation,
            applied_state: p.applied_state,
        },
        None => {
            let message = concat2(
                "project_reconciliation_pair: no active pair with id ",
                pair.as_str(),
            );
            ClientResponse::Error {
                error: refusal(
                    ErrorClass::NotFound,
                    message.as_str(),
                    "reconciliation_pair_not_found",
                ),
            }
        },
    }
}

/// The answer of `reconcile_pair_now`. A dispatch failure means that the pair is
/// not active.
pub fn reconcile_pair_now_reply(pair: String, outcome: Result<(), StewardFailure>) -> (r:
    ClientResponse)
    ensures
        match outcome {
            Ok(_) => r == (ClientResponse::ReconcileNow { reconcile_now: true, pair }),
            Err(failure) => r matches ClientResponse::Error { error } && is_error(
                error,
                failure.spec_class(),
                "reconcile_pair_now: "@ + failure.spec_text(),
                if failure is Dispatch {
                    "reconciliation_pair_not_found"@
                } else {
                    "reconciliation_now_failed"@
                },
            ),
        },
{
    match outcome {
        Ok(_) => ClientResponse::ReconcileNow { reconcile_now: true, pair },
        Err(failure) => {
            let message = concat2("reconcile_pair_now: ", failure.as_str());
            let subclass = match failure {
                StewardFailure::Dispatch { .. } => "reconciliation_pair_not_found",
                _ => "reconciliation_now_failed",
            };
            ClientResponse::Error {
                error: refusal(failure.classify(), message.as_str(), subclass),
            }
        },
    }
}

}
