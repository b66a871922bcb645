//! The custody ledger's records, their form on the wire, and the answers of the
//! custody operations.

use crate::claimant::{all_names, learns, lemma_learns_list, lemma_learns_no_list, token_of};
use crate::claimant::{ClaimantToken, ClaimantTokenIssuer};
use crate::codec::{base64_decoded, base64_text, decode, decodes_to, encodable, encode};
use crate::errors::{failure_error, is_error, refusal, reports_failure, ApiError, ErrorClass};
use crate::errors::StewardFailure;
use crate::happenings::HealthStatus;
use crate::requests::CustodyHandle;
use crate::responses::ClientResponse;
use crate::text::concat3;
use crate::time::{ms_of, system_time_to_ms};
use std::time::SystemTime;
use vstd::prelude::*;

verus! {

/// The lifecycle state of a custody.
#[derive(Debug)]
pub enum CustodyStateKind {
    Active,
    Degraded { reason: String },
    Aborted { reason: String },
}

/// The latest state that a warden has reported.
#[derive(Debug)]
pub struct StateSnapshot {
    pub payload: Vec<u8>,
    pub health: HealthStatus,
    pub reported_at: SystemTime,
}

/// A custody in the ledger.
#[derive(Debug)]
pub struct CustodyRecord {
    pub plugin: String,
    pub handle_id: String,
    pub shelf: Option<String>,
    pub custody_type: Option<String>,
    pub last_state: Option<StateSnapshot>,
    pub state: CustodyStateKind,
    pub started_at: SystemTime,
    pub last_updated: SystemTime,
}

/// The wire form of a state report: the payload in base64, the time in
/// milliseconds since the UNIX epoch.
#[derive(Debug)]
pub struct StateSnapshotWire {
    pub payload_b64: String,
    pub health: HealthStatus,
    pub reported_at_ms: u64,
}

/// The wire form of a custody: the warden as an opaque token, times in
/// milliseconds since the UNIX epoch.
#[derive(Debug)]
pub struct CustodyRecordWire {
    pub claimant_token: ClaimantToken,
    pub handle_id: String,
    pub shelf: Option<String>,
    pub custody_type: Option<String>,
    pub last_state: Option<StateSnapshotWire>,
    pub state: CustodyStateKind,
    pub started_at_ms: u64,
    pub last_updated_ms: u64,
}

impl StateSnapshotWire {
    /// The wire form of the report.
    pub open spec fn shows(self, s: StateSnapshot) -> bool {
        &&& self.payload_b64@ == base64_text(s.payload@)
        &&& self.health == s.health
        &&& self.reported_at_ms == ms_of(s.reported_at)
    }

    /// Converts a report.
    pub fn from_snapshot(s: StateSnapshot) -> (r: StateSnapshotWire)
        requires
            encodable(s.payload@.len()),
        ensures
            r.shows(s),
    {
        StateSnapshotWire {
            payload_b64: encode(s.payload.as_slice()),
            health: s.health,
            reported_at_ms: system_time_to_ms(s.reported_at),
        }
    }
}

impl CustodyRecord {
    /// The payload of the latest report can be encoded.
    pub open spec fn fits(self) -> bool {
        self.last_state matches Some(s) ==> encodable(s.payload@.len())
    }
}

impl CustodyRecordWire {
    /// The wire form of the record.
    pub open spec fn shows(self, record: CustodyRecord, steward: Seq<char>) -> bool {
        &&& self.claimant_token == token_of(steward, record.plugin@)
        &&& self.handle_id == record.handle_id
        &&& self.shelf == record.shelf
        &&& self.custody_type == record.custody_type
        &&& match (self.last_state, record.last_state) {
            (Some(w), Some(s)) => w.shows(s),
            (None, None) => true,
            _ => false,
        }
        &&& self.state == record.state
        &&& self.started_at_ms == ms_of(record.started_at)
        &&& self.last_updated_ms == ms_of(record.last_updated)
    }

    /// Converts a record.
    pub fn from_record(record: CustodyRecord, issuer: &mut ClaimantTokenIssuer) -> (r:
        CustodyRecordWire)
        requires
            record.fits(),
        ensures
            r.shows(record, old(issuer).instance_id@),
            final(issuer).instance_id == old(issuer).instance_id,
            learns(*old(issuer), *final(issuer), seq![record.plugin@].to_set()),
    {
        let last_state = match record.last_state {
            Some(s) => Some(StateSnapshotWire::from_snapshot(s)),
            None => None,
        };
        CustodyRecordWire {
            claimant_token: issuer.token_for(record.plugin.as_str()),
            handle_id: record.handle_id,
            shelf: record.shelf,
            custody_type: record.custody_type,
            last_state,
            state: record.state,
            started_at_ms: system_time_to_ms(record.started_at),
            last_updated_ms: system_time_to_ms(record.last_updated),
        }
    }
}

/// The plugins that hold some custodies.
pub open spec fn holders(records: Seq<CustodyRecord>) -> Seq<Seq<Seq<char>>> {
    records.map_values(|r: CustodyRecord| seq![r.plugin@])
}

/// The answer of `list_active_custodies`: every record of the ledger, in the
/// order in which they come.
pub fn handle_list_active_custodies(
    records: Vec<CustodyRecord>,
    issuer: &mut ClaimantTokenIssuer,
) -> (r: ClientResponse)
    requires
        forall|i: int| 0 <= i < records@.len() ==> (#[trigger] records@[i]).fits(),
    ensures
        r matches ClientResponse::ActiveCustodies { active_custodies } && active_custodies@.len()
            == records@.len() && forall|i: int|
            0 <= i < records@.len() ==> (#[trigger] active_custodies@[i]).shows(
                records@[i],
                old(issuer).instance_id@,
            ),
        final(issuer).instance_id == old(issuer).instance_id,
        learns(*old(issuer), *final(issuer), all_names(holders(records@))),
{
    let ghost before = *issuer;
    let ghost all = records@;
    let mut active_custodies: Vec<CustodyRecordWire> = Vec::new();
    proof {
        lemma_learns_no_list(before);
        assert(holders(all).take(0) =~= Seq::empty());
    }
    for record in it: records
        invariant
            it.seq() == all,
            forall|i: int| 0 <= i < all.len() ==> (#[trigger] all[i]).fits(),
            issuer.instance_id == before.instance_id,
            learns(before, *issuer, all_names(holders(all).take(it.index() as int))),
            active_custodies@.len() == it.index(),
            forall|i: int|
                0 <= i < active_custodies@.len() ==> (#[trigger] active_custodies@[i]).shows(
                    all[i],
                    before.instance_id@,
                ),
    {
        let ghost k = it.index() as int;
        let ghost between = *issuer;
        assert(record == all[k]);
        active_custodies.push(CustodyRecordWire::from_record(record, issuer));
        proof {
            lemma_learns_list(
                before,
                between,
                *issuer,
                holders(all).take(k),
                seq![all[k].plugin@],
            );
            assert(holders(all).take(k + 1) =~= holders(all).take(k).push(seq![all[k].plugin@]));
        }
    }
    assert(holders(all).take(all.len() as int) =~= holders(all));
    ClientResponse::ActiveCustodies { active_custodies }
}

/// The bytes of a request's payload are refused for what the decoder says.
pub open spec fn refuses_payload(e: ApiError, prefix: Seq<char>, payload_b64: Seq<char>) -> bool {
    base64_decoded(payload_b64) matches Err(why) && is_error(
        e,
        ErrorClass::ContractViolation,
        prefix + "invalid base64 payload: "@ + why,
        "invalid_base64"@,
    )
}

/// The bytes of a request's payload.
pub fn decode_payload(prefix: &str, payload_b64: &str) -> (r: Result<Vec<u8>, ApiError>)
    ensures
        match r {
            Ok(bytes) => decodes_to(payload_b64@, bytes@),
            Err(e) => refuses_payload(e, prefix@, payload_b64@),
        },
{
    match decode(payload_b64) {
        Ok(bytes) => Ok(bytes),
        Err(why) => {
            let message = concat3(prefix, "invalid base64 payload: ", why.as_str());
            Err(refusal(ErrorClass::ContractViolation, message.as_str(), "invalid_base64"))
        },
    }
}

/// The answer of `take_custody`.
pub fn take_custody_reply(shelf: String, outcome: Result<CustodyHandle, StewardFailure>) -> (r:
    ClientResponse)
    ensures
        match outcome {
            Ok(handle) => r == (ClientResponse::CustodyTaken { custody: true, shelf, handle }),
            Err(failure) => r matches ClientResponse::Error { error } && reports_failure(
                error,
                failure,
            ),
        },
{
    match outcome {
        Ok(handle) => ClientResponse::CustodyTaken { custody: true, shelf, handle },
        Err(failure) => ClientResponse::Error { error: failure_error(failure) },
    }
}

/// The answer of `course_correct`.
pub fn course_correct_reply(
    shelf: String,
    handle_id: String,
    outcome: Result<(), StewardFailure>,
) -> (r: ClientResponse)
    ensures
        match outcome {
            Ok(_) => r == (ClientResponse::CustodyCourseCorrected {
                course_corrected: true,
                shelf,
                handle_id,
            }),
            Err(failure) => r matches ClientResponse::Error { error } && reports_failure(
                error,
                failure,
            ),
        },
{
    match outcome {
        Ok(_) => ClientResponse::CustodyCourseCorrected {
            course_corrected: true,
            shelf,
            handle_id,
        },
        Err(failure) => ClientResponse::Error { error: failure_error(failure) },
    }
}

/// The answer of `release_custody`.
pub fn release_custody_reply(
    shelf: String,
    handle_id: String,
    outcome: Result<(), StewardFailure>,
) -> (r: ClientResponse)
    ensures
        match outcome {
            Ok(_) => r == (ClientResponse::CustodyReleased { released: true, shelf, handle_id }),
            Err(failure) => r matches ClientResponse::Error { error } && reports_failure(
                error,
                failure,
            ),
        },
{
    match outcome {
        Ok(_) => ClientResponse::CustodyReleased { released: true, shelf, handle_id },
        Err(failure) => ClientResponse::Error { error: failure_error(failure) },
    }
}

}
