//! The answers of the appointment and watch operations.

use crate::errors::{is_error, refusal, ErrorClass};
use crate::requests::{AppointmentSpec, WatchSpec};
use crate::responses::{AppointmentEntryWire, ClientResponse, WatchEntryWire};
use crate::text::concat2;
use serde_json::Value;
use vstd::prelude::*;

verus! {

/// Where an appointment stands.
#[derive(Debug, Clone, Copy, PartialEq, Eq, Structural)]
pub enum AppointmentState {
    Pending,
    Approaching,
    Firing,
    Fired,
    Cancelled,
}

impl AppointmentState {
    /// The state on the wire.
    pub open spec fn text(self) -> Seq<char> {
        match self {
            AppointmentState::Pending => "pending"@,
            AppointmentState::Approaching => "pending"@,
            AppointmentState::Firing => "pending"@,
            AppointmentState::Fired => "terminal"@,
            AppointmentState::Cancelled => "cancelled"@,
        }
    }

    /// The appointment fires no more.
    pub open spec fn over(self) -> bool {
        self is Fired || self is Cancelled
    }
}

/// An appointment as the runtime holds it; the next fire as wall-clock time.
#[derive(Debug)]
pub struct AppointmentEntry {
    pub creator: String,
    pub spec: AppointmentSpec,
    pub action: Value,
    pub state: AppointmentState,
    pub next_fire_ms: Option<u64>,
    pub fires_completed: u32,
    pub last_fired_at_ms: Option<u64>,
}

/// The wire form of an appointment.
pub open spec fn shows_appointment(w: AppointmentEntryWire, e: AppointmentEntry) -> bool {
    &&& w.creator == e.creator
    &&& w.spec == e.spec
    &&& w.action == e.action
    &&& w.state@ == e.state.text()
    &&& w.next_fire_ms == (if e.state.over() {
        None
    } else {
        e.next_fire_ms
    })
    &&& w.fires_completed == e.fires_completed
    &&& w.last_fired_ms == e.last_fired_at_ms
}

/// Converts an appointment.
pub fn project_appointment_entry(entry: AppointmentEntry) -> (r: AppointmentEntryWire)
    ensures
        shows_appointment(r, entry),
{
    let (state, next_fire_ms): (&'static str, Option<u64>) = match entry.state {
        AppointmentState::Pending => ("pending", entry.next_fire_ms),
        AppointmentState::Approaching => ("pending", entry.next_fire_ms),
        AppointmentState::Firing => ("pending", entry.next_fire_ms),
        AppointmentState::Fired => ("terminal", None),
        AppointmentState::Cancelled => ("cancelled", None),
    };
    AppointmentEntryWire {
        creator: entry.creator,
        spec: entry.spec,
        action: entry.action,
        state,
        next_fire_ms,
        fires_completed: entry.fires_completed as u64,
        last_fired_ms: entry.last_fired_at_ms,
    }
}

/// Why an appointment is not scheduled.
#[derive(Debug)]
pub enum AppointmentRuntimeError {
    /// The recurrence makes no sense.
    Recurrence(String),
    /// There is no room for it.
    Schedule(String),
}

/// The answer of `create_appointment`; a success carries the next fire.
pub fn create_appointment_reply(
    creator: String,
    appointment_id: String,
    outcome: Result<Option<u64>, AppointmentRuntimeError>,
) -> (r: ClientResponse)
    ensures
        match outcome {
            Ok(next_fire_ms) => r == (ClientResponse::AppointmentCreated {
                appointment_created: true,
                creator,
                appointment_id,
                next_fire_ms,
            }),
            Err(AppointmentRuntimeError::Recurrence(why)) => {
                r matches ClientResponse::Error { error } && is_error(
                    error,
                    ErrorClass::ContractViolation,
                    "create_appointment: "@ + why@,
                    "bad_recurrence"@,
                )
            },
            Err(AppointmentRuntimeError::Schedule(why)) => {
                r matches ClientResponse::Error { error } && is_error(
                    error,
                    ErrorClass::ResourceExhausted,
                    "create_appointment: "@ + why@,
                    "quota_exceeded"@,
                )
            },
        },
{
    match outcome {
        Ok(next_fire_ms) => ClientResponse::AppointmentCreated {
            appointment_created: true,
            creator,
            appointment_id,
            next_fire_ms,
        },
        Err(AppointmentRuntimeError::Recurrence(why)) => {
            let message = concat2("create_appointment: ", why.as_str());
            ClientResponse::Error {
                error: refusal(ErrorClass::ContractViolation, message.as_str(), "bad_recurrence"),
            }
        },
        Err(AppointmentRuntimeError::Schedule(why)) => {
            let message = concat2("create_appointment: ", why.as_str());
            ClientResponse::Error {
                error: refusal(ErrorClass::ResourceExhausted, message.as_str(), "quota_exceeded"),
            }
        },
    }
}

/// The answer of `cancel_appointment`; to cancel what is not there is no error.
pub fn cancel_appointment_reply(creator: String, appointment_id: String, cancelled: bool) -> (r:
    ClientResponse)
    ensures
        r == (ClientResponse::AppointmentCancelled {
            appointment_cancelled: true,
            creator,
            appointment_id,
            cancelled,
        }),
{
    ClientResponse::AppointmentCancelled {
        appointment_cancelled: true,
        creator,
        appointment_id,
        cancelled,
    }
}

/// The answer of `list_appointments`.
pub fn list_appointments_reply(entries: Vec<AppointmentEntry>) -> (r: ClientResponse)
    ensures
        r matches ClientResponse::Appointments { appointments, entries: shown } && appointments
            && shown@.len() == entries@.len() && forall|i: int|
            0 <= i < entries@.len() ==> shows_appointment(#[trigger] shown@[i], entries@[i]),
{
    let ghost all = entries@;
    let mut shown: Vec<AppointmentEntryWire> = Vec::new();
    for e in it: entries
        invariant
            it.seq() == all,
            shown@.len() == it.index(),
            forall|i: int|
                0 <= i < shown@.len() ==> shows_appointment(#[trigger] shown@[i], all[i]),
    {
        assert(e == all[it.index() as int]);
        shown.push(project_appointment_entry(e));
    }
    ClientResponse::Appointments { appointments: true, entries: shown }
}

/// The answer of `project_appointment`; an unknown appointment is no error.
pub fn project_appointment_reply(
    creator: String,
    appointment_id: String,
    found: Option<AppointmentEntry>,
) -> (r: ClientResponse)
    ensures
        ({
            &&& r matches ClientResponse::AppointmentProjection {
                appointment_projection,
                creator: c,
                appointment_id: a,
                entry,
            }
            &&& appointment_projection
            &&& c == creator
            &&& a == appointment_id
            &&& match (entry, found) {
                (Some(w), Some(e)) => shows_appointment(w, e),
                (None, None) => true,
                _ => false,
            }
        }),
{
    let entry = match found {
        Some(e) => Some(project_appointment_entry(e)),
        None => None,
    };
    ClientResponse::AppointmentProjection {
        appointment_projection: true,
        creator,
        appointment_id,
        entry,
    }
}

/// Where a watch stands.
#[derive(Debug, Clone, Copy, PartialEq, Eq, Structural)]
pub enum WatchState {
    Pending,
    Matched,
    Fired,
    Cancelled,
}

impl WatchState {
    /// The state on the wire.
    pub open spec fn text(self) -> Seq<char> {
        match self {
            WatchState::Pending => "pending"@,
            WatchState::Matched => "matched"@,
            WatchState::Fired => "fired"@,
            WatchState::Cancelled => "cancelled"@,
        }
    }
}

/// A watch as the runtime holds it.
#[derive(Debug)]
pub struct WatchEntry {
    pub creator: String,
    pub spec: WatchSpec,
    pub action: Value,
    pub state: WatchState,
    pub fires_completed: u32,
    pub last_fired_at_ms: Option<u64>,
}

/// The wire form of a watch.
pub open spec fn shows_watch(w: WatchEntryWire, e: WatchEntry) -> bool {
    &&& w.creator == e.creator
    &&& w.spec == e.spec
    &&& w.action == e.action
    &&& w.state@ == e.state.text()
    &&& w.fires_completed == e.fires_completed
    &&& w.last_fired_ms == e.last_fired_at_ms
}

/// Converts a watch.
pub fn project_watch_entry(entry: WatchEntry) -> (r: WatchEntryWire)
    ensures
        shows_watch(r, entry),
{
    let state: &'static str = match entry.state {
        WatchState::Pending => "pending",
        WatchState::Matched => "matched",
        WatchState::Fired => "fired",
        WatchState::Cancelled => "cancelled",
    };
    WatchEntryWire {
        creator: entry.creator,
        spec: entry.spec,
        action: entry.action,
        state,
        fires_completed: entry.fires_completed as u64,
        last_fired_ms: entry.last_fired_at_ms,
    }
}

/// Why a watch is not scheduled.
#[derive(Debug)]
pub enum WatchScheduleError {
    /// There is no room for it.
    QuotaExceeded,
    /// The specification makes no sense.
    Invalid(String),
}

/// The answer of `create_watch`.
pub fn create_watch_reply(
    creator: String,
    watch_id: String,
    outcome: Result<(), WatchScheduleError>,
) -> (r: ClientResponse)
    ensures
        match outcome {
            Ok(_) => r == (ClientResponse::WatchCreated { watch_created: true, creator, watch_id }),
            Err(WatchScheduleError::QuotaExceeded) => {
                r matches ClientResponse::Error { error } && is_error(
                    error,
                    ErrorClass::ResourceExhausted,
                    "create_watch: watch quota exceeded"@,
                    "quota_exceeded"@,
                )
            },
            Err(WatchScheduleError::Invalid(why)) => {
                r matches ClientResponse::Error { error } && is_error(
                    error,
                    ErrorClass::ContractViolation,
                    "create_watch: "@ + why@,
                    "bad_spec"@,
                )
            },
        },
{
    match outcome {
        Ok(_) => ClientResponse::WatchCreated { watch_created: true, creator, watch_id },
        Err(WatchScheduleError::QuotaExceeded) => ClientResponse::Error {
            error: refusal(
                ErrorClass::ResourceExhausted,
                "create_watch: watch quota exceeded",
                "quota_exceeded",
            ),
        },
        Err(WatchScheduleError::Invalid(why)) => {
            let message = concat2("create_watch: ", why.as_str());
            ClientResponse::Error {
                error: refusal(ErrorClass::ContractViolation, message.as_str(), "bad_spec"),
            }
        },
    }
}

/// The answer of `cancel_watch`; to cancel what is not there is no error.
pub fn cancel_watch_reply(creator: String, watch_id: String, cancelled: bool) -> (r: ClientResponse)
    ensures
        r == (ClientResponse::WatchCancelled {
            watch_cancelled: true,
            creator,
            watch_id,
            cancelled,
        }),
{
    ClientResponse::WatchCancelled { watch_cancelled: true, creator, watch_id, cancelled }
}

/// The answer of `list_watches`.
pub fn list_watches_reply(entries: Vec<WatchEntry>) -> (r: ClientResponse)
    ensures
        r matches ClientResponse::Watches { watches, entries: shown } && watches && shown@.len()
            == entries@.len() && forall|i: int|
            0 <= i < entries@.len() ==> shows_watch(#[trigger] shown@[i], entries@[i]),
{
    let ghost all = entries@;
    let mut shown: Vec<WatchEntryWire> = Vec::new();
    for e in it: entries
        invariant
            it.seq() == all,
            shown@.len() == it.index(),
            forall|i: int| 0 <= i < shown@.len() ==> shows_watch(#[trigger] shown@[i], all[i]),
    {
        assert(e == all[it.index() as int]);
        shown.push(project_watch_entry(e));
    }
    ClientResponse::Watches { watches: true, entries: shown }
}

/// The answer of `project_watch`; an unknown watch is no error.
pub fn project_watch_reply(creator: String, watch_id: String, found: Option<WatchEntry>) -> (r:
    ClientResponse)
    ensures
        ({
            &&& r matches ClientResponse::WatchProjection {
                watch_projection,
                creator: c,
                watch_id: w,
                entry,
            }
            &&& watch_projection
            &&& c == creator
            &&& w == watch_id
            &&& match (entry, found) {
                (Some(shown), Some(e)) => shows_watch(shown, e),
                (None, None) => true,
                _ => false,
            }
        }),
{
    let entry = match found {
        Some(e) => Some(project_watch_entry(e)),
        None => None,
    };
    ClientResponse::WatchProjection { watch_projection: true, creator, watch_id, entry }
}

}
