//! Dispatching requests: what is refused, what is answered at once, and what is
//! performed.

use crate::access::{grants, is_not_configured, is_not_granted, law_grants, negotiate, permitted};
use crate::access::texts;
use crate::access::{require_appointments_admin, require_grammar_admin, require_plugins_admin};
use crate::access::{require_reconciliation, require_reconciliation_admin};
use crate::access::{require_user_interaction_responder, require_watches_admin};
use crate::access::{ClientAcl, ConnectionState, ResponderLock, StewardIdentity};
use crate::capabilities::{describe_capabilities, features, labelled, shown, StaticLabels};
use crate::capabilities::CLIENT_WIRE_VERSION;
use crate::catalogue::{CatalogueSource, TimeTrust};
use crate::claimant::ClaimantTokenIssuer;
use crate::codec::base64_decoded;
use crate::custody::{decode_payload, refuses_payload};
use crate::errors::{is_error, refusal, ApiError, ErrorClass};
use crate::grammar::{migrate_request, MigrateRequest};
use crate::happenings::kinds;
use crate::interactions::{PromptCanceller, PromptOutcome};
use crate::plugin_requests::{prepare_plugin_request, CorrelationIds, PluginRequest};
use crate::projections::{scope_of, ProjectionScope};
use crate::requests::{client_request_op_tag, supported, AppointmentSpec, ClientRequest};
use crate::requests::{CustodyHandle, ManifestSource, WatchSpec};
use crate::resolution::{handle_resolve_claimants, resolutions_of, ResolutionLedger};
use crate::resolution::ResolutionLogEntry;
use crate::responses::ClientResponse;
use serde_json::Value;
use std::time::SystemTime;
use vstd::prelude::*;

verus! {

/// What stands in front of an operation.
#[derive(Debug, Clone, Copy, PartialEq, Eq, Structural)]
pub enum Guard {
    /// Nothing.
    Open,
    /// `plugins_admin`, and an admission engine.
    Plugins,
    /// A reconciliation coordinator.
    Pairs,
    /// `reconciliation_admin`, and a reconciliation coordinator.
    PairsAdmin,
    /// `user_interaction_responder`, and a prompt ledger.
    Responder,
    /// `appointments_admin`, and an appointments runtime.
    Appointments,
    /// `watches_admin`, and a watches runtime.
    Watches,
    /// `grammar_admin`.
    Grammar,
}

/// The guard of a request.
pub open spec fn guard_of(req: ClientRequest) -> Guard {
    match req {
        ClientRequest::EnablePlugin { .. } => Guard::Plugins,
        ClientRequest::DisablePlugin { .. } => Guard::Plugins,
        ClientRequest::UninstallPlugin { .. } => Guard::Plugins,
        ClientRequest::PurgePluginState { .. } => Guard::Plugins,
        ClientRequest::ReloadCatalogue { .. } => Guard::Plugins,
        ClientRequest::ReloadManifest { .. } => Guard::Plugins,
        ClientRequest::ReloadPlugin { .. } => Guard::Plugins,
        ClientRequest::ListReconciliationPairs => Guard::Pairs,
        ClientRequest::ProjectReconciliationPair { .. } => Guard::Pairs,
        ClientRequest::ReconcilePairNow { .. } => Guard::PairsAdmin,
        ClientRequest::ListUserInteractions => Guard::Responder,
        ClientRequest::AnswerUserInteraction { .. } => Guard::Responder,
        ClientRequest::CancelUserInteraction { .. } => Guard::Responder,
        ClientRequest::CreateAppointment { .. } => Guard::Appointments,
        ClientRequest::CancelAppointment { .. } => Guard::Appointments,
        ClientRequest::ListAppointments => Guard::Appointments,
        ClientRequest::ProjectAppointment { .. } => Guard::Appointments,
        ClientRequest::CreateWatch { .. } => Guard::Watches,
        ClientRequest::CancelWatch { .. } => Guard::Watches,
        ClientRequest::ListWatches => Guard::Watches,
        ClientRequest::ProjectWatch { .. } => Guard::Watches,
        ClientRequest::ListGrammarOrphans => Guard::Grammar,
        ClientRequest::AcceptGrammarOrphans { .. } => Guard::Grammar,
        ClientRequest::MigrateGrammarOrphans { .. } => Guard::Grammar,
        _ => Guard::Open,
    }
}

/// The guard of a request.
pub fn guard(req: &ClientRequest) -> (r: Guard)
    ensures
        r == guard_of(*req),
{
    match req {
        ClientRequest::EnablePlugin { .. } => Guard::Plugins,
        ClientRequest::DisablePlugin { .. } => Guard::Plugins,
        ClientRequest::UninstallPlugin { .. } => Guard::Plugins,
        ClientRequest::PurgePluginState { .. } => Guard::Plugins,
        ClientRequest::ReloadCatalogue { .. } => Guard::Plugins,
        ClientRequest::ReloadManifest { .. } => Guard::Plugins,
        ClientRequest::ReloadPlugin { .. } => Guard::Plugins,
        ClientRequest::ListReconciliationPairs => Guard::Pairs,
        ClientRequest::ProjectReconciliationPair { .. } => Guard::Pairs,
        ClientRequest::ReconcilePairNow { .. } => Guard::PairsAdmin,
        ClientRequest::ListUserInteractions => Guard::Responder,
        ClientRequest::AnswerUserInteraction { .. } => Guard::Responder,
        ClientRequest::CancelUserInteraction { .. } => Guard::Responder,
        ClientRequest::CreateAppointment { .. } => Guard::Appointments,
        ClientRequest::CancelAppointment { .. } => Guard::Appointments,
        ClientRequest::ListAppointments => Guard::Appointments,
        ClientRequest::ProjectAppointment { .. } => Guard::Appointments,
        ClientRequest::CreateWatch { .. } => Guard::Watches,
        ClientRequest::CancelWatch { .. } => Guard::Watches,
        ClientRequest::ListWatches => Guard::Watches,
        ClientRequest::ProjectWatch { .. } => Guard::Watches,
        ClientRequest::ListGrammarOrphans => Guard::Grammar,
        ClientRequest::AcceptGrammarOrphans { .. } => Guard::Grammar,
        ClientRequest::MigrateGrammarOrphans { .. } => Guard::Grammar,
        _ => Guard::Open,
    }
}

/// The subsystems that the server was given.
#[derive(Debug, Clone, Copy, PartialEq, Eq, Structural)]
pub struct Wiring {
    pub engine: bool,
    pub reconciliation: bool,
    pub prompts: bool,
    pub appointments: bool,
    pub watches: bool,
}

impl Guard {
    /// The capability that the guard asks for.
    pub open spec fn capability(self) -> Option<Seq<char>> {
        match self {
            Guard::Open => None,
            Guard::Plugins => Some("plugins_admin"@),
            Guard::Pairs => None,
            Guard::PairsAdmin => Some("reconciliation_admin"@),
            Guard::Responder => Some("user_interaction_responder"@),
            Guard::Appointments => Some("appointments_admin"@),
            Guard::Watches => Some("watches_admin"@),
            Guard::Grammar => Some("grammar_admin"@),
        }
    }

    /// The connection has what the guard asks for.
    pub open spec fn granted(self, conn: ConnectionState) -> bool {
        self.capability() matches Some(name) ==> conn.holds(name)
    }

    /// The server has what the guard asks for.
    pub open spec fn wired(self, wiring: Wiring) -> bool {
        match self {
            Guard::Open => true,
            Guard::Plugins => wiring.engine,
            Guard::Pairs => wiring.reconciliation,
            Guard::PairsAdmin => wiring.reconciliation,
            Guard::Responder => wiring.prompts,
            Guard::Appointments => wiring.appointments,
            Guard::Watches => wiring.watches,
            Guard::Grammar => true,
        }
    }

    /// The guard lets a request of the connection through.
    pub open spec fn opens(self, conn: ConnectionState, wiring: Wiring) -> bool {
        self.granted(conn) && self.wired(wiring)
    }

    /// The subclass of the refusal for a missing capability.
    pub open spec fn denied_subclass(self) -> Seq<char> {
        match self {
            Guard::Plugins => "plugins_admin_not_granted"@,
            Guard::PairsAdmin => "reconciliation_admin_not_granted"@,
            Guard::Responder => "user_interaction_responder_not_granted"@,
            Guard::Appointments => "appointments_admin_not_granted"@,
            Guard::Watches => "watches_admin_not_granted"@,
            _ => "grammar_admin_not_granted"@,
        }
    }

    /// What the refusal for a missing subsystem says is missing, and its
    /// subclass.
    pub open spec fn absence(self) -> (Seq<char>, Seq<char>) {
        match self {
            Guard::Plugins => (
                "an admission engine handle; plugin lifecycle ops are unavailable"@,
                "admission_engine_not_configured"@,
            ),
            Guard::Pairs => (
                "a reconciliation coordinator handle; reconciliation ops are unavailable"@,
                "reconciliation_not_configured"@,
            ),
            Guard::PairsAdmin => (
                "a reconciliation coordinator handle; reconciliation admin ops are unavailable"@,
                "reconciliation_not_configured"@,
            ),
            Guard::Responder => (
                "a prompt ledger; user-interaction routing is unavailable"@,
                "prompt_ledger_not_configured"@,
            ),
            Guard::Appointments => (
                "an appointments runtime; appointment-admin ops are unavailable"@,
                "appointments_not_configured"@,
            ),
            _ => (
                "a watches runtime; watch-admin ops are unavailable"@,
                "watches_not_configured"@,
            ),
        }
    }

    /// The refusal of a request at the guard: a missing capability is reported
    /// before a missing subsystem.
    pub open spec fn refuses(self, e: ApiError, op: Seq<char>, conn: ConnectionState) -> bool {
        if !self.granted(conn) {
            is_not_granted(e, op, self.capability()->0, self.denied_subclass())
        } else {
            is_not_configured(e, op, self.absence().0, self.absence().1)
        }
    }
}

fn marker(there: bool) -> (r: Option<&'static ()>)
    ensures
        r is Some == there,
{
    if there {
        Some(&())
    } else {
        None
    }
}

/// Lets a request through its guard, or says why not.
pub fn pass_guard(guard: Guard, wiring: Wiring, conn: &ConnectionState, op: &str) -> (r: Result<
    (),
    ApiError,
>)
    ensures
        match r {
            Ok(_) => guard.opens(*conn, wiring),
            Err(e) => !guard.opens(*conn, wiring) && guard.refuses(e, op@, *conn),
        },
{
    match guard {
        Guard::Open => Ok(()),
        Guard::Plugins => match require_plugins_admin(marker(wiring.engine), conn, op) {
            Ok(_) => Ok(()),
            Err(e) => Err(e),
        },
        Guard::Pairs => match require_reconciliation(marker(wiring.reconciliation), op) {
            Ok(_) => Ok(()),
            Err(e) => Err(e),
        },
        Guard::PairsAdmin => match require_reconciliation_admin(
            marker(wiring.reconciliation),
            conn,
            op,
        ) {
            Ok(_) => Ok(()),
            Err(e) => Err(e),
        },
        Guard::Responder => match require_user_interaction_responder(
            marker(wiring.prompts),
            conn,
            op,
        ) {
            Ok(_) => Ok(()),
            Err(e) => Err(e),
        },
        Guard::Appointments => match require_appointments_admin(
            marker(wiring.appointments),
            conn,
            op,
        ) {
            Ok(_) => Ok(()),
            Err(e) => Err(e),
        },
        Guard::Watches => match require_watches_admin(marker(wiring.watches), conn, op) {
            Ok(_) => Ok(()),
            Err(e) => Err(e),
        },
        Guard::Grammar => require_grammar_admin(conn, op),
    }
}

/// What the server performs for a request, with the arguments of the call.
#[derive(Debug)]
pub enum Operation {
    /// Hand a request to the plugin on a shelf.
    PluginRequest {
        shelf: String,
        request: PluginRequest,
    },
    /// Look up a subject, then project it.
    ProjectSubject {
        canonical_id: String,
        scope: ProjectionScope,
        follow_aliases: bool,
    },
    /// Look up the alias records of a subject.
    DescribeAlias {
        subject_id: String,
        include_chain: bool,
    },
    /// Reload the catalogue.
    ReloadCatalogue {
        source: ManifestSource,
        dry_run: bool,
    },
    /// Reload the manifest of a plugin.
    ReloadManifest {
        plugin: String,
        source: ManifestSource,
        dry_run: bool,
    },
    /// Take custody through a warden.
    TakeCustody {
        shelf: String,
        custody_type: String,
        payload: Vec<u8>,
    },
    /// Correct the course of an open custody.
    CourseCorrect {
        shelf: String,
        handle: CustodyHandle,
        correction_type: String,
        payload: Vec<u8>,
    },
    /// End an open prompt.
    CompletePrompt {
        plugin: String,
        prompt_id: String,
        outcome: PromptOutcome,
    },
    /// Migrate the subjects of an orphaned type.
    MigrateGrammarOrphans {
        request: MigrateRequest,
    },
    /// Snapshot the catalogue and the router, for [`crate::inventory::handle_project_rack`].
    ProjectRack {
        rack: String,
    },
    /// Snapshot the router, for [`crate::inventory::handle_list_plugins`].
    ListPlugins,
    /// Snapshot the ledger, for [`crate::custody::handle_list_active_custodies`].
    ListActiveCustodies,
    /// Snapshot the subjects, for [`crate::listings::handle_list_subjects`].
    ListSubjects {
        cursor: Option<String>,
        page_size: Option<usize>,
    },
    /// Snapshot the relations, for [`crate::listings::handle_list_relations`].
    ListRelations {
        cursor: Option<String>,
        page_size: Option<usize>,
    },
    /// Snapshot the addressings, for [`crate::listings::handle_enumerate_addressings`].
    EnumerateAddressings {
        cursor: Option<String>,
        page_size: Option<usize>,
    },
    /// Enable a plugin.
    EnablePlugin {
        plugin: String,
        reason: Option<String>,
    },
    /// Disable a plugin.
    DisablePlugin {
        plugin: String,
        reason: Option<String>,
    },
    /// Uninstall a plugin; `purge_state` also wipes its state.
    UninstallPlugin {
        plugin: String,
        reason: Option<String>,
        purge_state: bool,
    },
    /// Wipe the state of a plugin.
    PurgePluginState {
        plugin: String,
    },
    /// Reload a plugin.
    ReloadPlugin {
        plugin: String,
    },
    /// Release an open custody.
    ReleaseCustody {
        shelf: String,
        handle: CustodyHandle,
    },
    /// List the active reconciliation pairs.
    ListReconciliationPairs,
    /// Show the applied state of one pair.
    ProjectReconciliationPair {
        pair: String,
    },
    /// Run one reconciliation cycle of a pair now.
    ReconcilePairNow {
        pair: String,
    },
    /// List the open prompts.
    ListUserInteractions,
    /// Schedule an appointment.
    CreateAppointment {
        creator: String,
        spec: AppointmentSpec,
        action: Value,
    },
    /// Cancel an appointment.
    CancelAppointment {
        creator: String,
        appointment_id: String,
    },
    /// List the appointments.
    ListAppointments,
    /// Show one appointment.
    ProjectAppointment {
        creator: String,
        appointment_id: String,
    },
    /// Schedule a watch.
    CreateWatch {
        creator: String,
        spec: WatchSpec,
        action: Value,
    },
    /// Cancel a watch.
    CancelWatch {
        creator: String,
        watch_id: String,
    },
    /// List the watches.
    ListWatches,
    /// Show one watch.
    ProjectWatch {
        creator: String,
        watch_id: String,
    },
    /// List the orphaned subject types.
    ListGrammarOrphans,
    /// Accept an orphaned subject type.
    AcceptGrammarOrphans {
        from_type: String,
        reason: String,
    },
}

/// What becomes of a request.
#[derive(Debug)]
pub enum Plan {
    /// This is the answer.
    Reply(ClientResponse),
    /// The operation is performed, and its outcome makes the answer.
    Perform(Operation),
}

/// What dispatching reads and keeps across requests.
pub struct Desk {
    pub acl: ClientAcl,
    pub steward_identity: StewardIdentity,
    /// The lock of the prompt ledger, if the server has one.
    pub responder: Option<ResponderLock>,
    pub resolution_ledger: ResolutionLedger,
    pub correlation: CorrelationIds,
    pub catalogue_source: CatalogueSource,
    pub clock_trust: TimeTrust,
    pub has_battery_rtc: bool,
    pub labels: Vec<StaticLabels>,
}

/// The payload of a request: its bytes, or the refusal.
pub open spec fn payload_plan(
    plan: Plan,
    prefix: Seq<char>,
    payload_b64: Seq<char>,
    performs: spec_fn(Seq<u8>, Plan) -> bool,
) -> bool {
    match base64_decoded(payload_b64) {
        Ok(bytes) => performs(bytes, plan),
        Err(_) => plan matches Plan::Reply(ClientResponse::Error { error }) && refuses_payload(
            error,
            prefix,
            payload_b64,
        ),
    }
}

/// The operation that performs a request whose arguments are handed on as they
/// are, or only converted.
pub open spec fn hands_on(req: ClientRequest, op: Operation) -> bool {
    match req {
        ClientRequest::ProjectRack { rack } => op == (Operation::ProjectRack { rack }),
        ClientRequest::ListPlugins => op == (Operation::ListPlugins),
        ClientRequest::ListActiveCustodies => op == (Operation::ListActiveCustodies),
        ClientRequest::ListSubjects { cursor, page_size } => {
            op == (Operation::ListSubjects { cursor, page_size })
        },
        ClientRequest::ListRelations { cursor, page_size } => {
            op == (Operation::ListRelations { cursor, page_size })
        },
        ClientRequest::EnumerateAddressings { cursor, page_size } => {
            op == (Operation::EnumerateAddressings { cursor, page_size })
        },
        ClientRequest::EnablePlugin { plugin, reason } => {
            op == (Operation::EnablePlugin { plugin, reason })
        },
        ClientRequest::DisablePlugin { plugin, reason } => {
            op == (Operation::DisablePlugin { plugin, reason })
        },
        ClientRequest::UninstallPlugin { plugin, reason, purge_state } => {
            op == (Operation::UninstallPlugin { plugin, reason, purge_state })
        },
        ClientRequest::PurgePluginState { plugin } => {
            op == (Operation::PurgePluginState { plugin })
        },
        ClientRequest::ReloadPlugin { plugin } => op == (Operation::ReloadPlugin { plugin }),
        ClientRequest::ReleaseCustody { shelf, handle } => {
            op == (Operation::ReleaseCustody { shelf, handle })
        },
        ClientRequest::ListReconciliationPairs => op == (Operation::ListReconciliationPairs),
        ClientRequest::ProjectReconciliationPair { pair } => {
            op == (Operation::ProjectReconciliationPair { pair })
        },
        ClientRequest::ReconcilePairNow { pair } => op == (Operation::ReconcilePairNow { pair }),
        ClientRequest::ListUserInteractions => op == (Operation::ListUserInteractions),
        ClientRequest::CreateAppointment { creator, spec, action } => {
            op == (Operation::CreateAppointment { creator, spec, action })
        },
        ClientRequest::CancelAppointment { creator, appointment_id } => {
            op == (Operation::CancelAppointment { creator, appointment_id })
        },
        ClientRequest::ListAppointments => op == (Operation::ListAppointments),
        ClientRequest::ProjectAppointment { creator, appointment_id } => {
            op == (Operation::ProjectAppointment { creator, appointment_id })
        },
        ClientRequest::CreateWatch { creator, spec, action } => {
            op == (Operation::CreateWatch { creator, spec, action })
        },
        ClientRequest::CancelWatch { creator, watch_id } => {
            op == (Operation::CancelWatch { creator, watch_id })
        },
        ClientRequest::ListWatches => op == (Operation::ListWatches),
        ClientRequest::ProjectWatch { creator, watch_id } => {
            op == (Operation::ProjectWatch { creator, watch_id })
        },
        ClientRequest::ListGrammarOrphans => op == (Operation::ListGrammarOrphans),
        ClientRequest::AcceptGrammarOrphans { from_type, reason } => {
            op == (Operation::AcceptGrammarOrphans { from_type, reason })
        },
        ClientRequest::ProjectSubject { canonical_id, scope, follow_aliases } => op == (
        Operation::ProjectSubject {
            canonical_id,
            scope: scope_of(scope),
            follow_aliases,
        }),
        ClientRequest::DescribeAlias { subject_id, include_chain } => op == (
        Operation::DescribeAlias { subject_id, include_chain }),
        ClientRequest::ReloadCatalogue { source, dry_run } => op == (Operation::ReloadCatalogue {
            source: source.source(),
            dry_run,
        }),
        ClientRequest::ReloadManifest { plugin, source, dry_run } => op == (
        Operation::ReloadManifest { plugin, source: source.source(), dry_run }),
        ClientRequest::AnswerUserInteraction { plugin, prompt_id, response, retain_for } => op == (
        Operation::CompletePrompt {
            plugin,
            prompt_id,
            outcome: PromptOutcome::Answered { response, retain_for },
        }),
        ClientRequest::CancelUserInteraction { plugin, prompt_id } => op == (
        Operation::CompletePrompt {
            plugin,
            prompt_id,
            outcome: PromptOutcome::Cancelled { by: PromptCanceller::Consumer },
        }),
        ClientRequest::MigrateGrammarOrphans {
            from_type,
            strategy,
            dry_run,
            batch_size,
            max_subjects,
            reason,
        } => {
            &&& op matches Operation::MigrateGrammarOrphans { request }
            &&& request.from_type == from_type
            &&& strategy.stands_for(request.strategy)
            &&& request.dry_run == dry_run
            &&& request.reason == reason
            &&& match batch_size {
                Some(n) => request.batch_size == Some(n as usize),
                None => request.batch_size is None,
            }
            &&& request.max_subjects == max_subjects
        },
        _ => false,
    }
}

/// What becomes of a request that has passed its guard.
pub open spec fn plans(
    plan: Plan,
    req: ClientRequest,
    desk: Desk,
    issuer: ClaimantTokenIssuer,
    conn: ConnectionState,
) -> bool {
    match req {
        ClientRequest::Request { shelf, request_type, payload_b64, instance_id } => payload_plan(
            plan,
            ""@,
            payload_b64@,
            |bytes: Seq<u8>, p: Plan|
                p matches Plan::Perform(Operation::PluginRequest { shelf: s, request }) && s
                    == shelf && request.payload@ == bytes && request.request_type == request_type
                    && request.correlation_id == desk.correlation.next && request.instance_id
                    == instance_id,
        ),
        ClientRequest::TakeCustody { shelf, custody_type, payload_b64 } => payload_plan(
            plan,
            "take_custody: "@,
            payload_b64@,
            |bytes: Seq<u8>, p: Plan|
                p matches Plan::Perform(Operation::TakeCustody { shelf: s, custody_type: c, payload })
                    && s == shelf && c == custody_type && payload@ == bytes,
        ),
        ClientRequest::CourseCorrect { shelf, handle, correction_type, payload_b64 } => payload_plan(
            plan,
            "course_correct: "@,
            payload_b64@,
            |bytes: Seq<u8>, p: Plan|
                p matches Plan::Perform(
                    Operation::CourseCorrect { shelf: s, handle: h, correction_type: c, payload },
                ) && s == shelf && h == handle && c == correction_type && payload@ == bytes,
        ),
        ClientRequest::DescribeCapabilities => {
            &&& plan matches Plan::Reply(
                ClientResponse::Capabilities {
                    capabilities,
                    wire_version,
                    ops,
                    features: named,
                    catalogue_source,
                    clock_trust,
                    has_battery_rtc,
                    coalesce_labels,
                },
            )
            &&& capabilities
            &&& wire_version == CLIENT_WIRE_VERSION
            &&& ops@.map_values(|s: &'static str| s@) == supported()
            &&& named@.map_values(|s: &'static str| s@) == features()
            &&& catalogue_source@ == desk.catalogue_source.text()
            &&& clock_trust@ == desk.clock_trust.text()
            &&& has_battery_rtc == desk.has_battery_rtc
            &&& shown(coalesce_labels@) == labelled(desk.labels@, kinds())
        },
        ClientRequest::Negotiate { capabilities } => {
            &&& plan matches Plan::Reply(ClientResponse::Negotiated { ok, granted })
            &&& ok
            &&& texts(granted@) == granted_to(capabilities, desk, conn)
        },
        ClientRequest::ResolveClaimants { tokens } => if conn.holds("resolve_claimants"@) {
            plan matches Plan::Reply(ClientResponse::Resolutions { resolutions }) && resolutions@
                == resolutions_of(tokens@, issuer)
        } else {
            plan matches Plan::Reply(ClientResponse::Error { error }) && is_error(
                error,
                ErrorClass::PermissionDenied,
                "resolve_claimants not granted on this connection"@,
                "resolve_claimants_not_granted"@,
            )
        },
        ClientRequest::SubscribeHappenings { .. } => is_misroute(
            plan,
            "internal: subscribe_happenings reached dispatch path"@,
        ),
        ClientRequest::SubscribeSubject { .. } => is_misroute(
            plan,
            "internal: subscribe_subject reached dispatch path"@,
        ),
        _ => plan matches Plan::Perform(op) && hands_on(req, op),
    }
}

/// The answer to a streaming request that was dispatched like another.
pub open spec fn is_misroute(plan: Plan, message: Seq<char>) -> bool {
    plan matches Plan::Reply(ClientResponse::Error { error }) && is_error(
        error,
        ErrorClass::Internal,
        message,
        "dispatch_misroute"@,
    )
}

/// What a negotiation grants.
pub open spec fn granted_to(
    capabilities: Vec<String>,
    desk: Desk,
    conn: ConnectionState,
) -> Seq<Seq<char>> {
    grants(
        texts(capabilities@),
        |name: Seq<char>|
            permitted(
                name,
                desk.acl,
                conn.peer,
                desk.steward_identity,
                desk.responder,
                conn.connection_id,
            ),
    )
}

/// What a request that has passed its guard changes: a negotiation the granted
/// set and the responder lock, a resolution the audit ledger, a plugin request
/// with a sound payload the correlation ids. Nothing else changes.
pub open spec fn changes(
    req: ClientRequest,
    desk: Desk,
    after: Desk,
    issuer: ClaimantTokenIssuer,
    conn: ConnectionState,
    conn_after: ConnectionState,
    now: SystemTime,
) -> bool {
    match req {
        ClientRequest::Negotiate { capabilities } => {
            let claims = texts(capabilities@).contains("user_interaction_responder"@) && permitted(
                "user_interaction_responder"@,
                desk.acl,
                conn.peer,
                desk.steward_identity,
                desk.responder,
                conn.connection_id,
            );
            &&& after == (Desk { responder: after.responder, ..desk })
            &&& match desk.responder {
                None => after.responder is None,
                Some(lock) => after.responder is Some && after.responder->0.holder == (
                if claims {
                    Some(conn.connection_id)
                } else {
                    lock.holder
                }),
            }
            &&& conn_after.peer == conn.peer
            &&& conn_after.connection_id == conn.connection_id
            &&& conn_after.granted_capabilities@ == granted_to(capabilities, desk, conn).to_set()
        },
        ClientRequest::ResolveClaimants { tokens } => {
            &&& after == (Desk { resolution_ledger: after.resolution_ledger, ..desk })
            &&& after.resolution_ledger.log@ == desk.resolution_ledger.log@.push(
                (ResolutionLogEntry {
                    peer_uid: conn.peer.uid,
                    peer_gid: conn.peer.gid,
                    tokens_requested: tokens@.len() as usize,
                    tokens_resolved: if conn.holds("resolve_claimants"@) {
                        resolutions_of(tokens@, issuer).len() as usize
                    } else {
                        0
                    },
                    granted: conn.holds("resolve_claimants"@),
                    at: now,
                }),
            )
            &&& conn_after == conn
        },
        ClientRequest::Request { payload_b64, .. } => {
            &&& after == (Desk { correlation: after.correlation, ..desk })
            &&& after.correlation.next == (if base64_decoded(payload_b64@) is Err {
                desk.correlation.next
            } else if desk.correlation.next == u64::MAX {
                0
            } else {
                (desk.correlation.next + 1) as u64
            })
            &&& conn_after == conn
        },
        _ => after == desk && conn_after == conn,
    }
}

/// Dispatches a request that is no subscription. The issuer is the steward's own,
/// borrowed for the call.
pub fn dispatch_request(
    req: ClientRequest,
    desk: &mut Desk,
    issuer: &ClaimantTokenIssuer,
    wiring: Wiring,
    conn: &mut ConnectionState,
    now: SystemTime,
) -> (r: Plan)
    ensures
        if guard_of(req).opens(*old(conn), wiring) {
            &&& plans(r, req, *old(desk), *issuer, *old(conn))
            &&& changes(req, *old(desk), *final(desk), *issuer, *old(conn), *final(conn), now)
        } else {
            &&& r matches Plan::Reply(ClientResponse::Error { error })
            &&& guard_of(req).refuses(error, req.op(), *old(conn))
            &&& *final(desk) == *old(desk)
            &&& *final(conn) == *old(conn)
        },
{
    let op = client_request_op_tag(&req);
    match pass_guard(guard(&req), wiring, conn, op) {
        Ok(_) => {},
        Err(error) => {
            return Plan::Reply(ClientResponse::Error { error });
        },
    }
    match req {
        ClientRequest::Request { shelf, request_type, payload_b64, instance_id } => {
            match prepare_plugin_request(
                &mut desk.correlation,
                request_type,
                payload_b64.as_str(),
                instance_id,
            ) {
                Ok(request) => Plan::Perform(Operation::PluginRequest { shelf, request }),
                Err(error) => Plan::Reply(ClientResponse::Error { error }),
            }
        },
        ClientRequest::TakeCustody { shelf, custody_type, payload_b64 } => {
            match decode_payload("take_custody: ", payload_b64.as_str()) {
                Ok(payload) => Plan::Perform(
                    Operation::TakeCustody { shelf, custody_type, payload },
                ),
                Err(error) => Plan::Reply(ClientResponse::Error { error }),
            }
        },
        ClientRequest::CourseCorrect { shelf, handle, correction_type, payload_b64 } => {
            match decode_payload("course_correct: ", payload_b64.as_str()) {
                Ok(payload) => Plan::Perform(
                    Operation::CourseCorrect { shelf, handle, correction_type, payload },
                ),
                Err(error) => Plan::Reply(ClientResponse::Error { error }),
            }
        },
        ClientRequest::ProjectSubject { canonical_id, scope, follow_aliases } => Plan::Perform(
            Operation::ProjectSubject {
                canonical_id,
                scope: ProjectionScope::from(scope),
                follow_aliases,
            },
        ),
        ClientRequest::DescribeAlias { subject_id, include_chain } => Plan::Perform(
            Operation::DescribeAlias { subject_id, include_chain },
        ),
        ClientRequest::DescribeCapabilities => Plan::Reply(
            describe_capabilities(
                desk.catalogue_source,
                desk.clock_trust,
                desk.has_battery_rtc,
                &desk.labels,
            ),
        ),
        ClientRequest::Negotiate { capabilities } => {
            let granted = negotiate(
                &capabilities,
                &desk.acl,
                desk.steward_identity,
                &mut desk.responder,
                conn,
            );
            Plan::Reply(ClientResponse::Negotiated { ok: true, granted })
        },
        ClientRequest::ResolveClaimants { tokens } => Plan::Reply(
            handle_resolve_claimants(
                issuer,
                &mut desk.resolution_ledger,
                conn,
                tokens,
                now,
            ),
        ),
        ClientRequest::ReloadCatalogue { source, dry_run } => Plan::Perform(
            Operation::ReloadCatalogue { source: source.into_manifest_source(), dry_run },
        ),
        ClientRequest::ReloadManifest { plugin, source, dry_run } => Plan::Perform(
            Operation::ReloadManifest { plugin, source: source.into_manifest_source(), dry_run },
        ),
        ClientRequest::AnswerUserInteraction { plugin, prompt_id, response, retain_for } => {
            Plan::Perform(
                Operation::CompletePrompt {
                    plugin,
                    prompt_id,
                    outcome: PromptOutcome::Answered { response, retain_for },
                },
            )
        },
        ClientRequest::CancelUserInteraction { plugin, prompt_id } => Plan::Perform(
            Operation::CompletePrompt {
                plugin,
                prompt_id,
                outcome: PromptOutcome::Cancelled { by: PromptCanceller::Consumer },
            },
        ),
        ClientRequest::MigrateGrammarOrphans {
            from_type,
            strategy,
            dry_run,
            batch_size,
            max_subjects,
            reason,
        } => Plan::Perform(
            Operation::MigrateGrammarOrphans {
                request: migrate_request(
                    from_type,
                    strategy,
                    dry_run,
                    batch_size,
                    max_subjects,
                    reason,
                ),
            },
        ),
        ClientRequest::SubscribeHappenings { .. } => Plan::Reply(
            ClientResponse::Error {
                error: refusal(
                    ErrorClass::Internal,
                    "internal: subscribe_happenings reached dispatch path",
                    "dispatch_misroute",
                ),
            },
        ),
        ClientRequest::SubscribeSubject { .. } => Plan::Reply(
            ClientResponse::Error {
                error: refusal(
                    ErrorClass::Internal,
                    "internal: subscribe_subject reached dispatch path",
                    "dispatch_misroute",
                ),
            },
        ),
        ClientRequest::ProjectRack { rack } => Plan::Perform(Operation::ProjectRack { rack }),
        ClientRequest::ListPlugins => Plan::Perform(Operation::ListPlugins),
        ClientRequest::ListActiveCustodies => Plan::Perform(Operation::ListActiveCustodies),
        ClientRequest::ListSubjects { cursor, page_size } => {
            Plan::Perform(Operation::ListSubjects { cursor, page_size })
        },
        ClientRequest::ListRelations { cursor, page_size } => {
            Plan::Perform(Operation::ListRelations { cursor, page_size })
        },
        ClientRequest::EnumerateAddressings { cursor, page_size } => {
            Plan::Perform(Operation::EnumerateAddressings { cursor, page_size })
        },
        ClientRequest::EnablePlugin { plugin, reason } => {
            Plan::Perform(Operation::EnablePlugin { plugin, reason })
        },
        ClientRequest::DisablePlugin { plugin, reason } => {
            Plan::Perform(Operation::DisablePlugin { plugin, reason })
        },
        ClientRequest::UninstallPlugin { plugin, reason, purge_state } => {
            Plan::Perform(Operation::UninstallPlugin { plugin, reason, purge_state })
        },
        ClientRequest::PurgePluginState { plugin } => {
            Plan::Perform(Operation::PurgePluginState { plugin })
        },
        ClientRequest::ReloadPlugin { plugin } => Plan::Perform(Operation::ReloadPlugin { plugin }),
        ClientRequest::ReleaseCustody { shelf, handle } => {
            Plan::Perform(Operation::ReleaseCustody { shelf, handle })
        },
        ClientRequest::ListReconciliationPairs => Plan::Perform(Operation::ListReconciliationPairs),
        ClientRequest::ProjectReconciliationPair { pair } => {
            Plan::Perform(Operation::ProjectReconciliationPair { pair })
        },
        ClientRequest::ReconcilePairNow { pair } => {
            Plan::Perform(Operation::ReconcilePairNow { pair })
        },
        ClientRequest::ListUserInteractions => Plan::Perform(Operation::ListUserInteractions),
        ClientRequest::CreateAppointment { creator, spec, action } => {
            Plan::Perform(Operation::CreateAppointment { creator, spec, action })
        },
        ClientRequest::CancelAppointment { creator, appointment_id } => {
            Plan::Perform(Operation::CancelAppointment { creator, appointment_id })
        },
        ClientRequest::ListAppointments => Plan::Perform(Operation::ListAppointments),
        ClientRequest::ProjectAppointment { creator, appointment_id } => {
            Plan::Perform(Operation::ProjectAppointment { creator, appointment_id })
        },
        ClientRequest::CreateWatch { creator, spec, action } => {
            Plan::Perform(Operation::CreateWatch { creator, spec, action })
        },
        ClientRequest::CancelWatch { creator, watch_id } => {
            Plan::Perform(Operation::CancelWatch { creator, watch_id })
        },
        ClientRequest::ListWatches => Plan::Perform(Operation::ListWatches),
        ClientRequest::ProjectWatch { creator, watch_id } => {
            Plan::Perform(Operation::ProjectWatch { creator, watch_id })
        },
        ClientRequest::ListGrammarOrphans => Plan::Perform(Operation::ListGrammarOrphans),
        ClientRequest::AcceptGrammarOrphans { from_type, reason } => {
            Plan::Perform(Operation::AcceptGrammarOrphans { from_type, reason })
        },
    }
}

/// On a connection that has not negotiated, an operation behind a capability is
/// denied for want of permission, whatever the server has.
pub proof fn law_denied_without_negotiation(
    req: ClientRequest,
    conn: ConnectionState,
    wiring: Wiring,
    e: ApiError,
)
    requires
        conn.granted_capabilities@ == Set::<Seq<char>>::empty(),
        guard_of(req).capability() is Some,
    ensures
        !guard_of(req).opens(conn, wiring),
        guard_of(req).refuses(e, req.op(), conn) ==> e.class == ErrorClass::PermissionDenied,
{
}

/// After a negotiation the connection holds exactly what it asked for and is
/// permitted, whatever it held before.
pub proof fn law_negotiation_replaces(
    capabilities: Vec<String>,
    desk: Desk,
    after: Desk,
    issuer: ClaimantTokenIssuer,
    conn: ConnectionState,
    conn_after: ConnectionState,
    now: SystemTime,
    name: Seq<char>,
)
    requires
        changes(
            ClientRequest::Negotiate { capabilities },
            desk,
            after,
            issuer,
            conn,
            conn_after,
            now,
        ),
    ensures
        conn_after.holds(name) <==> texts(capabilities@).contains(name) && permitted(
            name,
            desk.acl,
            conn.peer,
            desk.steward_identity,
            desk.responder,
            conn.connection_id,
        ),
{
    let ok = |n: Seq<char>|
        permitted(
            n,
            desk.acl,
            conn.peer,
            desk.steward_identity,
            desk.responder,
            conn.connection_id,
        );
    law_grants(texts(capabilities@), ok);
    assert(granted_to(capabilities, desk, conn) == grants(texts(capabilities@), ok));
    assert(conn_after.holds(name) == grants(texts(capabilities@), ok).contains(name));
}

/// A peer whose credentials are unknown is granted nothing.
pub proof fn law_unknown_peer_gets_nothing(
    capabilities: Vec<String>,
    desk: Desk,
    conn: ConnectionState,
)
    requires
        conn.peer.uid is None,
        conn.peer.gid is None,
    ensures
        granted_to(capabilities, desk, conn).len() == 0,
{
    let ok = |n: Seq<char>|
        permitted(
            n,
            desk.acl,
            conn.peer,
            desk.steward_identity,
            desk.responder,
            conn.connection_id,
        );
    law_grants(texts(capabilities@), ok);
    let all = granted_to(capabilities, desk, conn);
    assert(all == grants(texts(capabilities@), ok));
    if all.len() > 0 {
        assert(all.contains(all[0]));
    }
}

}
