//! What a request asks for, and what is performed for it.

use crate::access::ConnectionState;
use crate::claimant::ClaimantTokenIssuer;
use crate::codec::base64_decoded;
use crate::dispatch::{dispatch_request, guard, pass_guard, Desk, Guard, Operation, Plan, Wiring};
use crate::errors::{ApiError, ErrorClass};
use crate::interactions::{PromptCanceller, PromptOutcome};
use crate::laws::refusals::{refuses, says};
use crate::projections::{ProjectionScope, ProjectionScopeWire, WalkDirection, WalkDirectionWire};
use crate::requests::{client_request_op_tag, AppointmentSpec, ClientRequest, CustodyHandle};
use crate::requests::{ManifestSource, MapMappingEntry, MigrationStrategy, MigrationStrategyWire};
use crate::requests::{ReloadSourceWire, WatchSpec};
use crate::resolution::resolutions_of;
use crate::responses::ClientResponse;
use serde_json::Value;
use std::time::SystemTime;
use vstd::prelude::*;

verus! {

/// How far a walk goes.
pub struct Reach {
    pub predicates: Seq<String>,
    pub direction: Seq<char>,
    pub max_depth: int,
    pub max_visits: int,
}

/// Where something is loaded from.
pub enum Origin {
    Toml(Seq<char>),
    File(Seq<char>),
}

/// How subjects are routed to a type.
pub enum Rules {
    AllTo(Seq<char>),
    ByField { field: Seq<char>, cases: Seq<(String, String)>, otherwise: Option<String> },
    Matching { predicate: Seq<char>, to: Seq<char> },
}

/// The value of an argument.
pub enum Argument {
    Text(Seq<char>),
    MaybeText(Option<String>),
    Flag(bool),
    Size(Option<usize>),
    Count(Option<u32>),
    Json(Value),
    MaybeJson(Option<Value>),
    Handle(CustodyHandle),
    Appointment(AppointmentSpec),
    Watch(WatchSpec),
    Scope(Reach),
    Source(Origin),
    Rules(Rules),
    /// The bytes behind a base64 text; none if it is no base64.
    Bytes(Option<Seq<u8>>),
}

/// An operation by its name, with its arguments by theirs.
pub struct Deed {
    pub name: Seq<char>,
    pub arguments: Map<Seq<char>, Argument>,
}

/// The number, or the limit where that is less.
pub open spec fn at_most(n: int, limit: int) -> int {
    if n <= limit {
        n
    } else {
        limit
    }
}

/// The reach that a request asks for: at most thirty-two levels and a hundred
/// thousand visits.
pub open spec fn scope_asked(w: ProjectionScopeWire) -> Reach {
    Reach {
        predicates: w.relation_predicates@,
        direction: match w.direction {
            WalkDirectionWire::Forward => "forward"@,
            WalkDirectionWire::Inverse => "inverse"@,
            WalkDirectionWire::Both => "both"@,
        },
        max_depth: at_most(
            match w.max_depth {
                Some(n) => n as int,
                None => 1,
            },
            32,
        ),
        max_visits: at_most(
            match w.max_visits {
                Some(n) => n as int,
                None => 1000,
            },
            100_000,
        ),
    }
}

/// The reach of a walk.
pub open spec fn scope_walked(s: ProjectionScope) -> Reach {
    Reach {
        predicates: s.relation_predicates@,
        direction: match s.direction {
            WalkDirection::Forward => "forward"@,
            WalkDirection::Inverse => "inverse"@,
            WalkDirection::Both => "both"@,
        },
        max_depth: s.max_depth as int,
        max_visits: s.max_visits as int,
    }
}

/// The origin that a request names.
pub open spec fn source_asked(w: ReloadSourceWire) -> Origin {
    match w {
        ReloadSourceWire::Inline { toml } => Origin::Toml(toml@),
        ReloadSourceWire::Path { path } => Origin::File(path@),
    }
}

/// The origin that is read.
pub open spec fn source_read(s: ManifestSource) -> Origin {
    match s {
        ManifestSource::Inline(toml) => Origin::Toml(toml@),
        ManifestSource::Path(path) => Origin::File(path@),
    }
}

/// The rules that a request names.
pub open spec fn rules_asked(w: MigrationStrategyWire) -> Rules {
    match w {
        MigrationStrategyWire::Rename { to_type } => Rules::AllTo(to_type@),
        MigrationStrategyWire::Mapping { discriminator_field, mapping, default_to_type } => {
            Rules::ByField {
                field: discriminator_field@,
                cases: Seq::new(
                    mapping@.len(),
                    |i: int| (mapping@[i].value, mapping@[i].to_type),
                ),
                otherwise: default_to_type,
            }
        },
        MigrationStrategyWire::Filter { predicate, to_type } => {
            Rules::Matching { predicate: predicate@, to: to_type@ }
        },
    }
}

/// The rules that a migration follows.
pub open spec fn rules_followed(s: MigrationStrategy) -> Rules {
    match s {
        MigrationStrategy::Rename { to_type } => Rules::AllTo(to_type@),
        MigrationStrategy::Mapping { discriminator_field, mapping, default_to_type } => {
            Rules::ByField {
                field: discriminator_field@,
                cases: mapping@,
                otherwise: default_to_type,
            }
        },
        MigrationStrategy::Filter { predicate, to_type } => {
            Rules::Matching { predicate: predicate@, to: to_type@ }
        },
    }
}

/// The bytes behind a base64 text.
pub open spec fn bytes_of(text: Seq<char>) -> Option<Seq<u8>> {
    match base64_decoded(text) {
        Ok(bytes) => Some(bytes),
        Err(_) => None,
    }
}

/// A batch size in the width that requests give it in.
pub open spec fn narrowed(n: Option<usize>) -> Option<u32> {
    match n {
        Some(k) => Some(k as u32),
        None => None,
    }
}

/// What a request asks for.
pub open spec fn asked(req: ClientRequest) -> Deed {
    match req {
        ClientRequest::Request { shelf, request_type, payload_b64, instance_id } => Deed {
            name: "request"@,
            arguments: map![
                "shelf"@ => Argument::Text(shelf@),
                "request_type"@ => Argument::Text(request_type@),
                "payload"@ => Argument::Bytes(bytes_of(payload_b64@)),
                "instance_id"@ => Argument::MaybeText(instance_id),
            ],
        },
        ClientRequest::ProjectSubject { canonical_id, scope, follow_aliases } => Deed {
            name: "project_subject"@,
            arguments: map![
                "canonical_id"@ => Argument::Text(canonical_id@),
                "scope"@ => Argument::Scope(scope_asked(scope)),
                "follow_aliases"@ => Argument::Flag(follow_aliases),
            ],
        },
        ClientRequest::ProjectRack { rack } => Deed {
            name: "project_rack"@,
            arguments: map!["rack"@ => Argument::Text(rack@)],
        },
        ClientRequest::ListPlugins => Deed {
            name: "list_plugins"@,
            arguments: Map::empty(),
        },
        ClientRequest::DescribeAlias { subject_id, include_chain } => Deed {
            name: "describe_alias"@,
            arguments: map![
                "subject_id"@ => Argument::Text(subject_id@),
                "include_chain"@ => Argument::Flag(include_chain),
            ],
        },
        ClientRequest::ListActiveCustodies => Deed {
            name: "list_active_custodies"@,
            arguments: Map::empty(),
        },
        ClientRequest::ListSubjects { cursor, page_size } => Deed {
            name: "list_subjects"@,
            arguments: map![
                "cursor"@ => Argument::MaybeText(cursor),
                "page_size"@ => Argument::Size(page_size),
            ],
        },
        ClientRequest::ListRelations { cursor, page_size } => Deed {
            name: "list_relations"@,
            arguments: map![
                "cursor"@ => Argument::MaybeText(cursor),
                "page_size"@ => Argument::Size(page_size),
            ],
        },
        ClientRequest::EnumerateAddressings { cursor, page_size } => Deed {
            name: "enumerate_addressings"@,
            arguments: map![
                "cursor"@ => Argument::MaybeText(cursor),
                "page_size"@ => Argument::Size(page_size),
            ],
        },
        ClientRequest::SubscribeHappenings { .. } => Deed {
            name: "subscribe_happenings"@,
            arguments: Map::empty(),
        },
        ClientRequest::SubscribeSubject { .. } => Deed {
            name: "subscribe_subject"@,
            arguments: Map::empty(),
        },
        ClientRequest::DescribeCapabilities => Deed {
            name: "describe_capabilities"@,
            arguments: Map::empty(),
        },
        ClientRequest::Negotiate { .. } => Deed {
            name: "negotiate"@,
            arguments: Map::empty(),
        },
        ClientRequest::ResolveClaimants { .. } => Deed {
            name: "resolve_claimants"@,
            arguments: Map::empty(),
        },
        ClientRequest::EnablePlugin { plugin, reason } => Deed {
            name: "enable_plugin"@,
            arguments: map![
                "plugin"@ => Argument::Text(plugin@),
                "reason"@ => Argument::MaybeText(reason),
            ],
        },
        ClientRequest::DisablePlugin { plugin, reason } => Deed {
            name: "disable_plugin"@,
            arguments: map![
                "plugin"@ => Argument::Text(plugin@),
                "reason"@ => Argument::MaybeText(reason),
            ],
        },
        ClientRequest::UninstallPlugin { plugin, reason, purge_state } => Deed {
            name: "uninstall_plugin"@,
            arguments: map![
                "plugin"@ => Argument::Text(plugin@),
                "reason"@ => Argument::MaybeText(reason),
                "purge_state"@ => Argument::Flag(purge_state),
            ],
        },
        ClientRequest::PurgePluginState { plugin } => Deed {
            name: "purge_plugin_state"@,
            arguments: map!["plugin"@ => Argument::Text(plugin@)],
        },
        ClientRequest::ReloadCatalogue { source, dry_run } => Deed {
            name: "reload_catalogue"@,
            arguments: map![
                "source"@ => Argument::Source(source_asked(source)),
                "dry_run"@ => Argument::Flag(dry_run),
            ],
        },
        ClientRequest::ReloadManifest { plugin, source, dry_run } => Deed {
            name: "reload_manifest"@,
            arguments: map![
                "plugin"@ => Argument::Text(plugin@),
                "source"@ => Argument::Source(source_asked(source)),
                "dry_run"@ => Argument::Flag(dry_run),
            ],
        },
        ClientRequest::ReloadPlugin { plugin } => Deed {
            name: "reload_plugin"@,
            arguments: map!["plugin"@ => Argument::Text(plugin@)],
        },
        ClientRequest::TakeCustody { shelf, custody_type, payload_b64 } => Deed {
            name: "take_custody"@,
            arguments: map![
                "shelf"@ => Argument::Text(shelf@),
                "custody_type"@ => Argument::Text(custody_type@),
                "payload"@ => Argument::Bytes(bytes_of(payload_b64@)),
            ],
        },
        ClientRequest::CourseCorrect { shelf, handle, correction_type, payload_b64 } => Deed {
            name: "course_correct"@,
            arguments: map![
                "shelf"@ => Argument::Text(shelf@),
                "handle"@ => Argument::Handle(handle),
                "correction_type"@ => Argument::Text(correction_type@),
                "payload"@ => Argument::Bytes(bytes_of(payload_b64@)),
            ],
        },
        ClientRequest::ReleaseCustody { shelf, handle } => Deed {
            name: "release_custody"@,
            arguments: map![
                "shelf"@ => Argument::Text(shelf@),
                "handle"@ => Argument::Handle(handle),
            ],
        },
        ClientRequest::ListReconciliationPairs => Deed {
            name: "list_reconciliation_pairs"@,
            arguments: Map::empty(),
        },
        ClientRequest::ProjectReconciliationPair { pair } => Deed {
            name: "project_reconciliation_pair"@,
            arguments: map!["pair"@ => Argument::Text(pair@)],
        },
        ClientRequest::ReconcilePairNow { pair } => Deed {
            name: "reconcile_pair_now"@,
            arguments: map!["pair"@ => Argument::Text(pair@)],
        },
        ClientRequest::ListUserInteractions => Deed {
            name: "list_user_interactions"@,
            arguments: Map::empty(),
        },
        ClientRequest::AnswerUserInteraction {
            plugin,
            prompt_id,
            response,
            retain_for,
        } => Deed {
            name: "answer_user_interaction"@,
            arguments: map![
                "plugin"@ => Argument::Text(plugin@),
                "prompt_id"@ => Argument::Text(prompt_id@),
                "response"@ => Argument::Json(response),
                "retain_for"@ => Argument::MaybeJson(retain_for),
            ],
        },
        ClientRequest::CancelUserInteraction { plugin, prompt_id } => Deed {
            name: "cancel_user_interaction"@,
            arguments: map![
                "plugin"@ => Argument::Text(plugin@),
                "prompt_id"@ => Argument::Text(prompt_id@),
            ],
        },
        ClientRequest::CreateAppointment { creator, spec, action } => Deed {
            name: "create_appointment"@,
            arguments: map![
                "creator"@ => Argument::Text(creator@),
                "spec"@ => Argument::Appointment(spec),
                "action"@ => Argument::Json(action),
            ],
        },
        ClientRequest::CancelAppointment { creator, appointment_id } => Deed {
            name: "cancel_appointment"@,
            arguments: map![
                "creator"@ => Argument::Text(creator@),
                "appointment_id"@ => Argument::Text(appointment_id@),
            ],
        },
        ClientRequest::ListAppointments => Deed {
            name: "list_appointments"@,
            arguments: Map::empty(),
        },
        ClientRequest::ProjectAppointment { creator, appointment_id } => Deed {
            name: "project_appointment"@,
            arguments: map![
                "creator"@ => Argument::Text(creator@),
                "appointment_id"@ => Argument::Text(appointment_id@),
            ],
        },
        ClientRequest::CreateWatch { creator, spec, action } => Deed {
            name: "create_watch"@,
            arguments: map![
                "creator"@ => Argument::Text(creator@),
                "spec"@ => Argument::Watch(spec),
                "action"@ => Argument::Json(action),
            ],
        },
        ClientRequest::CancelWatch { creator, watch_id } => Deed {
            name: "cancel_watch"@,
            arguments: map![
                "creator"@ => Argument::Text(creator@),
                "watch_id"@ => Argument::Text(watch_id@),
            ],
        },
        ClientRequest::ListWatches => Deed {
            name: "list_watches"@,
            arguments: Map::empty(),
        },
        ClientRequest::ProjectWatch { creator, watch_id } => Deed {
            name: "project_watch"@,
            arguments: map![
                "creator"@ => Argument::Text(creator@),
                "watch_id"@ => Argument::Text(watch_id@),
            ],
        },
        ClientRequest::ListGrammarOrphans => Deed {
            name: "list_grammar_orphans"@,
            arguments: Map::empty(),
        },
        ClientRequest::AcceptGrammarOrphans { from_type, reason } => Deed {
            name: "accept_grammar_orphans"@,
            arguments: map![
                "from_type"@ => Argument::Text(from_type@),
                "reason"@ => Argument::Text(reason@),
            ],
        },
        ClientRequest::MigrateGrammarOrphans {
            from_type,
            strategy,
            dry_run,
            batch_size,
            max_subjects,
            reason,
        } => Deed {
            name: "migrate_grammar_orphans"@,
            arguments: map![
                "from_type"@ => Argument::Text(from_type@),
                "strategy"@ => Argument::Rules(rules_asked(strategy)),
                "dry_run"@ => Argument::Flag(dry_run),
                "batch_size"@ => Argument::Count(batch_size),
                "max_subjects"@ => Argument::Count(max_subjects),
                "reason"@ => Argument::MaybeText(reason),
            ],
        },
    }
}

/// What an operation does.
pub open spec fn done(op: Operation) -> Deed {
    match op {
        Operation::PluginRequest { shelf, request } => Deed {
            name: "request"@,
            arguments: map![
                "shelf"@ => Argument::Text(shelf@),
                "request_type"@ => Argument::Text(request.request_type@),
                "payload"@ => Argument::Bytes(Some(request.payload@)),
                "instance_id"@ => Argument::MaybeText(request.instance_id),
            ],
        },
        Operation::ProjectSubject { canonical_id, scope, follow_aliases } => Deed {
            name: "project_subject"@,
            arguments: map![
                "canonical_id"@ => Argument::Text(canonical_id@),
                "scope"@ => Argument::Scope(scope_walked(scope)),
                "follow_aliases"@ => Argument::Flag(follow_aliases),
            ],
        },
        Operation::DescribeAlias { subject_id, include_chain } => Deed {
            name: "describe_alias"@,
            arguments: map![
                "subject_id"@ => Argument::Text(subject_id@),
                "include_chain"@ => Argument::Flag(include_chain),
            ],
        },
        Operation::ReloadCatalogue { source, dry_run } => Deed {
            name: "reload_catalogue"@,
            arguments: map![
                "source"@ => Argument::Source(source_read(source)),
                "dry_run"@ => Argument::Flag(dry_run),
            ],
        },
        Operation::ReloadManifest { plugin, source, dry_run } => Deed {
            name: "reload_manifest"@,
            arguments: map![
                "plugin"@ => Argument::Text(plugin@),
                "source"@ => Argument::Source(source_read(source)),
                "dry_run"@ => Argument::Flag(dry_run),
            ],
        },
        Operation::TakeCustody { shelf, custody_type, payload } => Deed {
            name: "take_custody"@,
            arguments: map![
                "shelf"@ => Argument::Text(shelf@),
                "custody_type"@ => Argument::Text(custody_type@),
                "payload"@ => Argument::Bytes(Some(payload@)),
            ],
        },
        Operation::CourseCorrect { shelf, handle, correction_type, payload } => Deed {
            name: "course_correct"@,
            arguments: map![
                "shelf"@ => Argument::Text(shelf@),
                "handle"@ => Argument::Handle(handle),
                "correction_type"@ => Argument::Text(correction_type@),
                "payload"@ => Argument::Bytes(Some(payload@)),
            ],
        },
        Operation::CompletePrompt { plugin, prompt_id, outcome } => match outcome {
            PromptOutcome::Answered { response, retain_for } => Deed {
                name: "answer_user_interaction"@,
                arguments: map![
                    "plugin"@ => Argument::Text(plugin@),
                    "prompt_id"@ => Argument::Text(prompt_id@),
                    "response"@ => Argument::Json(response),
                    "retain_for"@ => Argument::MaybeJson(retain_for),
                ],
            },
            PromptOutcome::Cancelled { by: PromptCanceller::Consumer } => Deed {
                name: "cancel_user_interaction"@,
                arguments: map![
                    "plugin"@ => Argument::Text(plugin@),
                    "prompt_id"@ => Argument::Text(prompt_id@),
                ],
            },
            PromptOutcome::Cancelled { by: PromptCanceller::Plugin } => Deed {
                name: "withdraw_prompt"@,
                arguments: map![
                    "plugin"@ => Argument::Text(plugin@),
                    "prompt_id"@ => Argument::Text(prompt_id@),
                ],
            },
        },
        Operation::MigrateGrammarOrphans { request } => Deed {
            name: "migrate_grammar_orphans"@,
            arguments: map![
                "from_type"@ => Argument::Text(request.from_type@),
                "strategy"@ => Argument::Rules(rules_followed(request.strategy)),
                "dry_run"@ => Argument::Flag(request.dry_run),
                "batch_size"@ => Argument::Count(narrowed(request.batch_size)),
                "max_subjects"@ => Argument::Count(request.max_subjects),
                "reason"@ => Argument::MaybeText(request.reason),
            ],
        },
        Operation::ProjectRack { rack } => Deed {
            name: "project_rack"@,
            arguments: map!["rack"@ => Argument::Text(rack@)],
        },
        Operation::ListPlugins => Deed {
            name: "list_plugins"@,
            arguments: Map::empty(),
        },
        Operation::ListActiveCustodies => Deed {
            name: "list_active_custodies"@,
            arguments: Map::empty(),
        },
        Operation::ListSubjects { cursor, page_size } => Deed {
            name: "list_subjects"@,
            arguments: map![
                "cursor"@ => Argument::MaybeText(cursor),
                "page_size"@ => Argument::Size(page_size),
            ],
        },
        Operation::ListRelations { cursor, page_size } => Deed {
            name: "list_relations"@,
            arguments: map![
                "cursor"@ => Argument::MaybeText(cursor),
                "page_size"@ => Argument::Size(page_size),
            ],
        },
        Operation::EnumerateAddressings { cursor, page_size } => Deed {
            name: "enumerate_addressings"@,
            arguments: map![
                "cursor"@ => Argument::MaybeText(cursor),
                "page_size"@ => Argument::Size(page_size),
            ],
        },
        Operation::EnablePlugin { plugin, reason } => Deed {
            name: "enable_plugin"@,
            arguments: map![
                "plugin"@ => Argument::Text(plugin@),
                "reason"@ => Argument::MaybeText(reason),
            ],
        },
        Operation::DisablePlugin { plugin, reason } => Deed {
            name: "disable_plugin"@,
            arguments: map![
                "plugin"@ => Argument::Text(plugin@),
                "reason"@ => Argument::MaybeText(reason),
            ],
        },
        Operation::UninstallPlugin { plugin, reason, purge_state } => Deed {
            name: "uninstall_plugin"@,
            arguments: map![
                "plugin"@ => Argument::Text(plugin@),
                "reason"@ => Argument::MaybeText(reason),
                "purge_state"@ => Argument::Flag(purge_state),
            ],
        },
        Operation::PurgePluginState { plugin } => Deed {
            name: "purge_plugin_state"@,
            arguments: map!["plugin"@ => Argument::Text(plugin@)],
        },
        Operation::ReloadPlugin { plugin } => Deed {
            name: "reload_plugin"@,
            arguments: map!["plugin"@ => Argument::Text(plugin@)],
        },
        Operation::ReleaseCustody { shelf, handle } => Deed {
            name: "release_custody"@,
            arguments: map![
                "shelf"@ => Argument::Text(shelf@),
                "handle"@ => Argument::Handle(handle),
            ],
        },
        Operation::ListReconciliationPairs => Deed {
            name: "list_reconciliation_pairs"@,
            arguments: Map::empty(),
        },
        Operation::ProjectReconciliationPair { pair } => Deed {
            name: "project_reconciliation_pair"@,
            arguments: map!["pair"@ => Argument::Text(pair@)],
        },
        Operation::ReconcilePairNow { pair } => Deed {
            name: "reconcile_pair_now"@,
            arguments: map!["pair"@ => Argument::Text(pair@)],
        },
        Operation::ListUserInteractions => Deed {
            name: "list_user_interactions"@,
            arguments: Map::empty(),
        },
        Operation::CreateAppointment { creator, spec, action } => Deed {
            name: "create_appointment"@,
            arguments: map![
                "creator"@ => Argument::Text(creator@),
                "spec"@ => Argument::Appointment(spec),
                "action"@ => Argument::Json(action),
            ],
        },
        Operation::CancelAppointment { creator, appointment_id } => Deed {
            name: "cancel_appointment"@,
            arguments: map![
                "creator"@ => Argument::Text(creator@),
                "appointment_id"@ => Argument::Text(appointment_id@),
            ],
        },
        Operation::ListAppointments => Deed {
            name: "list_appointments"@,
            arguments: Map::empty(),
        },
        Operation::ProjectAppointment { creator, appointment_id } => Deed {
            name: "project_appointment"@,
            arguments: map![
                "creator"@ => Argument::Text(creator@),
                "appointment_id"@ => Argument::Text(appointment_id@),
            ],
        },
        Operation::CreateWatch { creator, spec, action } => Deed {
            name: "create_watch"@,
            arguments: map![
                "creator"@ => Argument::Text(creator@),
                "spec"@ => Argument::Watch(spec),
                "action"@ => Argument::Json(action),
            ],
        },
        Operation::CancelWatch { creator, watch_id } => Deed {
            name: "cancel_watch"@,
            arguments: map![
                "creator"@ => Argument::Text(creator@),
                "watch_id"@ => Argument::Text(watch_id@),
            ],
        },
        Operation::ListWatches => Deed {
            name: "list_watches"@,
            arguments: Map::empty(),
        },
        Operation::ProjectWatch { creator, watch_id } => Deed {
            name: "project_watch"@,
            arguments: map![
                "creator"@ => Argument::Text(creator@),
                "watch_id"@ => Argument::Text(watch_id@),
            ],
        },
        Operation::ListGrammarOrphans => Deed {
            name: "list_grammar_orphans"@,
            arguments: Map::empty(),
        },
        Operation::AcceptGrammarOrphans { from_type, reason } => Deed {
            name: "accept_grammar_orphans"@,
            arguments: map![
                "from_type"@ => Argument::Text(from_type@),
                "reason"@ => Argument::Text(reason@),
            ],
        },
    }
}

/// The tag of a request is the name of the operation that it asks for.
pub proof fn law_tags_name_the_operation(req: ClientRequest, r: &'static str)
    requires
        call_ensures(client_request_op_tag, (&req,), r),
    ensures
        r@ == asked(req).name,
{
}

/// What is performed for a request is the very operation that it asks for, with
/// the arguments that it gives.
#[verifier::rlimit(60)]
pub proof fn law_what_is_asked_is_done(
    req: ClientRequest,
    desk: &mut Desk,
    issuer: &ClaimantTokenIssuer,
    wiring: Wiring,
    conn: &mut ConnectionState,
    now: SystemTime,
    op: Operation,
)
    requires
        call_ensures(
            dispatch_request,
            (req, desk, issuer, wiring, conn, now),
            Plan::Perform(op),
        ),
    ensures
        done(op) == asked(req),
{
    if let ClientRequest::MigrateGrammarOrphans { strategy, batch_size, .. } = req {
        let request = op->MigrateGrammarOrphans_request;
        assert(rules_followed(request.strategy) == rules_asked(strategy)) by {
            if let MigrationStrategyWire::Mapping { mapping, .. } = strategy {
                assert(mapping@.map_values(|e: MapMappingEntry| (e.value, e.to_type)) =~= Seq::new(
                    mapping@.len(),
                    |i: int| (mapping@[i].value, mapping@[i].to_type),
                ));
            }
        }
        assert(narrowed(request.batch_size) == batch_size);
    }
}

/// What a kind of request needs: a capability of the connection, and a part of the
/// server that may be absent, with what is said of its absence.
pub struct Need {
    pub capability: Option<Seq<char>>,
    pub denied: Seq<char>,
    pub present: bool,
    pub absent: Seq<char>,
    pub unconfigured: Seq<char>,
}

/// What a request that acts on plugins, pairs, prompts, appointments, watches or
/// grammar needs; nothing for the others.
pub open spec fn need_of(req: ClientRequest, wiring: Wiring) -> Option<Need> {
    if req is EnablePlugin || req is DisablePlugin || req is UninstallPlugin || req
        is PurgePluginState || req is ReloadCatalogue || req is ReloadManifest || req
        is ReloadPlugin {
        Some(
            Need {
                capability: Some("plugins_admin"@),
                denied: "plugins_admin_not_granted"@,
                present: wiring.engine,
                absent: "an admission engine handle; plugin lifecycle ops are unavailable"@,
                unconfigured: "admission_engine_not_configured"@,
            },
        )
    } else if req is ListReconciliationPairs || req is ProjectReconciliationPair {
        Some(
            Need {
                capability: None,
                denied: ""@,
                present: wiring.reconciliation,
                absent: "a reconciliation coordinator handle; reconciliation ops are unavailable"@,
                unconfigured: "reconciliation_not_configured"@,
            },
        )
    } else if req is ReconcilePairNow {
        Some(
            Need {
                capability: Some("reconciliation_admin"@),
                denied: "reconciliation_admin_not_granted"@,
                present: wiring.reconciliation,
                absent: "a reconciliation coordinator handle; reconciliation admin ops are unavailable"@,
                unconfigured: "reconciliation_not_configured"@,
            },
        )
    } else if req is ListUserInteractions || req is AnswerUserInteraction || req
        is CancelUserInteraction {
        Some(
            Need {
                capability: Some("user_interaction_responder"@),
                denied: "user_interaction_responder_not_granted"@,
                present: wiring.prompts,
                absent: "a prompt ledger; user-interaction routing is unavailable"@,
                unconfigured: "prompt_ledger_not_configured"@,
            },
        )
    } else if req is CreateAppointment || req is CancelAppointment || req is ListAppointments || req
        is ProjectAppointment {
        Some(
            Need {
                capability: Some("appointments_admin"@),
                denied: "appointments_admin_not_granted"@,
                present: wiring.appointments,
                absent: "an appointments runtime; appointment-admin ops are unavailable"@,
                unconfigured: "appointments_not_configured"@,
            },
        )
    } else if req is CreateWatch || req is CancelWatch || req is ListWatches || req
        is ProjectWatch {
        Some(
            Need {
                capability: Some("watches_admin"@),
                denied: "watches_admin_not_granted"@,
                present: wiring.watches,
                absent: "a watches runtime; watch-admin ops are unavailable"@,
                unconfigured: "watches_not_configured"@,
            },
        )
    } else if req is ListGrammarOrphans || req is AcceptGrammarOrphans || req
        is MigrateGrammarOrphans {
        Some(
            Need {
                capability: Some("grammar_admin"@),
                denied: "grammar_admin_not_granted"@,
                present: true,
                absent: ""@,
                unconfigured: ""@,
            },
        )
    } else {
        None
    }
}

/// The connection holds the capability.
pub open spec fn holds(conn: ConnectionState, need: Need) -> bool {
    match need.capability {
        Some(name) => conn.granted_capabilities@.contains(name),
        None => true,
    }
}

/// A request with a need is performed if and only if the connection holds the
/// capability and the server has the part. Otherwise it is refused, for the
/// capability first, and nothing changes.
#[verifier::rlimit(60)]
pub proof fn law_guarded_requests_need_their_capability(
    req: ClientRequest,
    desk: &mut Desk,
    issuer: &ClaimantTokenIssuer,
    wiring: Wiring,
    conn: &mut ConnectionState,
    now: SystemTime,
    plan: Plan,
)
    requires
        call_ensures(dispatch_request, (req, desk, issuer, wiring, conn, now), plan),
        need_of(req, wiring) is Some,
    ensures
        ({
            let need = need_of(req, wiring)->0;
            &&& plan is Perform <==> holds(*old(conn), need) && need.present
            &&& plan is Reply <==> !(holds(*old(conn), need) && need.present)
            &&& !holds(*old(conn), need) ==> refuses(
                plan->Reply_0,
                ErrorClass::PermissionDenied,
                asked(req).name + ": "@ + need.capability->0
                    + " not granted on this connection"@,
                need.denied,
            )
            &&& holds(*old(conn), need) && !need.present ==> refuses(
                plan->Reply_0,
                ErrorClass::Internal,
                asked(req).name + ": this server was constructed without "@ + need.absent,
                need.unconfigured,
            )
        }),
        *final(desk) == *old(desk),
        *final(conn) == *old(conn),
{
}

/// A request that carries bytes is performed if and only if its text is base64;
/// else it is refused for what the decoder says.
pub proof fn law_payloads_have_to_be_base64(
    req: ClientRequest,
    desk: &mut Desk,
    issuer: &ClaimantTokenIssuer,
    wiring: Wiring,
    conn: &mut ConnectionState,
    now: SystemTime,
    plan: Plan,
)
    requires
        call_ensures(dispatch_request, (req, desk, issuer, wiring, conn, now), plan),
    ensures
        match req {
            ClientRequest::Request { payload_b64, .. } => answers_payload(plan, ""@, payload_b64@),
            ClientRequest::TakeCustody { payload_b64, .. } => answers_payload(
                plan,
                "take_custody: "@,
                payload_b64@,
            ),
            ClientRequest::CourseCorrect { payload_b64, .. } => answers_payload(
                plan,
                "course_correct: "@,
                payload_b64@,
            ),
            _ => true,
        },
{
}

/// The plan performs something if the text is base64, and else tells why not.
pub open spec fn answers_payload(plan: Plan, op: Seq<char>, payload_b64: Seq<char>) -> bool {
    match base64_decoded(payload_b64) {
        Ok(_) => plan is Perform,
        Err(why) => plan matches Plan::Reply(r) && refuses(
            r,
            ErrorClass::ContractViolation,
            op + "invalid base64 payload: "@ + why,
            "invalid_base64"@,
        ),
    }
}

/// A request without a need and without bytes that is no question about the
/// connection itself is performed, on every connection.
pub proof fn law_open_requests_are_performed(
    req: ClientRequest,
    desk: &mut Desk,
    issuer: &ClaimantTokenIssuer,
    wiring: Wiring,
    conn: &mut ConnectionState,
    now: SystemTime,
    plan: Plan,
)
    requires
        call_ensures(dispatch_request, (req, desk, issuer, wiring, conn, now), plan),
        req is ProjectSubject || req is ProjectRack || req is ListPlugins || req is DescribeAlias
            || req is ListActiveCustodies || req is ListSubjects || req is ListRelations || req
            is EnumerateAddressings || req is ReleaseCustody,
    ensures
        plan is Perform,
        *final(desk) == *old(desk),
        *final(conn) == *old(conn),
{
}

/// A plugin request gets the next correlation id, and the one after it another.
pub proof fn law_correlation_ids_are_fresh(
    req: ClientRequest,
    desk: &mut Desk,
    issuer: &ClaimantTokenIssuer,
    wiring: Wiring,
    conn: &mut ConnectionState,
    now: SystemTime,
    op: Operation,
)
    requires
        call_ensures(
            dispatch_request,
            (req, desk, issuer, wiring, conn, now),
            Plan::Perform(op),
        ),
        req is Request,
    ensures
        ({
            &&& op matches Operation::PluginRequest { request, .. }
            &&& request.correlation_id == old(desk).correlation.next
            &&& request.correlation_id < u64::MAX ==> final(desk).correlation.next
                == request.correlation_id + 1
            &&& request.correlation_id == u64::MAX ==> final(desk).correlation.next == 0
        }),
{
}

/// What dispatching keeps: the access list, the identity, the labels and the boot
/// facts never change; the responder lock changes in negotiations alone, the audit
/// ledger in resolutions alone, the correlation ids in plugin requests alone; who
/// the peer is never changes, and what it was granted in negotiations alone.
pub proof fn law_dispatching_keeps_the_rest(
    req: ClientRequest,
    desk: &mut Desk,
    issuer: &ClaimantTokenIssuer,
    wiring: Wiring,
    conn: &mut ConnectionState,
    now: SystemTime,
    plan: Plan,
)
    requires
        call_ensures(dispatch_request, (req, desk, issuer, wiring, conn, now), plan),
    ensures
        final(desk).acl == old(desk).acl,
        final(desk).steward_identity == old(desk).steward_identity,
        final(desk).labels == old(desk).labels,
        final(desk).catalogue_source == old(desk).catalogue_source,
        final(desk).clock_trust == old(desk).clock_trust,
        final(desk).has_battery_rtc == old(desk).has_battery_rtc,
        req !is Negotiate ==> final(desk).responder == old(desk).responder,
        req !is ResolveClaimants ==> final(desk).resolution_ledger == old(desk).resolution_ledger,
        req !is Request ==> final(desk).correlation == old(desk).correlation,
        final(conn).peer == old(conn).peer,
        final(conn).connection_id == old(conn).connection_id,
        req !is Negotiate ==> final(conn).granted_capabilities == old(conn).granted_capabilities,
{
}

proof fn lemma_no_more_than_asked(tokens: Seq<String>, issuer: ClaimantTokenIssuer)
    ensures
        resolutions_of(tokens, issuer).len() <= tokens.len(),
    decreases tokens.len(),
{
    if tokens.len() > 0 {
        lemma_no_more_than_asked(tokens.drop_last(), issuer);
    }
}

/// Every resolution is on the audit ledger afterwards, refused or not, with who
/// asked, for how many tokens, and how many were answered.
pub proof fn law_resolutions_are_audited(
    tokens: Vec<String>,
    desk: &mut Desk,
    issuer: &ClaimantTokenIssuer,
    wiring: Wiring,
    conn: &mut ConnectionState,
    now: SystemTime,
    plan: Plan,
)
    requires
        call_ensures(
            dispatch_request,
            (ClientRequest::ResolveClaimants { tokens }, desk, issuer, wiring, conn, now),
            plan,
        ),
    ensures
        final(desk).resolution_ledger.log@.len() == old(desk).resolution_ledger.log@.len() + 1,
        final(desk).resolution_ledger.log@.drop_last() =~= old(desk).resolution_ledger.log@,
        ({
            let entry = final(desk).resolution_ledger.log@.last();
            &&& entry.peer_uid == old(conn).peer.uid
            &&& entry.peer_gid == old(conn).peer.gid
            &&& entry.tokens_requested == tokens@.len()
            &&& entry.at == now
            &&& entry.granted == old(conn).granted_capabilities@.contains("resolve_claimants"@)
            &&& match plan {
                Plan::Reply(ClientResponse::Resolutions { resolutions }) => entry.granted
                    && entry.tokens_resolved == resolutions@.len(),
                Plan::Reply(ClientResponse::Error { error }) => !entry.granted
                    && entry.tokens_resolved == 0 && says(
                    error,
                    ErrorClass::PermissionDenied,
                    "resolve_claimants not granted on this connection"@,
                    "resolve_claimants_not_granted"@,
                ),
                _ => false,
            }
        }),
{
    lemma_no_more_than_asked(tokens@, *issuer);
    assert(tokens.len() == tokens@.len());
}

/// A subscription that is dispatched like another request is refused.
pub proof fn law_subscriptions_are_not_dispatched(
    req: ClientRequest,
    desk: &mut Desk,
    issuer: &ClaimantTokenIssuer,
    wiring: Wiring,
    conn: &mut ConnectionState,
    now: SystemTime,
    plan: Plan,
)
    requires
        call_ensures(dispatch_request, (req, desk, issuer, wiring, conn, now), plan),
        req is SubscribeHappenings || req is SubscribeSubject,
    ensures
        plan matches Plan::Reply(r) && refuses(
            r,
            ErrorClass::Internal,
            if req is SubscribeHappenings {
                "internal: subscribe_happenings reached dispatch path"@
            } else {
                "internal: subscribe_subject reached dispatch path"@
            },
            "dispatch_misroute"@,
        ),
{
}

/// A request passes its guard if the connection holds what it needs and the server has
/// it, and is refused for the first of the two that is missing; one that needs nothing
/// passes.
pub proof fn law_guards_ask_for_what_is_needed(
    req: ClientRequest,
    g: Guard,
    wiring: Wiring,
    conn: ConnectionState,
    op: &str,
    r: Result<(), ApiError>,
)
    requires
        call_ensures(guard, (&req,), g),
        call_ensures(pass_guard, (g, wiring, &conn, op), r),
    ensures
        need_of(req, wiring) is None ==> r is Ok,
        need_of(req, wiring) is Some ==> ({
            let need = need_of(req, wiring)->0;
            &&& r is Ok <==> holds(conn, need) && need.present
            &&& !holds(conn, need) ==> says(
                r->Err_0,
                ErrorClass::PermissionDenied,
                op@ + ": "@ + need.capability->0 + " not granted on this connection"@,
                need.denied,
            )
            &&& holds(conn, need) && !need.present ==> says(
                r->Err_0,
                ErrorClass::Internal,
                op@ + ": this server was constructed without "@ + need.absent,
                need.unconfigured,
            )
        }),
{
}

}
