use evo::catalogue::{Catalogue, Rack, Shelf, SubjectDeclaration};
use evo::claimant::ClaimantTokenIssuer;
use evo::custody::{course_correct_reply, release_custody_reply, take_custody_reply};
use evo::errors::{failure_error, lifecycle_error, ApiError, ErrorClass, StewardFailure};
use evo::frames::{
    frame_header, frame_length, next_body, FrameError, HeaderRead, MAX_FRAME_SIZE,
};
use evo::grammar::{
    accept_grammar_orphans_reply, declared_types, list_grammar_orphans_reply,
    migrate_grammar_orphans_reply, GrammarOrphanStatus, MigrateError, MigrateOutcome,
    PersistedGrammarOrphan, PersistenceFailure,
};
use evo::happenings::Happening;
use evo::inventory::{handle_list_plugins, handle_project_rack, AdmittedPlugin};
use evo::lifecycle::{
    lifecycle_reply, reload_catalogue_reply, reload_manifest_reply, reload_plugin_reply,
    CatalogueReloadOutcome, ManifestReloadOutcome, PluginLifecycleOutcome,
};
use evo::plugin_requests::{
    flight_mode_on, parse_flight_mode_set_on, plugin_request_reply, post_dispatch_happening,
};
use evo::projections::SubjectProjection;
use evo::reconciliation::{
    list_reconciliation_pairs_reply, project_reconciliation_pair_reply, reconcile_pair_now_reply,
    PairProjection, ReconciliationPairSnapshot,
};
use evo::requests::{AppointmentSpec, CustodyHandle, WatchSpec};
use evo::responses::{ClientResponse, SubjectQueryResult, SubjectRecord};
use evo::schedules::{
    cancel_appointment_reply, cancel_watch_reply, create_appointment_reply, create_watch_reply,
    list_appointments_reply, list_watches_reply, project_appointment_reply, project_watch_reply,
    AppointmentEntry, AppointmentRuntimeError, AppointmentState, WatchEntry, WatchScheduleError,
    WatchState,
};
use evo::subjects::{
    describe_chain_reply, describe_hop_reply, plan_describe_alias, plan_projection,
    project_subject_reply, AliasPlan, ProjectionPlan,
};
use evo::text::{begins_with, decimal_text, has_text, same_text, text_before};
use serde_json::Value;
use std::time::UNIX_EPOCH;

fn error(r: ClientResponse) -> ApiError {
    match r {
        ClientResponse::Error { error } => error,
        other => panic!("expected an error, got {other:?}"),
    }
}

fn subclass(e: &ApiError) -> Option<&str> {
    e.details.as_ref().and_then(|d| d["subclass"].as_str())
}

fn other(text: &str) -> StewardFailure {
    StewardFailure::Other { class: ErrorClass::Internal, text: text.into(), details: None }
}

fn dispatch(text: &str) -> StewardFailure {
    StewardFailure::Dispatch { class: ErrorClass::NotFound, text: text.into(), details: None }
}

fn admission(message: &str) -> StewardFailure {
    StewardFailure::Admission {
        class: ErrorClass::ContractViolation,
        message: message.into(),
        text: format!("admission: {message}"),
        details: None,
    }
}

#[test]
fn undeclared_verbs_are_refused_with_their_subclass() {
    let details = Value::Object(serde_json::Map::from_iter([(
        "subclass".to_string(),
        Value::String("verb_not_declared".into()),
    )]));
    let failure = StewardFailure::Other {
        class: ErrorClass::PermissionDenied,
        text: "verb seek is not declared".into(),
        details: Some(details),
    };
    let e = error(course_correct_reply("s".into(), "h".into(), Err(failure)));
    assert_eq!(e.class, ErrorClass::PermissionDenied);
    assert_eq!(e.message, "verb seek is not declared");
    assert_eq!(subclass(&e), Some("verb_not_declared"));
}

#[test]
fn lifecycle_outcomes_are_shown() {
    match lifecycle_reply(
        "enable_plugin",
        Ok(PluginLifecycleOutcome {
            plugin: "p".into(),
            was_currently_admitted: true,
            change_applied: false,
        }),
    ) {
        ClientResponse::PluginLifecycle {
            plugin_lifecycle,
            plugin,
            was_currently_admitted,
            change_applied,
        } => {
            assert!(plugin_lifecycle && was_currently_admitted && !change_applied);
            assert_eq!(plugin, "p");
        }
        other => panic!("unexpected response: {other:?}"),
    }
    let e = error(lifecycle_reply("disable_plugin", Err(other("disk"))));
    assert_eq!(e.message, "disable_plugin: disk");
    assert_eq!(e.class, ErrorClass::Internal);
    assert!(e.details.is_none());
}

#[test]
fn essential_plugins_are_refused_as_denied() {
    let e = lifecycle_error("disable_plugin", &admission("shelf has required = true"));
    assert_eq!(e.class, ErrorClass::PermissionDenied);
    assert_eq!(e.message, "disable_plugin: admission: shelf has required = true");
    assert_eq!(subclass(&e), Some("essential_plugin"));
    let e = lifecycle_error("uninstall_plugin", &admission("shelf has required = true"));
    assert_eq!(e.class, ErrorClass::ContractViolation);
    assert_eq!(e.message, "uninstall_plugin: admission: shelf has required = true");
    assert_eq!(subclass(&e), Some("essential_plugin"));
    let e = lifecycle_error("disable_plugin", &admission("unknown plugin"));
    assert_eq!(e.class, ErrorClass::ContractViolation);
    assert!(e.details.is_none());
    let e = failure_error(admission("required = true"));
    assert_eq!(e.message, "admission: required = true");
    assert!(e.details.is_none());
}

#[test]
fn reload_outcomes_are_shown() {
    match reload_catalogue_reply(Ok(CatalogueReloadOutcome {
        from_schema_version: 1,
        to_schema_version: 2,
        rack_count: 3,
        duration_ms: 4,
        dry_run: true,
    })) {
        ClientResponse::CatalogueReloaded {
            from_schema_version: 1,
            to_schema_version: 2,
            rack_count: 3,
            duration_ms: 4,
            dry_run: true,
            catalogue_reload: true,
        } => {}
        other => panic!("unexpected response: {other:?}"),
    }
    match reload_manifest_reply(Ok(ManifestReloadOutcome {
        plugin: "p".into(),
        from_manifest_version: "1".into(),
        to_manifest_version: "2".into(),
        duration_ms: 4,
        dry_run: false,
    })) {
        ClientResponse::ManifestReloaded { plugin, to_manifest_version, .. } => {
            assert_eq!((plugin.as_str(), to_manifest_version.as_str()), ("p", "2"));
        }
        other => panic!("unexpected response: {other:?}"),
    }
    assert!(matches!(
        reload_plugin_reply("p".into(), Ok(())),
        ClientResponse::PluginReloaded { plugin_reload: true, .. }
    ));
    assert_eq!(
        error(reload_plugin_reply("p".into(), Err(other("x")))).message,
        "reload_plugin: x"
    );
    assert_eq!(error(reload_catalogue_reply(Err(other("x")))).message, "reload_catalogue: x");
    assert_eq!(error(reload_manifest_reply(Err(other("x")))).message, "reload_manifest: x");
}

#[test]
fn custody_outcomes_are_shown() {
    let handle = CustodyHandle { id: "h".into(), body: Value::Null };
    match take_custody_reply("s".into(), Ok(handle)) {
        ClientResponse::CustodyTaken { custody: true, shelf, handle } => {
            assert_eq!((shelf.as_str(), handle.id.as_str()), ("s", "h"));
        }
        other => panic!("unexpected response: {other:?}"),
    }
    assert_eq!(error(take_custody_reply("s".into(), Err(dispatch("no")))).message, "no");
    assert!(matches!(
        course_correct_reply("s".into(), "h".into(), Ok(())),
        ClientResponse::CustodyCourseCorrected { course_corrected: true, .. }
    ));
    assert!(matches!(
        release_custody_reply("s".into(), "h".into(), Ok(())),
        ClientResponse::CustodyReleased { released: true, .. }
    ));
    assert_eq!(
        error(release_custody_reply("s".into(), "h".into(), Err(dispatch("no")))).class,
        ErrorClass::NotFound
    );
    assert_eq!(
        error(course_correct_reply("s".into(), "h".into(), Err(other("no")))).class,
        ErrorClass::Internal
    );
}

#[test]
fn reconciliation_outcomes_are_shown() {
    match list_reconciliation_pairs_reply(vec![ReconciliationPairSnapshot {
        pair_id: "p".into(),
        composer_shelf: "c".into(),
        warden_shelf: "w".into(),
        generation: 4,
        last_applied_at_ms: None,
    }]) {
        ClientResponse::ReconciliationPairs { reconciliation_pairs, pairs } => {
            assert!(reconciliation_pairs);
            assert_eq!(pairs[0].pair_id, "p");
            assert_eq!(pairs[0].warden_shelf, "w");
            assert_eq!(pairs[0].generation, 4);
        }
        other => panic!("unexpected response: {other:?}"),
    }
    let found = PairProjection {
        pair_id: "p".into(),
        generation: 7,
        applied_state: Value::Bool(true),
    };
    assert!(matches!(
        project_reconciliation_pair_reply("p".into(), Some(found)),
        ClientResponse::ReconciliationPairProjection {
            generation: 7,
            applied_state: Value::Bool(true),
            ..
        }
    ));
    let e = error(project_reconciliation_pair_reply("p".into(), None));
    assert_eq!(e.message, "project_reconciliation_pair: no active pair with id p");
    assert_eq!(subclass(&e), Some("reconciliation_pair_not_found"));
    assert!(matches!(
        reconcile_pair_now_reply("p".into(), Ok(())),
        ClientResponse::ReconcileNow { reconcile_now: true, .. }
    ));
    let e = error(reconcile_pair_now_reply("p".into(), Err(dispatch("no pair"))));
    assert_eq!(e.message, "reconcile_pair_now: no pair");
    assert_eq!(subclass(&e), Some("reconciliation_pair_not_found"));
    let e = error(reconcile_pair_now_reply("p".into(), Err(other("x"))));
    assert_eq!(subclass(&e), Some("reconciliation_now_failed"));
}

fn appointment(state: AppointmentState) -> AppointmentEntry {
    AppointmentEntry {
        creator: "operator/x".into(),
        spec: AppointmentSpec { appointment_id: "a".into(), body: Value::Null },
        action: Value::Null,
        state,
        next_fire_ms: Some(99),
        fires_completed: 2,
        last_fired_at_ms: Some(1),
    }
}

#[test]
fn appointments_are_shown() {
    let entries = vec![
        appointment(AppointmentState::Pending),
        appointment(AppointmentState::Approaching),
        appointment(AppointmentState::Firing),
        appointment(AppointmentState::Fired),
        appointment(AppointmentState::Cancelled),
    ];
    match list_appointments_reply(entries) {
        ClientResponse::Appointments { appointments, entries } => {
            assert!(appointments);
            let states: Vec<&str> = entries.iter().map(|e| e.state).collect();
            assert_eq!(states, vec!["pending", "pending", "pending", "terminal", "cancelled"]);
            let fires: Vec<Option<u64>> = entries.iter().map(|e| e.next_fire_ms).collect();
            assert_eq!(fires, vec![Some(99), Some(99), Some(99), None, None]);
            assert_eq!(entries[0].fires_completed, 2);
            assert_eq!(entries[0].last_fired_ms, Some(1));
        }
        other => panic!("unexpected response: {other:?}"),
    }
    assert!(matches!(
        project_appointment_reply("c".into(), "a".into(), None),
        ClientResponse::AppointmentProjection { entry: None, .. }
    ));
    assert!(matches!(
        project_appointment_reply(
            "c".into(),
            "a".into(),
            Some(appointment(AppointmentState::Pending))
        ),
        ClientResponse::AppointmentProjection { entry: Some(_), .. }
    ));
    assert!(matches!(
        cancel_appointment_reply("c".into(), "a".into(), false),
        ClientResponse::AppointmentCancelled {
            appointment_cancelled: true,
            cancelled: false,
            ..
        }
    ));
}

#[test]
fn appointment_failures_are_classified() {
    assert!(matches!(
        create_appointment_reply("c".into(), "a".into(), Ok(Some(5))),
        ClientResponse::AppointmentCreated { next_fire_ms: Some(5), .. }
    ));
    let e = error(create_appointment_reply(
        "c".into(),
        "a".into(),
        Err(AppointmentRuntimeError::Recurrence("never".into())),
    ));
    assert_eq!(e.class, ErrorClass::ContractViolation);
    assert_eq!(e.message, "create_appointment: never");
    assert_eq!(subclass(&e), Some("bad_recurrence"));
    let e = error(create_appointment_reply(
        "c".into(),
        "a".into(),
        Err(AppointmentRuntimeError::Schedule("full".into())),
    ));
    assert_eq!(e.class, ErrorClass::ResourceExhausted);
    assert_eq!(subclass(&e), Some("quota_exceeded"));
}

fn watch(state: WatchState) -> WatchEntry {
    WatchEntry {
        creator: "c".into(),
        spec: WatchSpec { watch_id: "w".into(), body: Value::Null },
        action: Value::Null,
        state,
        fires_completed: 1,
        last_fired_at_ms: None,
    }
}

#[test]
fn watches_are_shown() {
    match list_watches_reply(vec![
        watch(WatchState::Pending),
        watch(WatchState::Matched),
        watch(WatchState::Fired),
        watch(WatchState::Cancelled),
    ]) {
        ClientResponse::Watches { watches, entries } => {
            assert!(watches);
            let states: Vec<&str> = entries.iter().map(|e| e.state).collect();
            assert_eq!(states, vec!["pending", "matched", "fired", "cancelled"]);
        }
        other => panic!("unexpected response: {other:?}"),
    }
    assert!(matches!(
        project_watch_reply("c".into(), "w".into(), None),
        ClientResponse::WatchProjection { entry: None, .. }
    ));
    assert!(matches!(
        cancel_watch_reply("c".into(), "w".into(), true),
        ClientResponse::WatchCancelled { cancelled: true, .. }
    ));
    assert!(matches!(
        create_watch_reply("c".into(), "w".into(), Ok(())),
        ClientResponse::WatchCreated { watch_created: true, .. }
    ));
    let e = error(create_watch_reply(
        "c".into(),
        "w".into(),
        Err(WatchScheduleError::QuotaExceeded),
    ));
    assert_eq!(e.message, "create_watch: watch quota exceeded");
    assert_eq!(subclass(&e), Some("quota_exceeded"));
    let e = error(create_watch_reply(
        "c".into(),
        "w".into(),
        Err(WatchScheduleError::Invalid("empty filter".into())),
    ));
    assert_eq!(e.message, "create_watch: empty filter");
    assert_eq!(subclass(&e), Some("bad_spec"));
}

#[test]
fn create_appointment_succeeds_and_lists_back() {
    match create_appointment_reply("operator/test".into(), "a-1".into(), Ok(Some(60_000))) {
        ClientResponse::AppointmentCreated {
            appointment_created,
            creator,
            appointment_id,
            ..
        } => {
            assert!(appointment_created);
            assert_eq!(creator, "operator/test");
            assert_eq!(appointment_id, "a-1");
        }
        other => panic!("expected AppointmentCreated, got {other:?}"),
    }
    let mut entry = appointment(AppointmentState::Pending);
    entry.creator = "operator/test".into();
    entry.spec.appointment_id = "a-1".into();
    match list_appointments_reply(vec![entry]) {
        ClientResponse::Appointments { appointments, entries } => {
            assert!(appointments);
            assert_eq!(entries.len(), 1);
            assert_eq!(entries[0].creator, "operator/test");
            assert_eq!(entries[0].spec.appointment_id, "a-1");
            assert_eq!(entries[0].state, "pending");
        }
        other => panic!("expected Appointments, got {other:?}"),
    }
}

#[test]
fn project_appointment_returns_none_for_unknown_pair() {
    match project_appointment_reply("operator/test".into(), "missing".into(), None) {
        ClientResponse::AppointmentProjection {
            appointment_projection,
            creator,
            appointment_id,
            entry,
        } => {
            assert!(appointment_projection);
            assert_eq!(creator, "operator/test");
            assert_eq!(appointment_id, "missing");
            assert!(entry.is_none());
        }
        other => panic!("expected AppointmentProjection, got {other:?}"),
    }
}

#[test]
fn cancel_appointment_is_idempotent_on_unknown_pair() {
    match cancel_appointment_reply("operator/test".into(), "missing".into(), false) {
        ClientResponse::AppointmentCancelled { appointment_cancelled, cancelled, .. } => {
            assert!(appointment_cancelled);
            assert!(!cancelled);
        }
        other => panic!("expected AppointmentCancelled, got {other:?}"),
    }
}

#[test]
fn create_then_cancel_appointment_round_trips() {
    assert!(matches!(
        cancel_appointment_reply("operator/test".into(), "a-1".into(), true),
        ClientResponse::AppointmentCancelled { cancelled: true, .. }
    ));
    let entry = appointment(AppointmentState::Cancelled);
    match project_appointment_reply("operator/test".into(), "a-1".into(), Some(entry)) {
        ClientResponse::AppointmentProjection { entry, .. } => {
            assert_eq!(entry.expect("entry should still be visible").state, "cancelled");
        }
        other => panic!("expected AppointmentProjection, got {other:?}"),
    }
}

#[test]
fn create_watch_succeeds_and_lists_back() {
    match create_watch_reply("operator/test".into(), "w-1".into(), Ok(())) {
        ClientResponse::WatchCreated { watch_created, creator, watch_id } => {
            assert!(watch_created);
            assert_eq!(creator, "operator/test");
            assert_eq!(watch_id, "w-1");
        }
        other => panic!("expected WatchCreated, got {other:?}"),
    }
    let mut entry = watch(WatchState::Pending);
    entry.creator = "operator/test".into();
    match list_watches_reply(vec![entry]) {
        ClientResponse::Watches { watches, entries } => {
            assert!(watches);
            assert_eq!(entries.len(), 1);
            assert_eq!(entries[0].creator, "operator/test");
            assert_eq!(entries[0].state, "pending");
        }
        other => panic!("expected Watches, got {other:?}"),
    }
}

#[test]
fn project_watch_returns_none_for_unknown_pair() {
    match project_watch_reply("operator/test".into(), "missing".into(), None) {
        ClientResponse::WatchProjection { watch_projection, creator, watch_id, entry } => {
            assert!(watch_projection);
            assert_eq!(creator, "operator/test");
            assert_eq!(watch_id, "missing");
            assert!(entry.is_none());
        }
        other => panic!("expected WatchProjection, got {other:?}"),
    }
}

#[test]
fn cancel_watch_is_idempotent_on_unknown_pair() {
    match cancel_watch_reply("operator/test".into(), "missing".into(), false) {
        ClientResponse::WatchCancelled { watch_cancelled, cancelled, .. } => {
            assert!(watch_cancelled);
            assert!(!cancelled);
        }
        other => panic!("expected WatchCancelled, got {other:?}"),
    }
}

#[test]
fn create_watch_invalid_spec_surfaces_bad_spec() {
    let e = error(create_watch_reply(
        "operator/test".into(),
        "w-bad".into(),
        Err(WatchScheduleError::Invalid("cooldown below the floor".into())),
    ));
    assert_eq!(e.class, ErrorClass::ContractViolation);
    assert_eq!(subclass(&e), Some("bad_spec"));
}

#[test]
fn list_grammar_orphans_returns_persisted_rows() {
    let rows = vec![
        orphan("media_item", GrammarOrphanStatus::Pending),
        orphan("audio_track", GrammarOrphanStatus::Pending),
    ];
    match list_grammar_orphans_reply(Ok(rows)) {
        ClientResponse::GrammarOrphans { grammar_orphans, entries } => {
            assert!(grammar_orphans);
            assert_eq!(entries.len(), 2);
            assert_eq!(entries[0].subject_type, "audio_track");
            assert_eq!(entries[1].subject_type, "media_item");
            assert_eq!(entries[0].status, "pending");
        }
        other => panic!("expected GrammarOrphans, got {other:?}"),
    }
}

fn accept(outcome: Result<bool, PersistenceFailure>) -> ClientResponse {
    accept_grammar_orphans_reply(
        "audio_track".into(),
        "deliberate retention".into(),
        UNIX_EPOCH,
        outcome,
    )
    .0
}

#[test]
fn accept_grammar_orphans_refuses_unknown_type() {
    let e = error(accept(Err(PersistenceFailure::Invalid("no such orphan".into()))));
    assert_eq!(e.class, ErrorClass::NotFound);
    assert_eq!(subclass(&e), Some("not_found"));
}

#[test]
fn accept_grammar_orphans_records_and_is_idempotent() {
    match accept(Ok(true)) {
        ClientResponse::GrammarOrphansAccepted {
            grammar_orphans_accepted,
            from_type,
            accepted,
        } => {
            assert!(grammar_orphans_accepted);
            assert_eq!(from_type, "audio_track");
            assert!(accepted);
        }
        other => panic!("expected GrammarOrphansAccepted, got {other:?}"),
    }
    assert!(matches!(
        accept(Ok(false)),
        ClientResponse::GrammarOrphansAccepted { accepted: false, .. }
    ));
}

#[test]
fn accept_grammar_orphans_refuses_in_flight_migration() {
    let e = error(accept(Err(PersistenceFailure::Invalid(
        "audio_track has an in-flight migration".into(),
    ))));
    assert_eq!(e.class, ErrorClass::ContractViolation);
    assert_eq!(subclass(&e), Some("migration_in_flight"));
}

fn orphan(subject_type: &str, status: GrammarOrphanStatus) -> PersistedGrammarOrphan {
    PersistedGrammarOrphan {
        subject_type: subject_type.into(),
        first_observed_at_ms: 1,
        last_observed_at_ms: 2,
        count: 3,
        status,
        accepted_reason: None,
        accepted_at_ms: None,
        migration_id: None,
    }
}

#[test]
fn grammar_orphans_are_listed_by_type() {
    let mut accepted = orphan("album", GrammarOrphanStatus::Accepted);
    accepted.accepted_reason = Some("kept".into());
    match list_grammar_orphans_reply(Ok(vec![
        orphan("track", GrammarOrphanStatus::Pending),
        accepted,
        orphan("mood", GrammarOrphanStatus::Migrating),
    ])) {
        ClientResponse::GrammarOrphans { grammar_orphans, entries } => {
            assert!(grammar_orphans);
            let rows: Vec<(&str, &str)> =
                entries.iter().map(|e| (e.subject_type.as_str(), e.status)).collect();
            assert_eq!(
                rows,
                vec![("album", "accepted"), ("mood", "migrating"), ("track", "pending")]
            );
            assert_eq!(entries[0].accepted_reason.as_deref(), Some("kept"));
            assert_eq!(entries[2].count, 3);
        }
        other => panic!("unexpected response: {other:?}"),
    }
    let e = error(list_grammar_orphans_reply(Err("disk".into())));
    assert_eq!(e.message, "list_grammar_orphans: persistence: disk");
    assert_eq!(subclass(&e), Some("persistence_error"));
    assert_eq!(GrammarOrphanStatus::Resolved.as_str(), "resolved");
    assert_eq!(GrammarOrphanStatus::Recovered.as_str(), "recovered");
}

#[test]
fn accepting_an_orphan_type_is_announced_once() {
    let (r, h) = accept_grammar_orphans_reply("t".into(), "why".into(), UNIX_EPOCH, Ok(true));
    assert!(matches!(r, ClientResponse::GrammarOrphansAccepted { accepted: true, .. }));
    match h {
        Some(Happening::GrammarOrphansAccepted { subject_type, reason, at }) => {
            assert_eq!((subject_type.as_str(), reason.as_str()), ("t", "why"));
            assert_eq!(at, UNIX_EPOCH);
        }
        other => panic!("unexpected happening: {other:?}"),
    }
    let (r, h) = accept_grammar_orphans_reply("t".into(), "why".into(), UNIX_EPOCH, Ok(false));
    assert!(matches!(r, ClientResponse::GrammarOrphansAccepted { accepted: false, .. }));
    assert!(h.is_none());
    let refuse = |f| {
        let (r, h) = accept_grammar_orphans_reply("t".into(), "w".into(), UNIX_EPOCH, Err(f));
        assert!(h.is_none());
        error(r)
    };
    let e = refuse(PersistenceFailure::Invalid("type has an in-flight migration".into()));
    assert_eq!(e.class, ErrorClass::ContractViolation);
    assert_eq!(subclass(&e), Some("migration_in_flight"));
    let e = refuse(PersistenceFailure::Invalid("no such row".into()));
    assert_eq!(e.class, ErrorClass::NotFound);
    assert_eq!(e.message, "accept_grammar_orphans: no such row");
    assert_eq!(subclass(&e), Some("not_found"));
    let e = refuse(PersistenceFailure::Other("disk".into()));
    assert_eq!(e.message, "accept_grammar_orphans: persistence: disk");
}

#[test]
fn migrations_are_reported() {
    match migrate_grammar_orphans_reply(Ok(MigrateOutcome {
        migration_id: "m".into(),
        from_type: "old".into(),
        migrated_count: 5,
        unmigrated_count: 1,
        unmigrated_sample: vec!["u".into()],
        duration_ms: 8,
        dry_run: true,
        target_type_breakdown: vec![("new".into(), 5)],
        sample_first: vec!["f".into()],
        sample_last: vec!["l".into()],
    })) {
        ClientResponse::GrammarMigrationCompleted {
            migrated_count,
            target_type_breakdown,
            sample_first,
            dry_run,
            ..
        } => {
            assert_eq!(migrated_count, 5);
            assert_eq!(target_type_breakdown[0].to_type, "new");
            assert_eq!(target_type_breakdown[0].count, 5);
            assert_eq!(sample_first, vec!["f"]);
            assert!(dry_run);
        }
        other => panic!("unexpected response: {other:?}"),
    }
    let refuse = |e| error(migrate_grammar_orphans_reply(Err(e)));
    let e = refuse(MigrateError::NotAnOrphan { from_type: "t\"x".into() });
    assert_eq!(
        e.message,
        "migrate_grammar_orphans: \"t\\\"x\" is not an orphan in this catalogue"
    );
    assert_eq!(subclass(&e), Some("not_an_orphan"));
    let e = refuse(MigrateError::UndeclaredTargetType { to_type: "n".into() });
    assert_eq!(
        e.message,
        "migrate_grammar_orphans: target type \"n\" is not declared in the loaded catalogue"
    );
    assert_eq!(subclass(&e), Some("undeclared_target_type"));
    let e = refuse(MigrateError::StrategyNotYetImplemented { strategy: "map".into() });
    assert_eq!(e.class, ErrorClass::Unavailable);
    assert_eq!(subclass(&e), Some("strategy_not_yet_implemented"));
    let e = refuse(MigrateError::Persistence("disk".into()));
    assert_eq!(e.message, "migrate_grammar_orphans: persistence: disk");
}

fn catalogue() -> Catalogue {
    let shelf = |name: &str| Shelf {
        name: name.into(),
        shape: 2,
        shape_supports: vec![1],
        description: format!("the {name} shelf"),
    };
    Catalogue {
        racks: vec![
            Rack { name: "storage".into(), charter: "keep".into(), shelves: Vec::new() },
            Rack {
                name: "audio".into(),
                charter: "play".into(),
                shelves: vec![shelf("transport"), shelf("library")],
            },
        ],
        subjects: vec![
            SubjectDeclaration { name: "track".into() },
            SubjectDeclaration { name: "album".into() },
        ],
    }
}

fn admitted(name: &str, shelf: &str, kind: Option<&str>) -> AdmittedPlugin {
    AdmittedPlugin { name: name.into(), shelf: shelf.into(), kind: kind.map(|k| k.to_string()) }
}

#[test]
fn racks_are_surveyed() {
    let plugins = vec![
        admitted("org.old", "audio.transport", Some("respondent")),
        admitted("org.new", "audio.transport", None),
    ];
    match handle_project_rack(&catalogue(), &plugins, "audio".into(), 31) {
        ClientResponse::RackProjection { rack_projection, rack, charter, current_seq, shelves } => {
            assert!(rack_projection);
            assert_eq!((rack.as_str(), charter.as_str(), current_seq), ("audio", "play", 31));
            assert_eq!(shelves.len(), 2);
            assert_eq!(shelves[0].fully_qualified, "audio.transport");
            assert_eq!(shelves[0].shape, 2);
            assert_eq!(shelves[0].shape_supports, vec![1]);
            let occupant = shelves[0].occupant.as_ref().unwrap();
            assert_eq!(occupant.plugin, "org.new");
            assert_eq!(occupant.interaction_kind, "unknown");
            assert_eq!(shelves[1].name, "library");
            assert!(shelves[1].occupant.is_none());
        }
        other => panic!("unexpected response: {other:?}"),
    }
    let e = error(handle_project_rack(&catalogue(), &plugins, "video".into(), 0));
    assert_eq!(e.message, "unknown rack: video");
    assert_eq!(subclass(&e), Some("unknown_rack"));
    assert_eq!(declared_types(&catalogue()), vec!["track", "album"]);
}

#[test]
fn list_plugins_returns_empty_inventory_for_fresh_router() {
    match handle_list_plugins(&Vec::new(), 0) {
        ClientResponse::Plugins { plugins_inventory, current_seq, plugins } => {
            assert!(plugins_inventory);
            assert_eq!(current_seq, 0);
            assert!(plugins.is_empty(), "expected empty inventory");
        }
        other => panic!("expected Plugins response, got {other:?}"),
    }
    match handle_list_plugins(&vec![admitted("p", "a.b", Some("warden"))], 4) {
        ClientResponse::Plugins { plugins, .. } => {
            assert_eq!(plugins[0].interaction_kind, "warden");
        }
        other => panic!("expected Plugins response, got {other:?}"),
    }
}

fn record(id: &str) -> SubjectRecord {
    SubjectRecord { id: id.into(), body: Value::Null }
}

fn aliased(terminal: Option<SubjectRecord>) -> Result<SubjectQueryResult, String> {
    Ok(SubjectQueryResult::Aliased { chain: vec![Value::Bool(true)], terminal })
}

fn projection(id: &str) -> SubjectProjection {
    SubjectProjection {
        canonical_id: id.into(),
        subject_type: "track".into(),
        addressings: Vec::new(),
        related: Vec::new(),
        composed_at: UNIX_EPOCH,
        shape_version: 1,
        claimants: Vec::new(),
        degraded: false,
        degraded_reasons: Vec::new(),
        walk_truncated: false,
    }
}

#[test]
fn live_subjects_are_projected_without_an_envelope() {
    let mut issuer = ClaimantTokenIssuer::new("test-instance");
    let plan = plan_projection(
        "a".into(),
        true,
        Ok(SubjectQueryResult::Found { record: record("a") }),
    );
    match plan {
        ProjectionPlan::Project { id, aliased_from } => {
            assert_eq!(id, "a");
            assert!(aliased_from.is_none());
        }
        other => panic!("unexpected plan: {other:?}"),
    }
    match project_subject_reply(None, Ok(projection("a")), &mut issuer) {
        ClientResponse::Projection(w) => assert_eq!(w.canonical_id, "a"),
        other => panic!("unexpected response: {other:?}"),
    }
    let e = error(project_subject_reply(None, Err("a".into()), &mut issuer));
    assert_eq!(e.message, "unknown subject: a");
    assert_eq!(e.class, ErrorClass::NotFound);
}

#[test]
fn aliases_are_followed_when_they_lead_somewhere() {
    let mut issuer = ClaimantTokenIssuer::new("test-instance");
    let from = match plan_projection("old".into(), true, aliased(Some(record("new")))) {
        ProjectionPlan::Project { id, aliased_from } => {
            assert_eq!(id, "new");
            aliased_from
        }
        other => panic!("unexpected plan: {other:?}"),
    };
    match project_subject_reply(from, Ok(projection("new")), &mut issuer) {
        ClientResponse::ProjectionAliased { subject, aliased_from } => {
            assert_eq!(subject.unwrap().canonical_id, "new");
            assert_eq!(aliased_from.queried_id, "old");
            assert_eq!(aliased_from.terminal_id.as_deref(), Some("new"));
            assert_eq!(aliased_from.chain.len(), 1);
        }
        other => panic!("unexpected response: {other:?}"),
    }
    let from = match plan_projection("old".into(), true, aliased(Some(record("new")))) {
        ProjectionPlan::Project { aliased_from, .. } => aliased_from,
        other => panic!("unexpected plan: {other:?}"),
    };
    let e = error(project_subject_reply(from, Err("new".into()), &mut issuer));
    assert_eq!(e.message, "alias terminal vanished during projection: new");
    assert_eq!(subclass(&e), Some("alias_terminal_missing"));
}

#[test]
fn aliases_are_shown_when_they_are_not_followed() {
    for (follow, terminal) in [(false, Some("new")), (true, None), (false, None)] {
        match plan_projection("old".into(), follow, aliased(terminal.map(record))) {
            ProjectionPlan::Reply(ClientResponse::ProjectionAliased { subject, aliased_from }) => {
                assert!(subject.is_none());
                assert_eq!(aliased_from.terminal_id.as_deref(), terminal);
            }
            other => panic!("unexpected plan: {other:?}"),
        }
    }
}

#[test]
fn failed_lookups_are_reported() {
    let reply = |lookup| match plan_projection("a".into(), true, lookup) {
        ProjectionPlan::Reply(r) => error(r),
        other => panic!("unexpected plan: {other:?}"),
    };
    let e = reply(Err("down".into()));
    assert_eq!(e.message, "describe_subject_with_aliases: down");
    assert_eq!(subclass(&e), Some("alias_lookup_failed"));
    let e = reply(Ok(SubjectQueryResult::NotFound));
    assert_eq!(subclass(&e), Some("unknown_subject"));
    let e = reply(Ok(SubjectQueryResult::Unsupported));
    assert_eq!(subclass(&e), Some("unsupported_variant"));
}

#[test]
fn alias_records_are_described() {
    match describe_chain_reply("a".into(), aliased(None)) {
        ClientResponse::DescribeAliasResponse { ok, subject_id, result } => {
            assert!(ok);
            assert_eq!(subject_id, "a");
            assert!(matches!(result, SubjectQueryResult::Aliased { .. }));
        }
        other => panic!("unexpected response: {other:?}"),
    }
    assert_eq!(
        error(describe_chain_reply("a".into(), Err("x".into()))).message,
        "describe_subject_with_aliases: x"
    );
    match plan_describe_alias("a".into(), Ok(Some(Value::Bool(true)))) {
        AliasPlan::Reply(ClientResponse::DescribeAliasResponse {
            result: SubjectQueryResult::Aliased { chain, terminal },
            ..
        }) => {
            assert_eq!(chain, vec![Value::Bool(true)]);
            assert!(terminal.is_none());
        }
        other => panic!("unexpected plan: {other:?}"),
    }
    assert!(matches!(
        plan_describe_alias("a".into(), Ok(None)),
        AliasPlan::LookUp { subject_id } if subject_id == "a"
    ));
    match plan_describe_alias("a".into(), Err("x".into())) {
        AliasPlan::Reply(r) => assert_eq!(error(r).message, "describe_alias: x"),
        other => panic!("unexpected plan: {other:?}"),
    }
    assert!(matches!(
        describe_hop_reply("a".into(), Ok(SubjectQueryResult::Found { record: record("a") })),
        ClientResponse::DescribeAliasResponse { result: SubjectQueryResult::Found { .. }, .. }
    ));
    for lookup in [aliased(None), Err("x".into()), Ok(SubjectQueryResult::NotFound)] {
        assert!(matches!(
            describe_hop_reply("a".into(), lookup),
            ClientResponse::DescribeAliasResponse { result: SubjectQueryResult::NotFound, .. }
        ));
    }
}

#[test]
fn plugin_responses_are_encoded() {
    let (r, h) = plugin_request_reply("example.echo", "echo", b"", UNIX_EPOCH, Ok(b"hello".to_vec()));
    assert!(matches!(r, ClientResponse::Success { payload_b64 } if payload_b64 == "aGVsbG8="));
    assert!(h.is_none());
    let (r, h) = plugin_request_reply(
        "flight_mode.wifi",
        "flight_mode.set",
        b"{\"on\":false}",
        UNIX_EPOCH,
        Err(dispatch("no plugin on shelf: flight_mode.wifi")),
    );
    assert_eq!(error(r).message, "no plugin on shelf: flight_mode.wifi");
    assert!(h.is_none());
}

#[test]
fn flight_mode_requests_leave_a_happening() {
    let (_, h) = plugin_request_reply(
        "flight_mode.wireless.bluetooth",
        "flight_mode.set",
        b"{\"on\":false}",
        UNIX_EPOCH,
        Ok(Vec::new()),
    );
    match h {
        Some(Happening::FlightModeChanged { rack_class, on, at }) => {
            assert_eq!(rack_class, "flight_mode.wireless.bluetooth");
            assert!(!on);
            assert_eq!(at, UNIX_EPOCH);
        }
        other => panic!("unexpected happening: {other:?}"),
    }
    assert!(post_dispatch_happening("flight_mode.wifi", "flight_mode.get", b"", UNIX_EPOCH)
        .is_none());
    assert!(post_dispatch_happening("audio.x", "flight_mode.set", b"", UNIX_EPOCH).is_none());
}

#[test]
fn malformed_flight_mode_payloads_count_as_on() {
    assert!(!parse_flight_mode_set_on(b"{\"on\":false}"));
    assert!(parse_flight_mode_set_on(b"{\"on\":true}"));
    for payload in [&b"not json"[..], b"", b"{}", b"{\"on\":1}", b"[false]", b"false"] {
        assert!(parse_flight_mode_set_on(payload));
    }
    assert!(flight_mode_on(None));
    assert!(!flight_mode_on(Some(&serde_json::from_str("{\"on\":false}").unwrap())));
}

#[test]
fn frame_headers_round_trip() {
    for n in [1usize, 255, 256, 65_536, MAX_FRAME_SIZE] {
        assert_eq!(frame_length(frame_header(n).unwrap()).unwrap(), n);
    }
    assert_eq!(frame_header(0x0102_0304).unwrap(), [1, 2, 3, 4]);
    assert!(matches!(frame_header(0x1_0000_0000), Err(FrameError::ResponseTooLarge)));
}

#[test]
fn bad_frames_are_refused() {
    let e = frame_length([0, 0, 0, 0]).unwrap_err();
    assert_eq!(e.to_text(), "zero-length frame");
    let e = frame_length([4, 0, 0, 1]).unwrap_err();
    assert_eq!(e.to_text(), "frame too large: 67108865 bytes (max 67108864)");
    assert!(matches!(next_body(HeaderRead::Closed { after: 0 }), Ok(None)));
    assert!(matches!(
        next_body(HeaderRead::Closed { after: 2 }),
        Err(FrameError::TruncatedHeader)
    ));
    assert!(matches!(next_body(HeaderRead::Complete([0, 0, 0, 7])), Ok(Some(7))));
    let e = next_body(HeaderRead::Failed { text: "reset".into() }).unwrap_err();
    assert_eq!(e.to_text(), "reading frame length: reset");
    assert_eq!(FrameError::ResponseTooLarge.to_text(), "response too large");
}

#[test]
fn error_classes_have_wire_names() {
    assert_eq!(ErrorClass::ContractViolation.as_str(), "contract_violation");
    assert_eq!(ErrorClass::PermissionDenied.as_str(), "permission_denied");
    assert_eq!(ErrorClass::Internal.as_str(), "internal");
}

#[test]
fn texts_are_compared_by_their_characters() {
    assert_eq!(decimal_text(0), "0");
    assert_eq!(decimal_text(u64::MAX), "18446744073709551615");
    assert!(same_text("ä", "ä") && !same_text("a", "b"));
    assert!(text_before("a", "b") && !text_before("b", "a") && text_before("", "a"));
    assert!(text_before("Z", "a") && text_before("z", "ä"));
    assert!(has_text("shelf required = true", "required = true"));
    assert!(!has_text("required", "required = true"));
    assert!(begins_with("flight_mode.x", "flight_mode."));
    assert!(!begins_with("flight", "flight_mode."));
}
