use evo::access::{ClientAcl, ConnectionState, PeerCredentials, ResponderLock, StewardIdentity};
use evo::capabilities::StaticLabels;
use evo::catalogue::{Catalogue, CatalogueSource, TimeTrust};
use evo::claimant::{ClaimantTokenIssuer, SharedIssuer};
use evo::connection::{route_frame, Route};
use evo::dispatch::{dispatch_request, Desk, Operation, Plan, Wiring};
use evo::errors::{ApiError, ErrorClass};
use evo::interactions::{
    answer_user_interaction_reply, cancel_user_interaction_reply, list_user_interactions_reply,
    OpenPrompt, PromptCanceller, PromptOutcome,
};
use evo::plugin_requests::CorrelationIds;
use evo::projections::ProjectionScopeWire;
use evo::requests::{
    client_request_op_tag, default_follow_aliases, default_include_chain, supported_ops,
    AppointmentSpec, ClientRequest, CustodyHandle, HappeningFilter, HappeningFilterWire,
    ManifestSource, MapMappingEntry, MigrationStrategy, MigrationStrategyWire, ReloadSourceWire,
    WatchSpec,
};
use evo::resolution::ResolutionLedger;
use evo::responses::ClientResponse;
use evo::server::{Server, Subsystems};
use evo::state::{StewardState, Stores};
use serde_json::Value;
use std::sync::Arc;
use std::time::UNIX_EPOCH;

const ALL: Wiring = Wiring {
    engine: true,
    reconciliation: true,
    prompts: true,
    appointments: true,
    watches: true,
};

const NONE: Wiring = Wiring {
    engine: false,
    reconciliation: false,
    prompts: false,
    appointments: false,
    watches: false,
};

fn desk() -> Desk {
    Desk {
        acl: ClientAcl::default(),
        steward_identity: StewardIdentity { uid: Some(1000), gid: Some(1000) },
        responder: Some(ResponderLock::new()),
        resolution_ledger: ResolutionLedger::new(),
        correlation: CorrelationIds::new(),
        catalogue_source: CatalogueSource::Configured,
        clock_trust: TimeTrust::Untrusted,
        has_battery_rtc: false,
        labels: vec![StaticLabels { kind: "watch_fired".into(), labels: vec!["variant".into()] }],
    }
}

fn issuer() -> ClaimantTokenIssuer {
    ClaimantTokenIssuer::new("test-instance")
}

fn conn(granted: &[&str]) -> ConnectionState {
    let mut conn =
        ConnectionState::new(PeerCredentials { uid: Some(1000), gid: Some(1000) }, 5);
    for name in granted {
        conn.granted_capabilities.insert(name.to_string());
    }
    conn
}

fn run(req: ClientRequest, wiring: Wiring, granted: &[&str]) -> Plan {
    dispatch_request(req, &mut desk(), &issuer(), wiring, &mut conn(granted), UNIX_EPOCH)
}

fn error(plan: Plan) -> ApiError {
    match plan {
        Plan::Reply(ClientResponse::Error { error }) => error,
        other => panic!("expected an error, got {other:?}"),
    }
}

fn subclass(e: &ApiError) -> String {
    e.details.as_ref().expect("details")["subclass"].as_str().expect("subclass").to_string()
}

fn appointment() -> AppointmentSpec {
    AppointmentSpec { appointment_id: "a-1".into(), body: Value::Null }
}

fn watch() -> WatchSpec {
    WatchSpec { watch_id: "w-1".into(), body: Value::Null }
}

fn inline() -> ReloadSourceWire {
    ReloadSourceWire::Inline { toml: "x = 1".into() }
}

fn rename() -> MigrationStrategyWire {
    MigrationStrategyWire::Rename { to_type: "track".into() }
}

fn guarded() -> Vec<(ClientRequest, &'static str)> {
    let s = || "x".to_string();
    vec![
        (ClientRequest::EnablePlugin { plugin: s(), reason: None }, "plugins_admin"),
        (ClientRequest::DisablePlugin { plugin: s(), reason: None }, "plugins_admin"),
        (
            ClientRequest::UninstallPlugin { plugin: s(), reason: None, purge_state: false },
            "plugins_admin",
        ),
        (ClientRequest::PurgePluginState { plugin: s() }, "plugins_admin"),
        (ClientRequest::ReloadCatalogue { source: inline(), dry_run: true }, "plugins_admin"),
        (
            ClientRequest::ReloadManifest { plugin: s(), source: inline(), dry_run: true },
            "plugins_admin",
        ),
        (ClientRequest::ReloadPlugin { plugin: s() }, "plugins_admin"),
        (ClientRequest::ReconcilePairNow { pair: s() }, "reconciliation_admin"),
        (ClientRequest::ListUserInteractions, "user_interaction_responder"),
        (
            ClientRequest::AnswerUserInteraction {
                plugin: s(),
                prompt_id: s(),
                response: Value::Null,
                retain_for: None,
            },
            "user_interaction_responder",
        ),
        (
            ClientRequest::CancelUserInteraction { plugin: s(), prompt_id: s() },
            "user_interaction_responder",
        ),
        (
            ClientRequest::CreateAppointment {
                creator: s(),
                spec: appointment(),
                action: Value::Null,
            },
            "appointments_admin",
        ),
        (
            ClientRequest::CancelAppointment { creator: s(), appointment_id: s() },
            "appointments_admin",
        ),
        (ClientRequest::ListAppointments, "appointments_admin"),
        (
            ClientRequest::ProjectAppointment { creator: s(), appointment_id: s() },
            "appointments_admin",
        ),
        (
            ClientRequest::CreateWatch { creator: s(), spec: watch(), action: Value::Null },
            "watches_admin",
        ),
        (ClientRequest::CancelWatch { creator: s(), watch_id: s() }, "watches_admin"),
        (ClientRequest::ListWatches, "watches_admin"),
        (ClientRequest::ProjectWatch { creator: s(), watch_id: s() }, "watches_admin"),
        (ClientRequest::ListGrammarOrphans, "grammar_admin"),
        (
            ClientRequest::AcceptGrammarOrphans { from_type: s(), reason: s() },
            "grammar_admin",
        ),
        (
            ClientRequest::MigrateGrammarOrphans {
                from_type: s(),
                strategy: rename(),
                dry_run: false,
                batch_size: None,
                max_subjects: None,
                reason: None,
            },
            "grammar_admin",
        ),
    ]
}

#[test]
fn guarded_operations_need_their_capability() {
    for (req, capability) in guarded() {
        let op = client_request_op_tag(&req);
        let e = error(run(req, ALL, &[]));
        assert_eq!(e.class, ErrorClass::PermissionDenied);
        assert_eq!(
            e.message,
            format!("{op}: {capability} not granted on this connection")
        );
        assert_eq!(subclass(&e), format!("{capability}_not_granted"));
    }
}

#[test]
fn guarded_operations_are_performed_with_their_capability() {
    for (req, capability) in guarded() {
        assert!(matches!(run(req, ALL, &[capability]), Plan::Perform(_)));
    }
}

#[test]
fn guarded_operations_need_their_subsystem() {
    for (req, capability) in guarded() {
        let expected = match capability {
            "plugins_admin" => "admission_engine_not_configured",
            "reconciliation_admin" => "reconciliation_not_configured",
            "user_interaction_responder" => "prompt_ledger_not_configured",
            "appointments_admin" => "appointments_not_configured",
            "watches_admin" => "watches_not_configured",
            _ => {
                assert!(matches!(run(req, NONE, &[capability]), Plan::Perform(_)));
                continue;
            }
        };
        let op = client_request_op_tag(&req);
        let e = error(run(req, NONE, &[capability]));
        assert_eq!(e.class, ErrorClass::Internal);
        assert!(e.message.starts_with(&format!(
            "{op}: this server was constructed without "
        )));
        assert_eq!(subclass(&e), expected);
    }
}

fn refuses(req: ClientRequest, wiring: Wiring, granted: &[&str], class: ErrorClass, sub: &str) {
    let e = error(run(req, wiring, granted));
    assert_eq!(e.class, class);
    assert_eq!(subclass(&e), sub);
}

#[test]
fn lifecycle_ops_refuse_when_capability_absent() {
    refuses(
        ClientRequest::EnablePlugin { plugin: "org.test.x".into(), reason: None },
        NONE,
        &[],
        ErrorClass::PermissionDenied,
        "plugins_admin_not_granted",
    );
}

#[test]
fn lifecycle_ops_refuse_when_engine_unconfigured() {
    refuses(
        ClientRequest::DisablePlugin { plugin: "org.test.x".into(), reason: None },
        NONE,
        &["plugins_admin"],
        ErrorClass::Internal,
        "admission_engine_not_configured",
    );
}

#[test]
fn reconcile_pair_now_refuses_when_capability_absent() {
    refuses(
        ClientRequest::ReconcilePairNow { pair: "audio.main".into() },
        NONE,
        &[],
        ErrorClass::PermissionDenied,
        "reconciliation_admin_not_granted",
    );
}

#[test]
fn reconcile_pair_now_refuses_when_coordinator_unconfigured() {
    refuses(
        ClientRequest::ReconcilePairNow { pair: "audio.main".into() },
        NONE,
        &["reconciliation_admin"],
        ErrorClass::Internal,
        "reconciliation_not_configured",
    );
}

#[test]
fn list_reconciliation_pairs_refuses_when_coordinator_unconfigured() {
    refuses(
        ClientRequest::ListReconciliationPairs,
        NONE,
        &[],
        ErrorClass::Internal,
        "reconciliation_not_configured",
    );
}

#[test]
fn project_reconciliation_pair_refuses_when_coordinator_unconfigured() {
    refuses(
        ClientRequest::ProjectReconciliationPair { pair: "audio.main".into() },
        NONE,
        &[],
        ErrorClass::Internal,
        "reconciliation_not_configured",
    );
}

fn create_appointment() -> ClientRequest {
    ClientRequest::CreateAppointment {
        creator: "operator/test".into(),
        spec: appointment(),
        action: Value::Null,
    }
}

#[test]
fn create_appointment_refuses_when_capability_absent() {
    refuses(
        create_appointment(),
        ALL,
        &[],
        ErrorClass::PermissionDenied,
        "appointments_admin_not_granted",
    );
}

#[test]
fn create_appointment_refuses_when_runtime_unconfigured() {
    refuses(
        create_appointment(),
        NONE,
        &["appointments_admin"],
        ErrorClass::Internal,
        "appointments_not_configured",
    );
}

fn create_watch() -> ClientRequest {
    ClientRequest::CreateWatch {
        creator: "operator/test".into(),
        spec: watch(),
        action: Value::Null,
    }
}

#[test]
fn create_watch_refuses_when_capability_absent() {
    refuses(
        create_watch(),
        ALL,
        &[],
        ErrorClass::PermissionDenied,
        "watches_admin_not_granted",
    );
}

#[test]
fn create_watch_refuses_when_runtime_unconfigured() {
    refuses(
        create_watch(),
        NONE,
        &["watches_admin"],
        ErrorClass::Internal,
        "watches_not_configured",
    );
}

#[test]
fn list_grammar_orphans_refuses_when_capability_absent() {
    refuses(
        ClientRequest::ListGrammarOrphans,
        ALL,
        &[],
        ErrorClass::PermissionDenied,
        "grammar_admin_not_granted",
    );
}

#[test]
fn read_only_reconciliation_needs_only_the_coordinator() {
    assert!(matches!(
        run(ClientRequest::ListReconciliationPairs, ALL, &[]),
        Plan::Perform(Operation::ListReconciliationPairs)
    ));
    let e = error(run(ClientRequest::ListReconciliationPairs, NONE, &[]));
    assert_eq!(
        e.message,
        "list_reconciliation_pairs: this server was constructed without a reconciliation \
         coordinator handle; reconciliation ops are unavailable"
    );
    assert_eq!(subclass(&e), "reconciliation_not_configured");
    let e = error(run(
        ClientRequest::ProjectReconciliationPair { pair: "p".into() },
        NONE,
        &[],
    ));
    assert_eq!(e.class, ErrorClass::Internal);
}

#[test]
fn list_user_interactions_refuses_when_capability_absent() {
    let e = error(run(ClientRequest::ListUserInteractions, NONE, &[]));
    assert_eq!(e.class, ErrorClass::PermissionDenied);
    assert_eq!(subclass(&e), "user_interaction_responder_not_granted");
}

#[test]
fn list_user_interactions_refuses_when_ledger_unconfigured() {
    let e = error(run(
        ClientRequest::ListUserInteractions,
        NONE,
        &["user_interaction_responder"],
    ));
    assert_eq!(e.class, ErrorClass::Internal);
    assert_eq!(subclass(&e), "prompt_ledger_not_configured");
}

#[test]
fn list_user_interactions_returns_open_set() {
    assert!(matches!(
        run(ClientRequest::ListUserInteractions, ALL, &["user_interaction_responder"]),
        Plan::Perform(Operation::ListUserInteractions)
    ));
    let open = vec![OpenPrompt {
        plugin: "org.video".into(),
        request: serde_json::from_str(r#"{"prompt_id":"p-2"}"#).unwrap(),
    }];
    match list_user_interactions_reply(open) {
        ClientResponse::UserInteractions { user_interactions, prompts } => {
            assert!(user_interactions);
            assert_eq!(prompts.len(), 1);
            assert_eq!(prompts[0].plugin, "org.video");
            assert_eq!(prompts[0].prompt["prompt_id"].as_str(), Some("p-2"));
        }
        other => panic!("expected UserInteractions, got {other:?}"),
    }
}

#[test]
fn answer_user_interaction_refuses_unknown_prompt() {
    match answer_user_interaction_reply("org.test".into(), "missing".into(), false) {
        ClientResponse::Error { error } => {
            assert_eq!(error.class, ErrorClass::NotFound);
            assert_eq!(
                error.message,
                "answer_user_interaction: no open prompt with plugin=org.test prompt_id=missing"
            );
            assert_eq!(subclass(&error), "prompt_not_found");
        }
        other => panic!("expected Error, got {other:?}"),
    }
}

#[test]
fn answer_user_interaction_resolves_plugin_waiter() {
    let plan = run(
        ClientRequest::AnswerUserInteraction {
            plugin: "org.test".into(),
            prompt_id: "p-1".into(),
            response: Value::Bool(true),
            retain_for: None,
        },
        ALL,
        &["user_interaction_responder"],
    );
    match plan {
        Plan::Perform(Operation::CompletePrompt { plugin, prompt_id, outcome }) => {
            assert!(matches!(
                outcome,
                PromptOutcome::Answered { response: Value::Bool(true), retain_for: None }
            ));
            match answer_user_interaction_reply(plugin, prompt_id, true) {
                ClientResponse::UserInteractionAnswered { answered, plugin, prompt_id } => {
                    assert!(answered);
                    assert_eq!(plugin, "org.test");
                    assert_eq!(prompt_id, "p-1");
                }
                other => panic!("unexpected response: {other:?}"),
            }
        }
        other => panic!("unexpected plan: {other:?}"),
    }
}

#[test]
fn cancel_user_interaction_refuses_unknown_prompt() {
    match cancel_user_interaction_reply("org.test".into(), "missing".into(), false) {
        ClientResponse::Error { error } => {
            assert_eq!(error.class, ErrorClass::NotFound);
            assert_eq!(subclass(&error), "prompt_not_found");
        }
        other => panic!("expected Error, got {other:?}"),
    }
}

#[test]
fn cancel_user_interaction_resolves_plugin_waiter_with_consumer_attribution() {
    let plan = run(
        ClientRequest::CancelUserInteraction { plugin: "p".into(), prompt_id: "x".into() },
        ALL,
        &["user_interaction_responder"],
    );
    match plan {
        Plan::Perform(Operation::CompletePrompt { outcome, .. }) => assert!(matches!(
            outcome,
            PromptOutcome::Cancelled { by: PromptCanceller::Consumer }
        )),
        other => panic!("unexpected plan: {other:?}"),
    }
    assert!(matches!(
        cancel_user_interaction_reply("p".into(), "x".into(), true),
        ClientResponse::UserInteractionCancelled { cancelled: true, .. }
    ));
}

#[test]
fn answer_user_interaction_refuses_when_capability_absent() {
    let e = error(run(
        ClientRequest::AnswerUserInteraction {
            plugin: "p".into(),
            prompt_id: "x".into(),
            response: Value::Bool(true),
            retain_for: None,
        },
        ALL,
        &[],
    ));
    assert_eq!(e.class, ErrorClass::PermissionDenied);
}

#[test]
fn plugin_requests_are_decoded_and_numbered() {
    let mut desk = desk();
    let mut conn = conn(&[]);
    let request = |payload: &str| ClientRequest::Request {
        shelf: "example.echo".into(),
        request_type: "echo".into(),
        payload_b64: payload.into(),
        instance_id: Some("i".into()),
    };
    for expected in 1..4u64 {
        let req = request("aGVsbG8=");
        match dispatch_request(req, &mut desk, &issuer(), NONE, &mut conn, UNIX_EPOCH) {
            Plan::Perform(Operation::PluginRequest { shelf, request }) => {
                assert_eq!(shelf, "example.echo");
                assert_eq!(request.payload, b"hello");
                assert_eq!(request.request_type, "echo");
                assert_eq!(request.correlation_id, expected);
                assert_eq!(request.instance_id.as_deref(), Some("i"));
            }
            other => panic!("unexpected plan: {other:?}"),
        }
    }
    let req = request("%");
    let e = error(dispatch_request(req, &mut desk, &issuer(), NONE, &mut conn, UNIX_EPOCH));
    assert_eq!(e.class, ErrorClass::ContractViolation);
    assert!(e.message.starts_with("invalid base64 payload: "));
    assert_eq!(desk.correlation.next, 4);
}

#[test]
fn custody_payloads_are_decoded() {
    match run(
        ClientRequest::TakeCustody {
            shelf: "s".into(),
            custody_type: "playback".into(),
            payload_b64: "AQI=".into(),
        },
        NONE,
        &[],
    ) {
        Plan::Perform(Operation::TakeCustody { shelf, custody_type, payload }) => {
            assert_eq!((shelf.as_str(), custody_type.as_str()), ("s", "playback"));
            assert_eq!(payload, vec![1, 2]);
        }
        other => panic!("unexpected plan: {other:?}"),
    }
    let handle = CustodyHandle { id: "h".into(), body: Value::Null };
    let e = error(run(
        ClientRequest::CourseCorrect {
            shelf: "s".into(),
            handle,
            correction_type: "seek".into(),
            payload_b64: "=".into(),
        },
        NONE,
        &[],
    ));
    assert!(e.message.starts_with("course_correct: invalid base64 payload: "));
    assert_eq!(subclass(&e), "invalid_base64");
}

#[test]
fn negotiation_opens_the_guarded_operations() {
    let mut desk = desk();
    let mut conn = conn(&[]);
    let plan = dispatch_request(
        ClientRequest::Negotiate {
            capabilities: vec!["watches_admin".into(), "user_interaction_responder".into()],
        },
        &mut desk,
        &issuer(),
        ALL,
        &mut conn,
        UNIX_EPOCH,
    );
    match plan {
        Plan::Reply(ClientResponse::Negotiated { ok, granted }) => {
            assert!(ok);
            assert_eq!(granted, vec!["watches_admin", "user_interaction_responder"]);
        }
        other => panic!("unexpected plan: {other:?}"),
    }
    assert_eq!(desk.responder.as_ref().unwrap().current_responder(), Some(5));
    let req = ClientRequest::ListWatches;
    assert!(matches!(
        dispatch_request(req, &mut desk, &issuer(), ALL, &mut conn, UNIX_EPOCH),
        Plan::Perform(Operation::ListWatches)
    ));
}

#[test]
fn resolutions_are_recorded_and_answered() {
    let mut desk = desk();
    let mut conn = conn(&["resolve_claimants"]);
    let mut issuer = issuer();
    let token = issuer.token_for("org.a").to_text();
    match dispatch_request(
        ClientRequest::ResolveClaimants { tokens: vec![token] },
        &mut desk,
        &issuer,
        NONE,
        &mut conn,
        UNIX_EPOCH,
    ) {
        Plan::Reply(ClientResponse::Resolutions { resolutions }) => {
            assert_eq!(resolutions[0].plugin_name, "org.a");
        }
        other => panic!("unexpected plan: {other:?}"),
    }
    assert_eq!(desk.resolution_ledger.count(), 1);
}

#[test]
fn capabilities_are_described_at_once() {
    match run(ClientRequest::DescribeCapabilities, NONE, &[]) {
        Plan::Reply(ClientResponse::Capabilities { ops, coalesce_labels, .. }) => {
            assert_eq!(ops, supported_ops());
            assert_eq!(coalesce_labels.len(), 1);
        }
        other => panic!("unexpected plan: {other:?}"),
    }
}

#[test]
fn subscriptions_do_not_belong_in_dispatch() {
    let e = error(run(
        ClientRequest::SubscribeHappenings {
            since: None,
            filter: HappeningFilterWire::default(),
            coalesce: None,
        },
        ALL,
        &[],
    ));
    assert_eq!(e.message, "internal: subscribe_happenings reached dispatch path");
    assert_eq!(subclass(&e), "dispatch_misroute");
    let e = error(run(
        ClientRequest::SubscribeSubject {
            canonical_id: "c".into(),
            scope: ProjectionScopeWire::default(),
            follow_aliases: false,
        },
        ALL,
        &[],
    ));
    assert_eq!(e.message, "internal: subscribe_subject reached dispatch path");
}

#[test]
fn arguments_are_converted_for_the_operation() {
    match run(
        ClientRequest::ReloadManifest {
            plugin: "p".into(),
            source: ReloadSourceWire::Path { path: "/etc/x".into() },
            dry_run: true,
        },
        ALL,
        &["plugins_admin"],
    ) {
        Plan::Perform(Operation::ReloadManifest { plugin, source, dry_run }) => {
            assert_eq!(plugin, "p");
            assert!(matches!(source, ManifestSource::Path(path) if path == "/etc/x"));
            assert!(dry_run);
        }
        other => panic!("unexpected plan: {other:?}"),
    }
    match run(
        ClientRequest::MigrateGrammarOrphans {
            from_type: "old".into(),
            strategy: MigrationStrategyWire::Mapping {
                discriminator_field: "f".into(),
                mapping: vec![MapMappingEntry { value: "a".into(), to_type: "b".into() }],
                default_to_type: None,
            },
            dry_run: true,
            batch_size: Some(9),
            max_subjects: Some(4),
            reason: Some("why".into()),
        },
        NONE,
        &["grammar_admin"],
    ) {
        Plan::Perform(Operation::MigrateGrammarOrphans { request }) => {
            assert_eq!(request.from_type, "old");
            assert_eq!(request.batch_size, Some(9));
            assert_eq!(request.max_subjects, Some(4));
            assert_eq!(request.reason.as_deref(), Some("why"));
            match request.strategy {
                MigrationStrategy::Mapping { mapping, .. } => {
                    assert_eq!(mapping, vec![("a".to_string(), "b".to_string())]);
                }
                other => panic!("unexpected strategy: {other:?}"),
            }
        }
        other => panic!("unexpected plan: {other:?}"),
    }
}

#[test]
fn frames_are_routed() {
    match route_frame(Err("expected value at line 1".into()), None) {
        Route::Reply(ClientResponse::Error { error }) => {
            assert_eq!(error.class, ErrorClass::ProtocolViolation);
            assert_eq!(error.message, "invalid JSON: expected value at line 1");
            assert_eq!(subclass(&error), "invalid_json");
        }
        other => panic!("unexpected route: {other:?}"),
    }
    assert!(matches!(
        route_frame(Ok(ClientRequest::ListPlugins), None),
        Route::Dispatch(ClientRequest::ListPlugins)
    ));
    assert!(matches!(
        route_frame(
            Ok(ClientRequest::SubscribeSubject {
                canonical_id: "c".into(),
                scope: ProjectionScopeWire::default(),
                follow_aliases: true,
            }),
            None
        ),
        Route::StreamSubject { follow_aliases: true, .. }
    ));
}

#[test]
fn bad_coalescing_closes_the_connection() {
    let subscribe = |coalesce: Option<Value>| ClientRequest::SubscribeHappenings {
        since: Some(3),
        filter: HappeningFilterWire::default(),
        coalesce,
    };
    match route_frame(Ok(subscribe(Some(Value::Null))), Some("labels must not be empty")) {
        Route::Close(ClientResponse::Error { error }) => {
            assert_eq!(error.class, ErrorClass::ContractViolation);
            assert_eq!(error.message, "labels must not be empty");
            assert_eq!(subclass(&error), "coalesce_invalid");
        }
        other => panic!("unexpected route: {other:?}"),
    }
    assert!(matches!(
        route_frame(Ok(subscribe(None)), None),
        Route::StreamHappenings { since: Some(3), coalesce: None, .. }
    ));
    assert!(matches!(
        route_frame(Ok(subscribe(Some(Value::Null))), None),
        Route::StreamHappenings { coalesce: Some(_), .. }
    ));
}

#[test]
fn every_guarded_request_names_a_supported_op() {
    let ops = supported_ops();
    for (req, _) in guarded() {
        assert!(ops.contains(&client_request_op_tag(&req)));
    }
    assert!(default_follow_aliases());
    assert!(default_include_chain());
}

#[test]
fn op_tags_tell_operations_apart() {
    let run_now = |pair: &str| ClientRequest::ReconcilePairNow { pair: pair.into() };
    assert_eq!(client_request_op_tag(&run_now("a")), client_request_op_tag(&run_now("b")));
    let show = ClientRequest::ProjectReconciliationPair { pair: "a".into() };
    assert_ne!(client_request_op_tag(&run_now("a")), client_request_op_tag(&show));
    assert_eq!(client_request_op_tag(&show), "project_reconciliation_pair");
}

#[test]
fn filters_match_every_active_dimension() {
    let filter: HappeningFilter = HappeningFilterWire {
        variants: vec!["custody_taken".into()],
        plugins: vec!["org.a".into(), "org.b".into()],
        shelves: Vec::new(),
    }
    .into();
    assert!(filter.accepts("custody_taken", Some("org.b"), None));
    assert!(!filter.accepts("custody_released", Some("org.b"), None));
    assert!(!filter.accepts("custody_taken", Some("org.c"), None));
    assert!(!filter.accepts("custody_taken", None, None));
    let open: HappeningFilter = HappeningFilterWire::default().into();
    assert!(open.accepts("anything", None, None));
}

struct Unit;

impl Stores for Unit {
    type Subjects = ();
    type Relations = ();
    type Custody = ();
    type Bus = ();
    type Admin = ();
    type Persistence = ();
    type ConflictIndex = ();
    type BearerTokenIssuer = ();
    type CredentialStore = ();
    type RevocationList = ();
    type CredentialVault = ();
    type CredentialChangeBus = ();
    type OnlineProviderConfigStore = ();
    type OnlineProviderConfigBus = ();
}

impl Subsystems for Unit {
    type Router = ();
    type Stores = Unit;
    type Projections = ();
    type Engine = ();
    type Reconciliation = ();
    type FastPath = ();
    type Prompts = ();
    type Appointments = ();
    type Watches = ();
}

#[test]
fn servers_start_bare_and_grow() {
    let state = StewardState::builder()
        .catalogue(Arc::new(Catalogue::default()))
        .subjects(Arc::new(()))
        .relations(Arc::new(()))
        .custody(Arc::new(()))
        .bus(Arc::new(()))
        .admin(Arc::new(()))
        .persistence(Arc::new(()))
        .claimant_issuer(Arc::new(SharedIssuer::new(issuer())))
        .build()
        .ok()
        .unwrap();
    let server: Server<Unit> = Server::new(
        "/run/evo.sock".into(),
        Arc::new(()),
        state,
        Arc::new(()),
        Vec::new(),
    );
    assert_eq!(server.socket_path(), "/run/evo.sock");
    assert_eq!(server.resolution_ledger().count(), 0);
    assert_eq!(server.wiring(), NONE);
    assert!(server.desk.responder.is_none());
    assert_eq!(server.desk.steward_identity, StewardIdentity { uid: None, gid: None });
    let server = server
        .with_engine(Arc::new(()))
        .with_reconciliation(Arc::new(()))
        .with_prompt_ledger(Arc::new(()))
        .with_appointments(Arc::new(()))
        .with_watches(Arc::new(()))
        .with_fast_path(());
    assert_eq!(server.wiring(), ALL);
    assert!(server.fast_path.is_some());
    assert_eq!(server.desk.responder.unwrap().current_responder(), None);
}
