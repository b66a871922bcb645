use evo::source_verb_dispatch::{
    check_shape, request_for, scheme_of, DefaultSourceVerbDispatcher, DispatchAction,
    DispatchError, DispatchEvent, DispatchOutcome, ItemUri, LifecycleOutcome, LocatedPlugin,
    ManifestFacts, Phase, SourceClaim, SourceVerb, VerbApprover, VerbCall, AUDIO_ACTIVE_SOURCE,
};

type Dispatcher = DefaultSourceVerbDispatcher<(), (), (), (), ()>;

fn dispatcher() -> Dispatcher {
    DefaultSourceVerbDispatcher::new((), (), ())
}

fn user() -> VerbApprover {
    VerbApprover::User { uid: 1000 }
}

fn play(uri: &str) -> VerbCall {
    VerbCall::PlayNow { uri: ItemUri::new(uri) }
}

fn collection(uris: &[&str]) -> VerbCall {
    VerbCall::PlayNowCollection { uris: uris.iter().map(|u| ItemUri::new(u)).collect() }
}

fn located(shelf: &str) -> DispatchEvent {
    DispatchEvent::Plugin(Some(LocatedPlugin { shelf: shelf.into(), manifest: None }))
}

fn held(plugin: &str) -> DispatchEvent {
    DispatchEvent::CurrentClaim(Ok(Some(SourceClaim { holder_plugin: Some(plugin.into()) })))
}

/// Feeds the events one after the other and returns every action.
fn drive(
    d: &Dispatcher,
    who: VerbApprover,
    call: VerbCall,
    events: Vec<DispatchEvent>,
) -> Vec<DispatchAction> {
    let (mut state, first) = d.begin(who, call);
    let mut actions = vec![first];
    for event in events {
        let (next, action) = state.step(event);
        state = next;
        actions.push(action);
    }
    assert_eq!(state.phase, Phase::Done);
    actions
}

fn finished(actions: &mut Vec<DispatchAction>) -> Result<DispatchOutcome, DispatchError> {
    match actions.pop() {
        Some(DispatchAction::Finish(r)) => r,
        other => panic!("the dispatch is not over: {other:?}"),
    }
}

#[test]
fn approver_displays_with_kind_prefix() {
    assert_eq!(VerbApprover::User { uid: 1000 }.to_text(), "user:1000");
    assert_eq!(VerbApprover::Plan { plan_id: "morning".to_string() }.to_text(), "plan:morning");
    assert_eq!(
        VerbApprover::System { reason: "preempt-restore".to_string() }.to_text(),
        "system:preempt-restore"
    );
}

#[test]
fn verb_call_acquires_custody_for_play_now_class() {
    assert!(play("scheme:item").acquires_custody());
    assert!(collection(&["scheme:item"]).acquires_custody());
}

#[test]
fn scheme_of_extracts_prefix() {
    assert_eq!(scheme_of("spotify:track:abc").unwrap(), "spotify");
    assert_eq!(scheme_of("file:/var/lib/song.flac").unwrap(), "file");
    assert!(scheme_of("no-colon-here").is_err());
    assert!(scheme_of(":no-scheme").is_err());
    assert!(scheme_of("").is_err());
}

#[test]
fn dispatch_outcome_carries_handler_shelf_and_custody_flag() {
    let o = DispatchOutcome {
        handler_shelf: "com.example.audio".into(),
        acquired_custody: true,
    };
    assert_eq!(o.handler_shelf, "com.example.audio");
    assert!(o.acquired_custody);
}

#[test]
fn stop_verb_call_does_not_acquire_custody_but_releases_it() {
    let stop = VerbCall::Stop;
    assert!(!stop.acquires_custody());
    assert!(stop.releases_custody());
    assert!(!stop.resolves_via_uri());
    assert!(stop.primary_uri().is_none());
    assert_eq!(stop.verb(), SourceVerb::Stop);
}

#[test]
fn transport_verbs_resolve_via_holder_and_retain_custody() {
    for (call, verb) in [
        (VerbCall::Pause, SourceVerb::Pause),
        (VerbCall::Resume, SourceVerb::Resume),
        (VerbCall::Seek { position_ms: 12_500 }, SourceVerb::Seek),
        (VerbCall::Next, SourceVerb::Next),
        (VerbCall::Previous, SourceVerb::Previous),
    ] {
        assert_eq!(call.verb(), verb, "verb mapping for {verb:?}");
        assert!(!call.acquires_custody(), "{verb:?} must not acquire custody");
        assert!(!call.releases_custody(), "{verb:?} must not release custody");
        assert!(!call.resolves_via_uri(), "{verb:?} must not resolve via URI");
        assert!(call.primary_uri().is_none(), "{verb:?} must not carry a primary URI");
    }
}

#[test]
fn play_now_against_unregistered_scheme_refuses() {
    let mut actions = drive(
        &dispatcher(),
        user(),
        play("ghost:track:1"),
        vec![DispatchEvent::SchemeLookup(Ok(None))],
    );
    match finished(&mut actions) {
        Err(DispatchError::UriSchemeNotRegistered { scheme }) => assert_eq!(scheme, "ghost"),
        other => panic!("unexpected result: {other:?}"),
    }
}

#[test]
fn play_now_collection_empty_refuses() {
    let mut actions = drive(&dispatcher(), user(), collection(&[]), Vec::new());
    assert!(matches!(finished(&mut actions), Err(DispatchError::EmptyCollection)));
}

#[test]
fn play_now_collection_heterogeneous_schemes_refuses() {
    let mut actions = drive(
        &dispatcher(),
        user(),
        collection(&["spotify:track:a", "file:song.flac"]),
        Vec::new(),
    );
    match finished(&mut actions) {
        Err(DispatchError::CollectionSchemeMismatch { first_scheme, other_scheme }) => {
            assert_eq!(first_scheme, "spotify");
            assert_eq!(other_scheme, "file");
        }
        other => panic!("unexpected result: {other:?}"),
    }
}

#[test]
fn play_now_against_registered_scheme_with_no_plugin_routes_to_router() {
    let mut actions = drive(
        &dispatcher(),
        VerbApprover::Plan { plan_id: "morning".to_string() },
        play("spotify:track:1"),
        vec![
            DispatchEvent::SchemeLookup(Ok(Some("com.example.spotify".into()))),
            DispatchEvent::ClaimRecorded(Ok(())),
            DispatchEvent::Plugin(None),
        ],
    );
    match finished(&mut actions) {
        Err(DispatchError::RouterError(text)) => {
            assert_eq!(text, "no plugin on shelf: com.example.spotify");
        }
        other => panic!("unexpected result: {other:?}"),
    }
    match &actions[1] {
        DispatchAction::RecordClaim { holder, uri, params } => {
            assert_eq!(holder, "com.example.spotify");
            assert_eq!(uri, "spotify:track:1");
            assert!(params.contains("plan:morning"));
            assert!(params.contains("play_now"));
        }
        other => panic!("unexpected action: {other:?}"),
    }
    assert_eq!(AUDIO_ACTIVE_SOURCE, "audio.active_source");
}

#[test]
fn unsupported_verb_path_is_unreachable_via_typed_calls() {
    let err = DispatchError::UnsupportedVerb(SourceVerb::Enqueue);
    assert!(err.to_text().contains("Enqueue"));
}

#[test]
fn router_failure_records_lifecycle_failed_entry() {
    let d = dispatcher().with_ledger(());
    let mut actions = drive(
        &d,
        VerbApprover::Plan { plan_id: "morning".to_string() },
        play("spotify:track:1"),
        vec![
            DispatchEvent::SchemeLookup(Ok(Some("com.example.spotify".into()))),
            DispatchEvent::ClaimRecorded(Ok(())),
            DispatchEvent::Plugin(None),
            DispatchEvent::AuditAppended,
        ],
    );
    assert!(matches!(finished(&mut actions), Err(DispatchError::RouterError(_))));
    match actions.pop() {
        Some(DispatchAction::AppendAudit { approver, handler, payload, outcome }) => {
            assert_eq!(approver, "plan:morning");
            assert_eq!(handler, "com.example.spotify");
            assert!(matches!(outcome, LifecycleOutcome::Failed { .. }));
            assert_eq!(payload.verb, "play_now");
            assert_eq!(payload.primary_uri.as_deref(), Some("spotify:track:1"));
            assert_eq!(payload.uri_count, 1);
            assert!(payload.acquired_custody);
        }
        other => panic!("unexpected action: {other:?}"),
    }
}

#[test]
fn pre_resolution_failure_does_not_record() {
    let d = dispatcher().with_ledger(());
    let actions = drive(
        &d,
        user(),
        play("ghost:track:1"),
        vec![DispatchEvent::SchemeLookup(Ok(None))],
    );
    assert!(!actions.iter().any(|a| matches!(a, DispatchAction::AppendAudit { .. })));
    let actions = drive(&d, user(), collection(&[]), Vec::new());
    assert!(!actions.iter().any(|a| matches!(a, DispatchAction::AppendAudit { .. })));
}

#[test]
fn play_now_collection_records_uri_count() {
    let d = dispatcher().with_ledger(());
    let actions = drive(
        &d,
        user(),
        collection(&["spotify:track:a", "spotify:track:b", "spotify:track:c"]),
        vec![
            DispatchEvent::SchemeLookup(Ok(Some("com.example.spotify".into()))),
            DispatchEvent::ClaimRecorded(Ok(())),
            DispatchEvent::Plugin(None),
            DispatchEvent::AuditAppended,
        ],
    );
    let entries: Vec<_> = actions
        .iter()
        .filter_map(|a| match a {
            DispatchAction::AppendAudit { payload, .. } => Some(payload),
            _ => None,
        })
        .collect();
    assert_eq!(entries.len(), 1);
    assert_eq!(entries[0].verb, "play_now_collection");
    assert_eq!(entries[0].uri_count, 3);
    assert_eq!(entries[0].primary_uri.as_deref(), Some("spotify:track:a"));
}

#[test]
fn handled_collections_name_their_shelf() {
    let d = dispatcher().with_ledger(());
    let mut actions = drive(
        &d,
        user(),
        collection(&["spotify:track:a", "spotify:track:b"]),
        vec![
            DispatchEvent::SchemeLookup(Ok(Some("com.example.spotify".into()))),
            DispatchEvent::ClaimRecorded(Ok(())),
            located("audio.spotify"),
            DispatchEvent::RequestHandled(Ok(())),
            DispatchEvent::AuditAppended,
        ],
    );
    let outcome = finished(&mut actions).unwrap();
    assert_eq!(outcome.handler_shelf, "audio.spotify");
    assert!(outcome.acquired_custody);
    match actions.pop() {
        Some(DispatchAction::AppendAudit { approver, outcome, .. }) => {
            assert_eq!(approver, "user:1000");
            assert!(matches!(outcome, LifecycleOutcome::Success));
        }
        other => panic!("unexpected action: {other:?}"),
    }
}

#[test]
fn transport_verbs_with_no_active_source_refuse() {
    for (call, verb) in [
        (VerbCall::Pause, SourceVerb::Pause),
        (VerbCall::Resume, SourceVerb::Resume),
        (VerbCall::Seek { position_ms: 0 }, SourceVerb::Seek),
        (VerbCall::Next, SourceVerb::Next),
        (VerbCall::Previous, SourceVerb::Previous),
    ] {
        let mut actions =
            drive(&dispatcher(), user(), call, vec![DispatchEvent::CurrentClaim(Ok(None))]);
        match finished(&mut actions) {
            Err(DispatchError::NoActiveSource { verb: refused }) => assert_eq!(refused, verb),
            other => panic!("{verb:?}: unexpected result: {other:?}"),
        }
    }
}

#[test]
fn transport_verbs_dispatch_against_holder_without_releasing_custody() {
    for call in [
        VerbCall::Pause,
        VerbCall::Resume,
        VerbCall::Seek { position_ms: 5_000 },
        VerbCall::Next,
        VerbCall::Previous,
    ] {
        let verb = call.verb();
        let mut actions = drive(
            &dispatcher().with_ledger(()),
            user(),
            call,
            vec![
                held("com.example.spotify"),
                DispatchEvent::Plugin(None),
                DispatchEvent::AuditAppended,
            ],
        );
        assert!(
            matches!(finished(&mut actions), Err(DispatchError::RouterError(_))),
            "{verb:?}: expected RouterError (no plugin on holder shelf)"
        );
        assert!(
            !actions.iter().any(|a| matches!(a, DispatchAction::ReleaseCustody)),
            "{verb:?}: custody must be retained even when dispatch fails"
        );
    }
}

#[test]
fn handled_transport_verbs_retain_custody() {
    for call in [VerbCall::Pause, VerbCall::Seek { position_ms: 5_000 }, VerbCall::Next] {
        let mut actions = drive(
            &dispatcher().with_bus(()),
            user(),
            call,
            vec![
                held("com.example.spotify"),
                located("audio.spotify"),
                DispatchEvent::RequestHandled(Ok(())),
            ],
        );
        let outcome = finished(&mut actions).unwrap();
        assert_eq!(outcome.handler_shelf, "audio.spotify");
        assert!(!outcome.acquired_custody);
        assert!(!actions.iter().any(|a| matches!(a, DispatchAction::ReleaseCustody)));
    }
}

#[test]
fn seek_payload_carries_position_ms() {
    let call = VerbCall::Seek { position_ms: 42_000 };
    assert_eq!(call.verb(), SourceVerb::Seek);
    assert!(call.primary_uri().is_none());
    let r = request_for(&call);
    assert_eq!(r.request_type, "seek");
    let v: serde_json::Value = serde_json::from_slice(&r.payload).unwrap();
    assert_eq!(v["v"].as_u64(), Some(1));
    assert_eq!(v["position_ms"].as_u64(), Some(42_000));
}

#[test]
fn collection_payloads_carry_every_uri() {
    let r = request_for(&collection(&["a:1", "a:2"]));
    let v: serde_json::Value = serde_json::from_slice(&r.payload).unwrap();
    assert_eq!(v["v"].as_u64(), Some(1));
    assert_eq!(v["uris"][1].as_str(), Some("a:2"));
}

#[test]
fn stop_dispatches_against_holder_then_releases_custody() {
    // A refused stop leaves the claim in place.
    let mut actions = drive(
        &dispatcher().with_ledger(()),
        user(),
        VerbCall::Stop,
        vec![
            held("com.example.spotify"),
            DispatchEvent::Plugin(None),
            DispatchEvent::AuditAppended,
        ],
    );
    assert!(matches!(finished(&mut actions), Err(DispatchError::RouterError(_))));
    assert!(!actions.iter().any(|a| matches!(a, DispatchAction::ReleaseCustody)));
    assert!(matches!(
        actions.pop(),
        Some(DispatchAction::AppendAudit { outcome: LifecycleOutcome::Failed { .. }, .. })
    ));

    let mut actions = drive(
        &dispatcher().with_bus(()).with_ledger(()),
        user(),
        VerbCall::Stop,
        vec![
            held("com.example.spotify"),
            located("audio.spotify"),
            DispatchEvent::RequestHandled(Ok(())),
            DispatchEvent::CustodyReleased,
            DispatchEvent::PlaybackEndedEmitted,
            DispatchEvent::AuditAppended,
        ],
    );
    assert!(finished(&mut actions).is_ok());
    assert!(matches!(actions[3], DispatchAction::ReleaseCustody));
    match &actions[4] {
        DispatchAction::EmitPlaybackEnded { source_plugin, .. } => {
            assert_eq!(source_plugin, "com.example.spotify");
        }
        other => panic!("unexpected action: {other:?}"),
    }
}

#[test]
fn stop_records_audit_entry_with_correct_shape() {
    let mut actions = drive(
        &dispatcher().with_ledger(()),
        VerbApprover::User { uid: 4242 },
        VerbCall::Stop,
        vec![
            held("com.example.spotify"),
            DispatchEvent::Plugin(None),
            DispatchEvent::AuditAppended,
        ],
    );
    let _ = finished(&mut actions);
    match actions.pop() {
        Some(DispatchAction::AppendAudit { approver, handler, payload, .. }) => {
            assert_eq!(approver, "user:4242");
            assert_eq!(handler, "com.example.spotify");
            assert_eq!(payload.verb, "stop");
            assert!(payload.primary_uri.is_none());
            assert_eq!(payload.uri_count, 0);
            assert!(!payload.acquired_custody);
        }
        other => panic!("unexpected action: {other:?}"),
    }
}

#[test]
fn stop_with_no_active_source_refuses() {
    let mut actions = drive(
        &dispatcher(),
        user(),
        VerbCall::Stop,
        vec![DispatchEvent::CurrentClaim(Ok(None))],
    );
    match finished(&mut actions) {
        Err(DispatchError::NoActiveSource { verb }) => assert_eq!(verb, SourceVerb::Stop),
        other => panic!("unexpected result: {other:?}"),
    }
    assert_eq!(actions.len(), 1);
}

#[test]
fn stop_with_released_custody_refuses() {
    // The claim on "spotify:track:1" by "com.example.spotify" was released: it is
    // still on record, without a holder.
    let released = SourceClaim { holder_plugin: None };
    let mut actions = drive(
        &dispatcher(),
        user(),
        VerbCall::Stop,
        vec![DispatchEvent::CurrentClaim(Ok(Some(released)))],
    );
    assert!(matches!(finished(&mut actions), Err(DispatchError::NoActiveSource { .. })));
}

#[test]
fn stop_with_no_holder_does_not_emit_audio_playback_ended() {
    let actions = drive(
        &dispatcher().with_bus(()),
        user(),
        VerbCall::Stop,
        vec![DispatchEvent::CurrentClaim(Ok(None))],
    );
    assert!(!actions.iter().any(|a| matches!(
        a,
        DispatchAction::ReleaseCustody | DispatchAction::EmitPlaybackEnded { .. }
    )));
}

#[test]
fn no_bus_wired_dispatch_path_runs_cleanly() {
    let mut actions = drive(
        &dispatcher().with_ledger(()),
        user(),
        VerbCall::Stop,
        vec![DispatchEvent::CurrentClaim(Ok(None))],
    );
    assert!(matches!(finished(&mut actions), Err(DispatchError::NoActiveSource { .. })));
}

#[test]
fn a_stop_without_a_bus_still_releases() {
    let mut actions = drive(
        &dispatcher(),
        user(),
        VerbCall::Stop,
        vec![
            held("com.example.spotify"),
            located("audio.spotify"),
            DispatchEvent::RequestHandled(Ok(())),
            DispatchEvent::CustodyReleased,
        ],
    );
    assert!(finished(&mut actions).is_ok());
    assert!(matches!(actions.pop(), Some(DispatchAction::ReleaseCustody)));
}

#[test]
fn no_ledger_wired_dispatch_runs_cleanly() {
    let mut actions = drive(
        &dispatcher(),
        user(),
        play("ghost:track:1"),
        vec![DispatchEvent::SchemeLookup(Ok(None))],
    );
    assert!(matches!(
        finished(&mut actions),
        Err(DispatchError::UriSchemeNotRegistered { .. })
    ));
}

#[test]
fn empty_collection_pre_resolution_failure_does_not_record() {
    let mut actions =
        drive(&dispatcher().with_ledger(()), user(), collection(&[]), Vec::new());
    assert!(matches!(finished(&mut actions), Err(DispatchError::EmptyCollection)));
    assert!(actions.is_empty());
}

#[test]
fn approver_user_lands_on_subject_plugin_with_uid_format() {
    let mut actions = drive(
        &dispatcher().with_ledger(()),
        VerbApprover::User { uid: 4242 },
        play("spotify:track:1"),
        vec![
            DispatchEvent::SchemeLookup(Ok(Some("com.example.spotify".into()))),
            DispatchEvent::ClaimRecorded(Ok(())),
            DispatchEvent::Plugin(None),
            DispatchEvent::AuditAppended,
        ],
    );
    let _ = finished(&mut actions);
    assert!(matches!(
        actions.pop(),
        Some(DispatchAction::AppendAudit { approver, .. }) if approver == "user:4242"
    ));
}

#[test]
fn stop_dispatch_failure_does_not_emit_audio_playback_ended() {
    let actions = drive(
        &dispatcher().with_bus(()),
        user(),
        VerbCall::Stop,
        vec![held("com.example.spotify"), DispatchEvent::Plugin(None)],
    );
    assert!(!actions.iter().any(|a| matches!(
        a,
        DispatchAction::ReleaseCustody | DispatchAction::EmitPlaybackEnded { .. }
    )));
}

#[test]
fn refused_stops_keep_custody_and_stay_silent() {
    let actions = drive(
        &dispatcher().with_bus(()),
        user(),
        VerbCall::Stop,
        vec![
            held("com.example.spotify"),
            located("audio.spotify"),
            DispatchEvent::RequestHandled(Err("busy".into())),
        ],
    );
    assert!(!actions.iter().any(|a| matches!(
        a,
        DispatchAction::ReleaseCustody | DispatchAction::EmitPlaybackEnded { .. }
    )));
}

#[test]
fn wardens_that_respond_get_custody_first() {
    let warden = DispatchEvent::Plugin(Some(LocatedPlugin {
        shelf: "audio.spotify".into(),
        manifest: Some(ManifestFacts {
            is_warden: true,
            is_respondent: true,
            custody_domain: Some("playback".into()),
        }),
    }));
    let actions = drive(
        &dispatcher(),
        user(),
        play("spotify:track:1"),
        vec![
            DispatchEvent::SchemeLookup(Ok(Some("com.example.spotify".into()))),
            DispatchEvent::ClaimRecorded(Ok(())),
            warden,
            DispatchEvent::CustodyTried,
            DispatchEvent::RequestHandled(Ok(())),
        ],
    );
    match &actions[3] {
        DispatchAction::TakeCustody { shelf, custody_domain } => {
            assert_eq!(shelf, "audio.spotify");
            assert_eq!(custody_domain, "playback");
        }
        other => panic!("unexpected action: {other:?}"),
    }
}

#[test]
fn failed_arbitration_is_reported() {
    let mut actions = drive(
        &dispatcher(),
        user(),
        play("spotify:track:1"),
        vec![
            DispatchEvent::SchemeLookup(Ok(Some("p".into()))),
            DispatchEvent::ClaimRecorded(Err("disk".into())),
        ],
    );
    assert!(matches!(
        finished(&mut actions),
        Err(DispatchError::CustodyArbitrationFailed(text)) if text == "disk"
    ));
}

#[test]
fn uris_without_a_scheme_are_invalid() {
    let mut actions = drive(
        &dispatcher(),
        user(),
        play("no-colon"),
        vec![DispatchEvent::SchemeLookup(Ok(None))],
    );
    assert!(matches!(
        finished(&mut actions),
        Err(DispatchError::InvalidUri(text)) if text == "no-colon"
    ));
    assert!(check_shape(&play("no-colon")).is_ok());
    assert!(matches!(
        check_shape(&collection(&["a:1", "no-colon"])),
        Err(DispatchError::InvalidUri(_))
    ));
}
