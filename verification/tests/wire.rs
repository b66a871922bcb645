use base64::engine::general_purpose::STANDARD as B64;
use base64::Engine;
use evo::claimant::ClaimantTokenIssuer;
use evo::custody::{
    decode_payload, handle_list_active_custodies, CustodyRecord, CustodyRecordWire,
    CustodyStateKind, StateSnapshot, StateSnapshotWire,
};
use evo::happenings::{
    happening_kinds, Happening, HappeningWire, HealthStatus, RelationForgottenReason,
    RelationForgottenReasonWire,
};
use evo::projections::{
    AddressingEntry, DegradedReason, DegradedReasonKind, ProjectionScope, ProjectionScopeWire,
    RelatedSubject, RelationDirection, SubjectProjection, SubjectProjectionWire, WalkDirection,
    WalkDirectionWire, DEFAULT_MAX_DEPTH, DEFAULT_MAX_VISITS, MAX_PROJECTION_DEPTH,
    MAX_PROJECTION_VISITS,
};
use evo::responses::ClientResponse;
use evo::time::system_time_to_ms;
use std::time::{Duration, UNIX_EPOCH};

#[test]
fn walk_direction_wire_maps_to_domain() {
    assert!(matches!(
        WalkDirection::from(WalkDirectionWire::Forward),
        WalkDirection::Forward
    ));
    assert!(matches!(
        WalkDirection::from(WalkDirectionWire::Inverse),
        WalkDirection::Inverse
    ));
    assert!(matches!(WalkDirection::from(WalkDirectionWire::Both), WalkDirection::Both));
}

#[test]
fn projection_scope_wire_maps_to_domain() {
    let w = ProjectionScopeWire {
        relation_predicates: vec!["a".into(), "b".into()],
        direction: WalkDirectionWire::Inverse,
        max_depth: None,
        max_visits: None,
    };
    let d: ProjectionScope = w.into();
    assert_eq!(d.relation_predicates, vec!["a", "b"]);
    assert!(matches!(d.direction, WalkDirection::Inverse));
    assert_eq!(d.max_depth, DEFAULT_MAX_DEPTH);
    assert_eq!(d.max_visits, DEFAULT_MAX_VISITS);
}

#[test]
fn projection_scope_wire_overrides_depth_and_visits() {
    let w = ProjectionScopeWire {
        relation_predicates: vec!["a".into()],
        direction: WalkDirectionWire::Forward,
        max_depth: Some(7),
        max_visits: Some(42),
    };
    let d: ProjectionScope = w.into();
    assert_eq!(d.max_depth, 7);
    assert_eq!(d.max_visits, 42);
}

#[test]
fn projection_scope_wire_clamps_max_depth_and_max_visits() {
    let w = ProjectionScopeWire {
        relation_predicates: vec!["a".into()],
        direction: WalkDirectionWire::Forward,
        max_depth: Some(usize::MAX),
        max_visits: Some(usize::MAX),
    };
    let d: ProjectionScope = w.into();
    assert_eq!(d.max_depth, MAX_PROJECTION_DEPTH);
    assert_eq!(d.max_visits, MAX_PROJECTION_VISITS);
    assert_eq!(MAX_PROJECTION_DEPTH, 32);
    assert_eq!(MAX_PROJECTION_VISITS, 100_000);
}

#[test]
fn default_scope_follows_nothing() {
    let d: ProjectionScope = ProjectionScopeWire::default().into();
    assert!(d.relation_predicates.is_empty());
    assert_eq!(d.direction, WalkDirection::Forward);
}

#[test]
fn system_time_to_ms_handles_epoch() {
    assert_eq!(system_time_to_ms(UNIX_EPOCH), 0);
}

#[test]
fn system_time_to_ms_handles_future() {
    let one_second_past_epoch = UNIX_EPOCH + Duration::from_secs(1);
    assert_eq!(system_time_to_ms(one_second_past_epoch), 1000);
}

#[test]
fn system_time_to_ms_is_zero_before_the_epoch() {
    assert_eq!(system_time_to_ms(UNIX_EPOCH - Duration::from_secs(1)), 0);
    assert_eq!(system_time_to_ms(UNIX_EPOCH + Duration::from_micros(1999)), 1);
}

fn full_record() -> CustodyRecord {
    CustodyRecord {
        plugin: "org.test.warden".into(),
        handle_id: "c-1".into(),
        shelf: Some("example.custody".into()),
        custody_type: Some("playback".into()),
        last_state: Some(StateSnapshot {
            payload: b"state=x".to_vec(),
            health: HealthStatus::Degraded,
            reported_at: UNIX_EPOCH + Duration::from_millis(500),
        }),
        state: CustodyStateKind::Active,
        started_at: UNIX_EPOCH + Duration::from_millis(100),
        last_updated: UNIX_EPOCH + Duration::from_millis(500),
    }
}

#[test]
fn custody_record_wire_from_full_record() {
    let mut issuer = ClaimantTokenIssuer::new("test-instance");
    let expected = issuer.token_for("org.test.warden");
    let wire = CustodyRecordWire::from_record(full_record(), &mut issuer);
    assert_eq!(wire.claimant_token, expected);
    assert_eq!(wire.handle_id, "c-1");
    assert_eq!(wire.shelf.as_deref(), Some("example.custody"));
    assert_eq!(wire.custody_type.as_deref(), Some("playback"));
    assert_eq!(wire.started_at_ms, 100);
    assert_eq!(wire.last_updated_ms, 500);
    let state = wire.last_state.expect("state");
    assert_eq!(B64.decode(&state.payload_b64).unwrap(), b"state=x");
    assert_eq!(state.health, HealthStatus::Degraded);
    assert_eq!(state.reported_at_ms, 500);
}

#[test]
fn custody_record_wire_from_partial_record() {
    let rec = CustodyRecord {
        plugin: "org.test.warden".into(),
        handle_id: "c-1".into(),
        shelf: None,
        custody_type: None,
        last_state: None,
        state: CustodyStateKind::Active,
        started_at: UNIX_EPOCH + Duration::from_millis(100),
        last_updated: UNIX_EPOCH + Duration::from_millis(100),
    };
    let mut issuer = ClaimantTokenIssuer::new("test-instance");
    let wire = CustodyRecordWire::from_record(rec, &mut issuer);
    assert!(wire.shelf.is_none());
    assert!(wire.custody_type.is_none());
    assert!(wire.last_state.is_none());
}

#[test]
fn state_snapshot_wire_from_conversion() {
    let snap = StateSnapshot {
        payload: b"xyz".to_vec(),
        health: HealthStatus::Unhealthy,
        reported_at: UNIX_EPOCH + Duration::from_millis(2_500),
    };
    let wire = StateSnapshotWire::from_snapshot(snap);
    assert_eq!(B64.decode(&wire.payload_b64).unwrap(), b"xyz");
    assert_eq!(wire.payload_b64, "eHl6");
    assert_eq!(wire.health, HealthStatus::Unhealthy);
    assert_eq!(wire.reported_at_ms, 2_500);
}

#[test]
fn active_custodies_keep_their_order() {
    let mut issuer = ClaimantTokenIssuer::new("test-instance");
    let mut second = full_record();
    second.handle_id = "c-2".into();
    second.state = CustodyStateKind::Aborted { reason: "lost".into() };
    match handle_list_active_custodies(vec![full_record(), second], &mut issuer) {
        ClientResponse::ActiveCustodies { active_custodies } => {
            assert_eq!(active_custodies.len(), 2);
            assert_eq!(active_custodies[0].handle_id, "c-1");
            assert_eq!(active_custodies[1].handle_id, "c-2");
            assert!(matches!(
                &active_custodies[1].state,
                CustodyStateKind::Aborted { reason } if reason == "lost"
            ));
        }
        other => panic!("unexpected response: {other:?}"),
    }
    assert!(matches!(
        handle_list_active_custodies(Vec::new(), &mut issuer),
        ClientResponse::ActiveCustodies { active_custodies } if active_custodies.is_empty()
    ));
}

#[test]
fn payloads_decode_or_say_why_not() {
    assert_eq!(decode_payload("", "aGVsbG8=").unwrap(), b"hello");
    assert_eq!(decode_payload("", "").unwrap(), b"");
    let e = decode_payload("take_custody: ", "!!!").unwrap_err();
    assert!(e.message.starts_with("take_custody: invalid base64 payload: "));
    assert_eq!(e.details.unwrap()["subclass"].as_str(), Some("invalid_base64"));
}

#[test]
fn from_happening_flight_mode_changed_passes_through() {
    let mut issuer = ClaimantTokenIssuer::new("test-instance");
    let h = Happening::FlightModeChanged {
        rack_class: "flight_mode.wireless.bluetooth".into(),
        on: true,
        at: UNIX_EPOCH + Duration::from_millis(2_500),
    };
    match HappeningWire::from_happening(h, &mut issuer) {
        HappeningWire::FlightModeChanged { rack_class, on, at_ms } => {
            assert_eq!(rack_class, "flight_mode.wireless.bluetooth");
            assert!(on);
            assert_eq!(at_ms, 2_500);
        }
        other => panic!("unexpected variant: {other:?}"),
    }
}

#[test]
fn from_happening_translates_custody_taken_plugin_to_token() {
    let mut issuer = ClaimantTokenIssuer::new("test-instance");
    let expected = issuer.token_for("org.test.warden");
    let h = Happening::CustodyTaken {
        plugin: "org.test.warden".into(),
        handle_id: "c-1".into(),
        shelf: "example.custody".into(),
        custody_type: "playback".into(),
        at: UNIX_EPOCH + Duration::from_millis(1_500),
    };
    match HappeningWire::from_happening(h, &mut issuer) {
        HappeningWire::CustodyTaken { claimant_token, handle_id, at_ms, .. } => {
            assert_eq!(claimant_token, expected);
            assert_eq!(handle_id, "c-1");
            assert_eq!(at_ms, 1_500);
        }
        other => panic!("unexpected variant: {other:?}"),
    }
}

#[test]
fn from_happening_translates_admin_plugin_and_target_to_tokens() {
    let mut issuer = ClaimantTokenIssuer::new("test-instance");
    let admin_expected = issuer.token_for("org.admin");
    let target_expected = issuer.token_for("org.target");
    let h = Happening::SubjectAddressingForcedRetract {
        admin_plugin: "org.admin".into(),
        target_plugin: "org.target".into(),
        canonical_id: "subj".into(),
        scheme: "s".into(),
        value: "v".into(),
        reason: Some("test".into()),
        at: UNIX_EPOCH,
    };
    match HappeningWire::from_happening(h, &mut issuer) {
        HappeningWire::SubjectAddressingForcedRetract { admin_token, target_token, .. } => {
            assert_eq!(admin_token, admin_expected);
            assert_eq!(target_token, target_expected);
        }
        other => panic!("unexpected variant: {other:?}"),
    }
}

#[test]
fn from_happening_translates_relation_forgotten_reason_token() {
    let mut issuer = ClaimantTokenIssuer::new("test-instance");
    let expected = issuer.token_for("org.retractor");
    let h = Happening::RelationForgotten {
        plugin: "org.r".into(),
        source_id: "s".into(),
        predicate: "p".into(),
        target_id: "t".into(),
        reason: RelationForgottenReason::ClaimsRetracted {
            retracting_plugin: "org.retractor".into(),
        },
        at: UNIX_EPOCH,
    };
    match HappeningWire::from_happening(h, &mut issuer) {
        HappeningWire::RelationForgotten { reason, .. } => match reason {
            RelationForgottenReasonWire::ClaimsRetracted { retracting_claimant_token } => {
                assert_eq!(retracting_claimant_token, expected);
            }
            other => panic!("unexpected reason: {other:?}"),
        },
        other => panic!("unexpected variant: {other:?}"),
    }
}

#[test]
fn wire_form_never_carries_plugin_name_string_for_custody() {
    let mut issuer = ClaimantTokenIssuer::new("test-instance");
    let h = Happening::CustodyTaken {
        plugin: "org.secret.plugin".into(),
        handle_id: "c-1".into(),
        shelf: "example.custody".into(),
        custody_type: "playback".into(),
        at: UNIX_EPOCH,
    };
    let s = format!("{:?}", HappeningWire::from_happening(h, &mut issuer));
    assert!(!s.contains("plugin"), "plugin name must not appear on the wire; got: {s}");
    assert!(!s.contains("org.secret.plugin"));
    assert!(s.contains("claimant_token"));
}

#[test]
fn kinds_are_ascending_and_complete() {
    let kinds = happening_kinds();
    assert_eq!(kinds.len(), 54);
    for pair in kinds.windows(2) {
        assert!(pair[0] < pair[1], "{} before {}", pair[0], pair[1]);
    }
    let h = Happening::FlightModeChanged {
        rack_class: "flight_mode.wifi".into(),
        on: false,
        at: UNIX_EPOCH,
    };
    assert_eq!(h.kind(), "flight_mode_changed");
    assert!(kinds.contains(&h.kind()));
}

#[test]
fn tokens_read_as_sixteen_hex_digits() {
    let mut issuer = ClaimantTokenIssuer::new("test-instance");
    let a = issuer.token_for("org.a");
    let text = a.to_text();
    assert_eq!(text.len(), 16);
    assert!(text.chars().all(|c| c.is_ascii_hexdigit()));
    assert_eq!(a, issuer.token_for("org.a"));
    assert_ne!(a, issuer.token_for("org.b"));
    assert_ne!(a, ClaimantTokenIssuer::new("other").token_for("org.a"));
    assert_eq!(issuer.resolve(&text), Some(("org.a".to_string(), None)));
    issuer.record_version("org.a", "1.0");
    assert_eq!(
        issuer.resolve(&text),
        Some(("org.a".to_string(), Some("1.0".to_string())))
    );
    assert_eq!(issuer.resolve("never-issued"), None);
    let both = issuer.tokens_for(&vec!["org.a".to_string(), "org.b".to_string()]);
    assert_eq!(both, vec![a, issuer.token_for("org.b")]);
}

fn projection(id: &str, related: Vec<RelatedSubject>) -> SubjectProjection {
    SubjectProjection {
        canonical_id: id.into(),
        subject_type: "track".into(),
        addressings: vec![AddressingEntry {
            scheme: "s".into(),
            value: "v".into(),
            claimant: "org.a".into(),
        }],
        related,
        composed_at: UNIX_EPOCH + Duration::from_millis(7),
        shape_version: 1,
        claimants: vec!["org.a".into(), "org.b".into()],
        degraded: true,
        degraded_reasons: vec![DegradedReason {
            kind: DegradedReasonKind::SubjectInConflict,
            detail: Some("x".into()),
        }],
        walk_truncated: false,
    }
}

#[test]
fn projections_nest_on_the_wire() {
    let mut issuer = ClaimantTokenIssuer::new("test-instance");
    let inner = RelatedSubject {
        predicate: "album_of".into(),
        direction: RelationDirection::Inverse,
        target_id: "t".into(),
        target_type: None,
        relation_claimants: vec!["org.c".into()],
        nested: Some(Box::new(projection("inner", Vec::new()))),
    };
    let w = SubjectProjectionWire::from_projection(projection("outer", vec![inner]), &mut issuer);
    assert_eq!(w.canonical_id, "outer");
    assert_eq!(w.composed_at_ms, 7);
    let (a, b) = (issuer.token_for("org.a"), issuer.token_for("org.b"));
    assert_eq!(w.claimant_tokens, vec![a, b]);
    assert_eq!(w.addressings[0].claimant_token, a);
    assert_eq!(w.degraded_reasons[0].kind, "subject_in_conflict");
    assert_eq!(w.related[0].direction, "inverse");
    assert_eq!(w.related[0].relation_claimant_tokens, vec![issuer.token_for("org.c")]);
    assert_eq!(w.related[0].nested.as_ref().unwrap().canonical_id, "inner");
}
