use evo::access::{ConnectionState, PeerCredentials};
use evo::claimant::{ClaimantToken, ClaimantTokenIssuer};
use evo::custody::{handle_list_active_custodies, CustodyRecord, CustodyStateKind};
use evo::happenings::{Happening, HappeningWire, RelationForgottenReason};
use evo::listings::{
    handle_list_relations, handle_list_subjects, ClaimedAddressing, RelationRow, SubjectRow,
};
use evo::projections::{
    AddressingEntry, RelatedSubject, RelationDirection, SubjectProjection, SubjectProjectionWire,
};
use evo::requests::HappeningFilter;
use evo::resolution::{handle_resolve_claimants, ResolutionLedger};
use evo::responses::ClientResponse;
use evo::subject_stream::{SubjectEvent, SubjectStream};
use evo::subjects::project_subject_reply;
use evo::subscription::{Envelope, Event, Observed, ReplayRow, Subscription};
use std::time::UNIX_EPOCH;

fn issuer() -> ClaimantTokenIssuer {
    ClaimantTokenIssuer::new("test-instance")
}

/// The name that a granted consumer gets for a token.
fn resolved(issuer: &ClaimantTokenIssuer, token: ClaimantToken) -> String {
    let mut conn =
        ConnectionState::new(PeerCredentials { uid: Some(1000), gid: Some(1000) }, 1);
    conn.granted_capabilities.insert("resolve_claimants".into());
    let response = handle_resolve_claimants(
        issuer,
        &mut ResolutionLedger::new(),
        &conn,
        vec![token.to_text()],
        UNIX_EPOCH,
    );
    match response {
        ClientResponse::Resolutions { mut resolutions } => {
            assert_eq!(resolutions.len(), 1);
            resolutions.remove(0).plugin_name
        }
        other => panic!("unexpected response: {other:?}"),
    }
}

fn custody_taken(plugin: &str) -> Happening {
    Happening::CustodyTaken {
        plugin: plugin.into(),
        handle_id: "c-1".into(),
        shelf: "x.y".into(),
        custody_type: "playback".into(),
        at: UNIX_EPOCH,
    }
}

fn observed(plugin: &str) -> Observed {
    Observed {
        happening: custody_taken(plugin),
        plugin: Some(plugin.into()),
        shelf: Some("x.y".into()),
    }
}

fn shown(frame: &ClientResponse) -> ClaimantToken {
    match frame {
        ClientResponse::Happening {
            happening: HappeningWire::CustodyTaken { claimant_token, .. },
            ..
        } => *claimant_token,
        other => panic!("unexpected frame: {other:?}"),
    }
}

fn projection(claimant: &str, related: Vec<RelatedSubject>) -> SubjectProjection {
    SubjectProjection {
        canonical_id: "a".into(),
        subject_type: "track".into(),
        addressings: vec![AddressingEntry {
            scheme: "s".into(),
            value: "v".into(),
            claimant: claimant.into(),
        }],
        related,
        composed_at: UNIX_EPOCH,
        shape_version: 1,
        claimants: vec![format!("{claimant}.source")],
        degraded: false,
        degraded_reasons: Vec::new(),
        walk_truncated: false,
    }
}

fn nested() -> SubjectProjection {
    let inner = RelatedSubject {
        predicate: "album_of".into(),
        direction: RelationDirection::Forward,
        target_id: "t".into(),
        target_type: None,
        relation_claimants: vec!["org.relation".into()],
        nested: Some(Box::new(projection("org.inner", Vec::new()))),
    };
    projection("org.outer", vec![inner])
}

fn assert_nested_resolves(issuer: &ClaimantTokenIssuer, w: &SubjectProjectionWire) {
    assert_eq!(resolved(issuer, w.addressings[0].claimant_token), "org.outer");
    assert_eq!(resolved(issuer, w.claimant_tokens[0]), "org.outer.source");
    let related = &w.related[0];
    assert_eq!(resolved(issuer, related.relation_claimant_tokens[0]), "org.relation");
    let inner = related.nested.as_ref().unwrap();
    assert_eq!(resolved(issuer, inner.addressings[0].claimant_token), "org.inner");
    assert_eq!(resolved(issuer, inner.claimant_tokens[0]), "org.inner.source");
}

#[test]
fn tokens_of_a_happening_resolve() {
    let mut issuer = issuer();
    let h = Happening::RelationForgotten {
        plugin: "org.r".into(),
        source_id: "s".into(),
        predicate: "p".into(),
        target_id: "t".into(),
        reason: RelationForgottenReason::ClaimsRetracted {
            retracting_plugin: "org.retractor".into(),
        },
        at: UNIX_EPOCH,
    };
    HappeningWire::from_happening(h, &mut issuer);
    let names: Vec<&str> = issuer.known.iter().map(|k| k.name.as_str()).collect();
    assert!(names.contains(&"org.r") && names.contains(&"org.retractor"));
    match HappeningWire::from_happening(custody_taken("org.a"), &mut issuer) {
        HappeningWire::CustodyTaken { claimant_token, .. } => {
            assert_eq!(resolved(&issuer, claimant_token), "org.a");
        }
        other => panic!("unexpected variant: {other:?}"),
    }
}

#[test]
fn tokens_of_custodies_resolve() {
    let mut issuer = issuer();
    let records = ["org.a", "org.b"]
        .iter()
        .map(|plugin| CustodyRecord {
            plugin: plugin.to_string(),
            handle_id: "c".into(),
            shelf: None,
            custody_type: None,
            last_state: None,
            state: CustodyStateKind::Active,
            started_at: UNIX_EPOCH,
            last_updated: UNIX_EPOCH,
        })
        .collect();
    match handle_list_active_custodies(records, &mut issuer) {
        ClientResponse::ActiveCustodies { active_custodies } => {
            assert_eq!(resolved(&issuer, active_custodies[0].claimant_token), "org.a");
            assert_eq!(resolved(&issuer, active_custodies[1].claimant_token), "org.b");
        }
        other => panic!("unexpected response: {other:?}"),
    }
}

#[test]
fn tokens_of_a_page_resolve_and_no_others_are_learned() {
    let mut issuer = issuer();
    let rows: Vec<SubjectRow> = ["a", "b"]
        .iter()
        .map(|id| SubjectRow {
            id: id.to_string(),
            subject_type: "track".into(),
            addressings: vec![ClaimedAddressing {
                scheme: "s".into(),
                value: "v".into(),
                claimant: format!("org.{id}"),
            }],
        })
        .collect();
    match handle_list_subjects(&rows, &mut issuer, 0, None, Some(1)) {
        ClientResponse::SubjectsPage { subjects, .. } => {
            let token = subjects[0].addressings[0].claimant_token;
            assert_eq!(resolved(&issuer, token), "org.a");
        }
        other => panic!("unexpected response: {other:?}"),
    }
    assert_eq!(issuer.known.len(), 1);
    let rows = vec![RelationRow {
        source_id: "s".into(),
        predicate: "p".into(),
        target_id: "t".into(),
        claimants: vec!["org.c".into(), "org.d".into()],
        suppression: None,
    }];
    match handle_list_relations(&rows, &mut issuer, 0, None, None) {
        ClientResponse::RelationsPage { relations, .. } => {
            assert_eq!(resolved(&issuer, relations[0].claimant_tokens[0]), "org.c");
            assert_eq!(resolved(&issuer, relations[0].claimant_tokens[1]), "org.d");
        }
        other => panic!("unexpected response: {other:?}"),
    }
    handle_list_relations(&rows, &mut issuer, 0, Some("!".into()), None);
    assert_eq!(issuer.known.len(), 3);
}

#[test]
fn tokens_of_a_projection_resolve_however_deep() {
    let mut first = issuer();
    match project_subject_reply(None, Ok(nested()), &mut first) {
        ClientResponse::Projection(w) => assert_nested_resolves(&first, &w),
        other => panic!("unexpected response: {other:?}"),
    }
    let mut second = issuer();
    let (mut sub, _) = SubjectStream::begin("a".to_string(), 3);
    let event = SubjectEvent::Projected { projection: Some(nested()) };
    match sub.step(event, &mut second).frame {
        Some(ClientResponse::ProjectionUpdate { projection: Some(w), .. }) => {
            assert_nested_resolves(&second, &w);
        }
        other => panic!("unexpected frame: {other:?}"),
    }
}

#[test]
fn tokens_of_a_subscription_resolve() {
    let mut issuer = issuer();
    let open =
        HappeningFilter { variants: Vec::new(), plugins: Vec::new(), shelves: Vec::new() };
    let (mut sub, _) = Subscription::begin(Some(1), open, false, 9);
    sub.step(Event::Oldest(Ok(1)), &mut issuer);
    let rows = vec![
        ReplayRow { seq: 2, decoded: Ok(observed("org.stored")) },
        ReplayRow { seq: 3, decoded: Ok(observed("org.stored.too")) },
    ];
    let turn = sub.step(Event::Rows(Ok(rows)), &mut issuer);
    assert_eq!(resolved(&issuer, shown(&turn.frames[0])), "org.stored");
    assert_eq!(resolved(&issuer, shown(&turn.frames[1])), "org.stored.too");
    let live = Envelope { seq: 10, observed: observed("org.live") };
    let turn = sub.step(Event::Live(live), &mut issuer);
    assert_eq!(resolved(&issuer, shown(&turn.frames[0])), "org.live");
    assert_eq!(issuer.known.len(), 3);
}

#[test]
fn a_token_goes_on_to_resolve() {
    let mut issuer = issuer();
    let token = issuer.token_for("org.a");
    issuer.record_version("org.b", "1.0");
    issuer.token_for("org.c");
    issuer.record_version("org.a", "2.0");
    assert_eq!(resolved(&issuer, token), "org.a");
    assert_eq!(
        issuer.resolve(&token.to_text()),
        Some(("org.a".to_string(), Some("2.0".to_string())))
    );
}
