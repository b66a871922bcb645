use evo::access::{
    negotiable_capabilities, negotiate, CapabilityRule, ClientAcl, ConnectionIds, ConnectionState,
    PeerCredentials, ResponderLock, StewardIdentity, CAPABILITY_FAST_PATH_ADMIN,
    CAPABILITY_RESOLVE_CLAIMANTS, CAPABILITY_USER_INTERACTION_RESPONDER,
};
use evo::claimant::ClaimantTokenIssuer;
use evo::connection::end_connection;
use evo::errors::ErrorClass;
use evo::resolution::{handle_resolve_claimants, ResolutionLedger};
use evo::responses::ClientResponse;
use std::time::UNIX_EPOCH;

fn peer(uid: u32) -> PeerCredentials {
    PeerCredentials { uid: Some(uid), gid: Some(uid) }
}

fn steward(uid: u32) -> StewardIdentity {
    StewardIdentity { uid: Some(uid), gid: Some(uid) }
}

fn wide_rule() -> CapabilityRule {
    CapabilityRule {
        allow_local: true,
        allow_uids: vec![0, 1, 1000],
        allow_gids: vec![0, 1, 1000],
    }
}

fn wide_acl() -> ClientAcl {
    ClientAcl {
        resolve_claimants: wide_rule(),
        plugins_admin: wide_rule(),
        reconciliation_admin: wide_rule(),
        fast_path_admin: wide_rule(),
        user_interaction_responder: wide_rule(),
        appointments_admin: wide_rule(),
        watches_admin: wide_rule(),
        grammar_admin: wide_rule(),
    }
}

fn ask(names: &[&str]) -> Vec<String> {
    names.iter().map(|n| n.to_string()).collect()
}

#[test]
fn negotiable_capabilities_are_all_gated() {
    let request: Vec<String> =
        negotiable_capabilities().iter().map(|s| s.to_string()).collect();
    let mut lock = Some(ResponderLock::new());
    let mut conn = ConnectionState::new(peer(1000), 1);
    let granted = negotiate(&request, &wide_acl(), steward(1000), &mut lock, &mut conn);
    for name in &request {
        assert!(granted.contains(name), "{name:?} was dropped");
    }
    assert_eq!(request.len(), 8);
}

#[test]
fn negotiate_refuses_resolve_claimants_when_peer_cred_failed() {
    let mut lock = None;
    let mut conn = ConnectionState::new(PeerCredentials { uid: None, gid: None }, 1);
    let granted = negotiate(
        &ask(&["resolve_claimants"]),
        &ClientAcl::default(),
        steward(1234),
        &mut lock,
        &mut conn,
    );
    assert!(!granted.iter().any(|g| g == "resolve_claimants"));
    assert!(!conn.has(CAPABILITY_RESOLVE_CLAIMANTS));
}

#[test]
fn negotiate_with_empty_capability_list_returns_empty_granted_set() {
    let mut lock = None;
    let mut conn = ConnectionState::new(peer(0), 1);
    let granted =
        negotiate(&Vec::new(), &ClientAcl::default(), steward(0), &mut lock, &mut conn);
    assert!(granted.is_empty());
    assert!(conn.granted_capabilities.is_empty());
}

#[test]
fn negotiate_drops_unknown_capability_names_silently() {
    let mut lock = None;
    let mut conn = ConnectionState::new(peer(0), 1);
    let granted = negotiate(
        &ask(&["resolve_claimants", "made_up_capability_v999"]),
        &ClientAcl::default(),
        steward(0),
        &mut lock,
        &mut conn,
    );
    assert!(granted.contains(&"resolve_claimants".to_string()));
    assert!(!granted.iter().any(|g| g == "made_up_capability_v999"));
}

#[test]
fn negotiate_records_granted_set_on_connection_state() {
    let mut lock = None;
    let mut conn = ConnectionState::new(peer(1234), 1);
    assert!(conn.granted_capabilities.is_empty());
    let _ = negotiate(
        &ask(&["resolve_claimants"]),
        &ClientAcl::default(),
        steward(1234),
        &mut lock,
        &mut conn,
    );
    assert!(conn.has("resolve_claimants"));
}

#[test]
fn negotiate_again_replaces_the_granted_set() {
    let mut lock = None;
    let mut conn = ConnectionState::new(peer(1000), 1);
    let acl = ClientAcl::default();
    negotiate(
        &ask(&["plugins_admin", "plugins_admin", "grammar_admin"]),
        &acl,
        steward(1000),
        &mut lock,
        &mut conn,
    );
    assert!(conn.has("plugins_admin") && conn.has("grammar_admin"));
    let granted =
        negotiate(&ask(&["watches_admin"]), &acl, steward(1000), &mut lock, &mut conn);
    assert_eq!(granted, vec!["watches_admin"]);
    assert!(!conn.has("plugins_admin") && !conn.has("grammar_admin"));
}

#[test]
fn negotiate_grants_each_name_once_in_order() {
    let mut lock = None;
    let mut conn = ConnectionState::new(peer(1000), 1);
    let granted = negotiate(
        &ask(&["watches_admin", "nope", "plugins_admin", "watches_admin"]),
        &ClientAcl::default(),
        steward(1000),
        &mut lock,
        &mut conn,
    );
    assert_eq!(granted, vec!["watches_admin", "plugins_admin"]);
}

#[test]
fn fast_path_admin_negotiates_to_local_steward_uid() {
    let mut lock = None;
    let mut conn = ConnectionState::new(peer(1000), 1);
    let granted = negotiate(
        &ask(&[CAPABILITY_FAST_PATH_ADMIN]),
        &ClientAcl::default(),
        steward(1000),
        &mut lock,
        &mut conn,
    );
    assert!(granted.iter().any(|g| g == CAPABILITY_FAST_PATH_ADMIN));
    assert!(conn.has(CAPABILITY_FAST_PATH_ADMIN));
}

#[test]
fn fast_path_admin_refuses_when_peer_uid_does_not_match() {
    let mut lock = None;
    let mut conn = ConnectionState::new(peer(2000), 1);
    let granted = negotiate(
        &ask(&[CAPABILITY_FAST_PATH_ADMIN]),
        &ClientAcl::default(),
        steward(1000),
        &mut lock,
        &mut conn,
    );
    assert!(!granted.iter().any(|g| g == CAPABILITY_FAST_PATH_ADMIN));
    assert!(!conn.has(CAPABILITY_FAST_PATH_ADMIN));
}

#[test]
fn user_interaction_responder_first_claim_succeeds_under_default_acl() {
    let mut lock = Some(ResponderLock::new());
    let mut conn = ConnectionState::new(peer(1000), 7);
    let granted = negotiate(
        &ask(&[CAPABILITY_USER_INTERACTION_RESPONDER]),
        &ClientAcl::default(),
        steward(1000),
        &mut lock,
        &mut conn,
    );
    assert!(granted.iter().any(|g| g == CAPABILITY_USER_INTERACTION_RESPONDER));
    assert!(conn.has(CAPABILITY_USER_INTERACTION_RESPONDER));
    assert_eq!(lock.unwrap().current_responder(), Some(conn.id()));
}

#[test]
fn user_interaction_responder_second_claim_is_refused_silently() {
    let mut lock = Some(ResponderLock::new());
    let acl = ClientAcl::default();
    let wanted = ask(&[CAPABILITY_USER_INTERACTION_RESPONDER]);
    let mut ids = ConnectionIds::new();
    let mut conn1 = ConnectionState::new(peer(1000), ids.next_connection_id());
    negotiate(&wanted, &acl, steward(1000), &mut lock, &mut conn1);
    assert!(conn1.has(CAPABILITY_USER_INTERACTION_RESPONDER));

    let mut conn2 = ConnectionState::new(peer(1000), ids.next_connection_id());
    let granted = negotiate(&wanted, &acl, steward(1000), &mut lock, &mut conn2);
    assert!(!granted.iter().any(|g| g == CAPABILITY_USER_INTERACTION_RESPONDER));
    assert!(!conn2.has(CAPABILITY_USER_INTERACTION_RESPONDER));
    assert_eq!(lock.as_ref().unwrap().current_responder(), Some(conn1.id()));

    end_connection(&mut lock, conn2.id());
    assert_eq!(lock.as_ref().unwrap().current_responder(), Some(conn1.id()));
    end_connection(&mut lock, conn1.id());
    assert_eq!(lock.as_ref().unwrap().current_responder(), None);
    let granted = negotiate(&wanted, &acl, steward(1000), &mut lock, &mut conn2);
    assert_eq!(granted, vec![CAPABILITY_USER_INTERACTION_RESPONDER]);
}

#[test]
fn user_interaction_responder_refuses_when_ledger_unconfigured() {
    let mut lock = None;
    let mut conn = ConnectionState::new(peer(1000), 1);
    let granted = negotiate(
        &ask(&[CAPABILITY_USER_INTERACTION_RESPONDER]),
        &ClientAcl::default(),
        steward(1000),
        &mut lock,
        &mut conn,
    );
    assert!(granted.is_empty());
    assert!(!conn.has(CAPABILITY_USER_INTERACTION_RESPONDER));
}

#[test]
fn rules_admit_by_uid_gid_or_locality() {
    let rule =
        CapabilityRule { allow_local: false, allow_uids: vec![5], allow_gids: vec![6] };
    let none = StewardIdentity { uid: None, gid: None };
    assert!(rule.allows(PeerCredentials { uid: Some(5), gid: None }, none));
    assert!(rule.allows(PeerCredentials { uid: Some(9), gid: Some(6) }, none));
    assert!(!rule.allows(PeerCredentials { uid: Some(9), gid: Some(9) }, steward(9)));
    assert!(CapabilityRule::local_only().allows(peer(9), steward(9)));
    assert!(!CapabilityRule::local_only()
        .allows(PeerCredentials { uid: None, gid: None }, none));
}

#[test]
fn connection_ids_count_up_from_one() {
    let mut ids = ConnectionIds::new();
    assert_eq!(ids.next_connection_id(), 1);
    assert_eq!(ids.next_connection_id(), 2);
    let mut last = ConnectionIds { next: u64::MAX };
    assert_eq!(last.next_connection_id(), u64::MAX);
    assert_eq!(last.next_connection_id(), 0);
}

#[test]
fn resolve_claimants_refuses_when_capability_absent() {
    let mut issuer = ClaimantTokenIssuer::new("test-instance");
    let mut ledger = ResolutionLedger::new();
    let conn = ConnectionState::new(peer(1234), 1);
    let token = issuer.token_for("com.foo.bar");
    let response = handle_resolve_claimants(
        &issuer,
        &mut ledger,
        &conn,
        vec![token.to_text()],
        UNIX_EPOCH,
    );
    match response {
        ClientResponse::Error { error } => {
            assert_eq!(error.class, ErrorClass::PermissionDenied);
            let details = error.details.as_ref().expect("details");
            assert_eq!(details["subclass"].as_str(), Some("resolve_claimants_not_granted"));
        }
        other => panic!("expected Error, got {other:?}"),
    }
    assert_eq!(ledger.count(), 1);
    let entry = &ledger.entries()[0];
    assert!(!entry.granted);
    assert_eq!(entry.tokens_requested, 1);
    assert_eq!(entry.tokens_resolved, 0);
    assert_eq!(entry.peer_uid, Some(1234));
}

#[test]
fn resolve_claimants_returns_resolutions_for_known_tokens() {
    let mut issuer = ClaimantTokenIssuer::new("test-instance");
    let mut ledger = ResolutionLedger::new();
    let mut conn = ConnectionState::new(peer(1234), 1);
    conn.granted_capabilities.insert("resolve_claimants".into());

    issuer.record_version("com.foo.bar", "1.2.3");
    issuer.record_version("com.baz", "0.1.0");
    let no_version_token = issuer.token_for("com.no.version");
    let foo_token = issuer.token_for("com.foo.bar");
    let baz_token = issuer.token_for("com.baz");

    let response = handle_resolve_claimants(
        &issuer,
        &mut ledger,
        &conn,
        vec![
            foo_token.to_text(),
            "never-issued-xxxxxxxx".to_string(),
            baz_token.to_text(),
            no_version_token.to_text(),
        ],
        UNIX_EPOCH,
    );
    let resolutions = match response {
        ClientResponse::Resolutions { resolutions } => resolutions,
        other => panic!("expected Resolutions, got {other:?}"),
    };
    assert_eq!(resolutions.len(), 3);
    assert_eq!(resolutions[0].plugin_name, "com.foo.bar");
    assert_eq!(resolutions[0].token, foo_token.to_text());
    assert_eq!(resolutions[0].plugin_version.as_deref(), Some("1.2.3"));
    assert_eq!(resolutions[1].plugin_name, "com.baz");
    assert_eq!(resolutions[1].plugin_version.as_deref(), Some("0.1.0"));
    assert_eq!(resolutions[2].plugin_name, "com.no.version");
    assert!(resolutions[2].plugin_version.is_none());

    let entry = &ledger.entries()[0];
    assert!(entry.granted);
    assert_eq!(entry.tokens_requested, 4);
    assert_eq!(entry.tokens_resolved, 3);
}
