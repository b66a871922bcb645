use base64::engine::general_purpose::STANDARD as B64;
use base64::Engine;
use evo::shelf_dispatcher::{
    build_envelope, caller_principal, classify_error_payload, conclude, decode_dispatch_response,
    extract_field, plugin_system_principal, prepare, HttpDispatchError, ShelfDispatchError,
    StewardShelfRequestDispatcher,
};
use serde_json::Value;

fn json(text: &str) -> Value {
    serde_json::from_str(text).unwrap()
}

#[test]
fn classify_known_classes() {
    let err = json(
        r#"{"class":"not_found",
            "message":"verb \"library.x\" not stocked on shelf \"audio.library\"",
            "details":{"shelf":"audio.library","request_type":"library.x"}}"#,
    );
    match classify_error_payload(&err) {
        ShelfDispatchError::VerbNotStockedOnShelf { shelf, request_type } => {
            assert_eq!(shelf, "audio.library");
            assert_eq!(request_type, "library.x");
        }
        other => panic!("unexpected classification: {other:?}"),
    }

    let err = json(
        r#"{"class":"not_found","message":"no plugin on shelf: audio.library",
            "details":{"shelf":"audio.library"}}"#,
    );
    match classify_error_payload(&err) {
        ShelfDispatchError::NoPluginOnShelf { shelf } => assert_eq!(shelf, "audio.library"),
        other => panic!("unexpected classification: {other:?}"),
    }

    let err = json(
        r#"{"class":"deadline_exceeded","message":"deadline exceeded",
            "details":{"budget_ms":200}}"#,
    );
    match classify_error_payload(&err) {
        ShelfDispatchError::DeadlineExceeded { budget_ms } => assert_eq!(budget_ms, 200),
        other => panic!("unexpected classification: {other:?}"),
    }

    let err = json(r#"{"class":"transient","message":"scan in progress"}"#);
    match classify_error_payload(&err) {
        ShelfDispatchError::Transient { detail } => assert_eq!(detail, "scan in progress"),
        other => panic!("unexpected classification: {other:?}"),
    }

    let err = json(r#"{"class":"contract_violation","message":"work_id unknown"}"#);
    match classify_error_payload(&err) {
        ShelfDispatchError::Permanent { detail } => assert_eq!(detail, "work_id unknown"),
        other => panic!("unexpected classification: {other:?}"),
    }
}

#[test]
fn decode_success_response_extracts_bytes() {
    let bytes = b"{\"v\":1,\"status\":\"ok\"}".to_vec();
    let env = json(&format!(r#"{{"payload_b64":"{}"}}"#, B64.encode(&bytes)));
    assert_eq!(decode_dispatch_response(env).unwrap(), bytes);
}

#[test]
fn decode_error_envelope_propagates_classification() {
    let env = json(
        r#"{"error":{"class":"not_found","message":"no plugin on shelf: artwork.providers",
            "details":{"shelf":"artwork.providers"}}}"#,
    );
    match decode_dispatch_response(env) {
        Err(ShelfDispatchError::NoPluginOnShelf { shelf }) => {
            assert_eq!(shelf, "artwork.providers");
        }
        other => panic!("unexpected: {other:?}"),
    }
}

#[test]
fn decode_malformed_envelope_is_substrate_failure() {
    let env = json(r#"{"unexpected_field":42}"#);
    match decode_dispatch_response(env) {
        Err(ShelfDispatchError::SubstrateFailure { .. }) => {}
        other => panic!("unexpected: {other:?}"),
    }
}

#[test]
fn decode_bad_base64_is_substrate_failure() {
    match decode_dispatch_response(json(r#"{"payload_b64":"%%%"}"#)) {
        Err(ShelfDispatchError::SubstrateFailure { .. }) => {}
        other => panic!("unexpected: {other:?}"),
    }
}

#[test]
fn envelopes_carry_the_request() {
    let env = build_envelope("audio.library", "library.x", &b"hi".to_vec(), Some("i-1"));
    assert_eq!(env["shelf"].as_str(), Some("audio.library"));
    assert_eq!(env["request_type"].as_str(), Some("library.x"));
    assert_eq!(env["payload_b64"].as_str(), Some("aGk="));
    assert_eq!(env["instance_id"].as_str(), Some("i-1"));
    let env = build_envelope("a.b", "r", &Vec::new(), None);
    assert!(env.get("instance_id").is_none());
}

#[test]
fn requests_fail_while_there_is_no_server() {
    let mut d: StewardShelfRequestDispatcher<u32> = StewardShelfRequestDispatcher::default();
    assert!(d.server_handle().is_none());
    match prepare(false, "a.b", "r", &Vec::new(), None) {
        Err(ShelfDispatchError::SubstrateFailure { .. }) => {}
        other => panic!("unexpected: {other:?}"),
    }
    d.set_server(1);
    d.set_server(2);
    assert_eq!(d.server_handle(), Some(&1));
    assert!(prepare(true, "a.b", "r", &Vec::new(), None).is_ok());
}

#[test]
fn outcomes_are_concluded() {
    let ok = conclude(Ok(json(r#"{"payload_b64":"aGk="}"#)));
    assert_eq!(ok.unwrap(), b"hi");
    let refused = conclude(Err(HttpDispatchError::RequestRefused {
        body: json(r#"{"error":{"class":"transient","message":"later"}}"#),
    }));
    match refused {
        Err(ShelfDispatchError::Transient { detail }) => assert_eq!(detail, "later"),
        other => panic!("unexpected: {other:?}"),
    }
    assert!(conclude(Err(HttpDispatchError::InvalidPayload("x".into()))).is_err());
    assert!(conclude(Err(HttpDispatchError::SerializationFailed("x".into()))).is_err());
}

#[test]
fn principals_hold_no_capabilities() {
    assert_eq!(plugin_system_principal().subject, "plugin-system");
    assert!(plugin_system_principal().capabilities.is_empty());
    assert_eq!(caller_principal("org.a").subject, "org.a");
}

#[test]
fn fields_are_found_in_the_details() {
    let err = json(r#"{"details":{"shelf":"a.b","n":1}}"#);
    assert_eq!(extract_field(&err, "shelf").as_deref(), Some("a.b"));
    assert_eq!(extract_field(&err, "n"), None);
    assert_eq!(extract_field(&err, "missing"), None);
}
