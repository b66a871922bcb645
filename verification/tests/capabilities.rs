use evo::capabilities::{describe_capabilities, supported_features, StaticLabels};
use evo::catalogue::{CatalogueSource, TimeTrust};
use evo::happenings::happening_kinds;
use evo::requests::supported_ops;
use evo::responses::{ClientResponse, KindLabels};

fn table() -> Vec<StaticLabels> {
    let mut out = Vec::new();
    for kind in happening_kinds() {
        let mut labels = vec!["variant".to_string()];
        if kind == "custody_taken" {
            labels.extend(["plugin", "handle_id", "shelf"].iter().map(|l| l.to_string()));
        }
        if kind == "plugin_event" {
            labels.extend(["plugin", "event_type"].iter().map(|l| l.to_string()));
        }
        out.push(StaticLabels { kind: kind.to_string(), labels });
    }
    out
}

struct Shape {
    wire_version: u16,
    ops: Vec<&'static str>,
    features: Vec<&'static str>,
    catalogue_source: &'static str,
    clock_trust: &'static str,
    has_battery_rtc: bool,
    coalesce_labels: Vec<KindLabels>,
}

fn describe(source: CatalogueSource, trust: TimeTrust, rtc: bool) -> Shape {
    match describe_capabilities(source, trust, rtc, &table()) {
        ClientResponse::Capabilities {
            capabilities,
            wire_version,
            ops,
            features,
            catalogue_source,
            clock_trust,
            has_battery_rtc,
            coalesce_labels,
        } => {
            assert!(capabilities);
            Shape {
                wire_version,
                ops,
                features,
                catalogue_source,
                clock_trust,
                has_battery_rtc,
                coalesce_labels,
            }
        }
        other => panic!("describe_capabilities returned {other:?}, not Capabilities"),
    }
}

#[test]
fn describe_capabilities_response_shape_is_stable() {
    let r = describe(CatalogueSource::Configured, TimeTrust::Untrusted, false);
    assert_eq!(r.wire_version, 1);
    for expected in [
        "request",
        "project_subject",
        "describe_alias",
        "list_active_custodies",
        "list_subjects",
        "list_relations",
        "enumerate_addressings",
        "subscribe_happenings",
        "describe_capabilities",
        "negotiate",
        "resolve_claimants",
    ] {
        assert!(r.ops.contains(&expected), "op {expected:?} missing; got {:?}", r.ops);
    }
    assert!(r.features.contains(&"subscribe_happenings_cursor"));
    assert!(r.features.contains(&"alias_chain_walking"));
    assert!(r.features.contains(&"paginated_state_snapshots"));
    assert!(r.features.contains(&"capability_negotiation"));
    assert!(r.features.contains(&"catalogue_resilience"));
    assert!(r.features.contains(&"clock_trust_signal"));
    assert_eq!(r.catalogue_source, "configured");
    assert_eq!(r.clock_trust, "untrusted");
    assert!(!r.has_battery_rtc);
}

#[test]
fn capabilities_response_carries_lkg_catalogue_source() {
    let r = describe(CatalogueSource::Lkg, TimeTrust::Untrusted, false);
    assert_eq!(r.catalogue_source, "lkg");
}

#[test]
fn capabilities_response_carries_builtin_catalogue_source() {
    let r = describe(CatalogueSource::Builtin, TimeTrust::Untrusted, false);
    assert_eq!(r.catalogue_source, "builtin");
}

#[test]
fn capabilities_response_carries_trusted_clock_state() {
    let r = describe(CatalogueSource::Configured, TimeTrust::Trusted, true);
    assert_eq!(r.clock_trust, "trusted");
    assert!(r.has_battery_rtc);
}

#[test]
fn capabilities_response_carries_stale_clock_state() {
    let r = describe(CatalogueSource::Configured, TimeTrust::Stale, false);
    assert_eq!(r.clock_trust, "stale");
}

#[test]
fn capabilities_response_carries_adjusting_clock_state() {
    let r = describe(CatalogueSource::Configured, TimeTrust::Adjusting, false);
    assert_eq!(r.clock_trust, "adjusting");
}

#[test]
fn capabilities_response_advertises_coalesce_labels_per_variant() {
    let r = describe(CatalogueSource::Configured, TimeTrust::Untrusted, false);
    let find = |kind: &str| {
        r.coalesce_labels
            .iter()
            .find(|e| e.kind == kind)
            .unwrap_or_else(|| panic!("variant kind {kind:?} missing from coalesce_labels"))
    };
    for kind in [
        "custody_taken",
        "custody_state_reported",
        "subject_forgotten",
        "plugin_event",
        "clock_trust_changed",
        "catalogue_fallback",
    ] {
        assert!(find(kind).labels.iter().any(|l| l == "variant"));
    }
    let names = &find("custody_taken").labels;
    assert!(names.contains(&"plugin".to_string()));
    assert!(names.contains(&"handle_id".to_string()));
    assert!(names.contains(&"shelf".to_string()));
    assert_eq!(find("plugin_event").labels, vec!["variant", "plugin", "event_type"]);
}

#[test]
fn capabilities_response_distinguishable_from_other_variants() {
    let r = describe_capabilities(
        CatalogueSource::Configured,
        TimeTrust::Untrusted,
        false,
        &table(),
    );
    let s = format!("{r:?}");
    assert!(s.contains("capabilities: true"));
    assert!(!s.contains("payload_b64:"));
    assert!(!s.contains("subscribed:"));
    assert!(!s.contains("active_custodies:"));
    assert!(!s.contains("happening:"));
    assert!(!s.contains("error:"));
}

#[test]
fn describe_capabilities_includes_project_rack() {
    let r = describe(CatalogueSource::Configured, TimeTrust::Untrusted, false);
    assert!(r.ops.contains(&"project_rack"));
    assert!(r.features.contains(&"rack_structural_projection"));
}

#[test]
fn describe_capabilities_includes_list_plugins() {
    let r = describe(CatalogueSource::Configured, TimeTrust::Untrusted, false);
    assert!(r.ops.contains(&"list_plugins"));
    assert!(r.features.contains(&"plugin_inventory"));
}

#[test]
fn describe_capabilities_includes_subscribe_subject() {
    let r = describe(CatalogueSource::Configured, TimeTrust::Untrusted, false);
    assert!(r.ops.contains(&"subscribe_subject"));
    assert!(r.features.contains(&"subscribe_subject_push"));
}

#[test]
fn kinds_without_labels_are_not_advertised() {
    let labels = vec![
        StaticLabels { kind: "watch_fired".into(), labels: vec!["variant".into()] },
        StaticLabels { kind: "subject_split".into(), labels: Vec::new() },
        StaticLabels { kind: "no_such_kind".into(), labels: vec!["variant".into()] },
        StaticLabels { kind: "clock_adjusted".into(), labels: vec!["variant".into()] },
    ];
    match describe_capabilities(
        CatalogueSource::Configured,
        TimeTrust::Untrusted,
        false,
        &labels,
    ) {
        ClientResponse::Capabilities { coalesce_labels, .. } => {
            let kinds: Vec<&str> = coalesce_labels.iter().map(|e| e.kind).collect();
            assert_eq!(kinds, vec!["clock_adjusted", "watch_fired"]);
        }
        other => panic!("unexpected response: {other:?}"),
    }
}

#[test]
fn ops_and_features_are_named_once() {
    let ops = supported_ops();
    assert_eq!(ops.len(), 41);
    assert_eq!(ops[0], "request");
    assert_eq!(ops[40], "migrate_grammar_orphans");
    let features = supported_features();
    assert_eq!(features.len(), 17);
    for list in [&ops, &features] {
        for (i, name) in list.iter().enumerate() {
            assert!(!list[..i].contains(name));
        }
    }
}
