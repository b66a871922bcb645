use evo::streams::{
    BackpressurePolicy, EmitResult, Received, StreamCoordinator, StreamError, StreamFrame,
    StreamHandle, StreamId, StreamSpec,
};

fn spec(schema: &str, policies: Vec<BackpressurePolicy>) -> StreamSpec {
    StreamSpec {
        schema: schema.into(),
        codecs: vec!["json".into()],
        max_rate_hz: 60,
        typical_payload_bytes: 256,
        backpressure_policies: policies,
    }
}

fn drop_newest_spec(schema: &str) -> StreamSpec {
    spec(schema, vec![BackpressurePolicy::DropNewest])
}

fn drop_oldest_spec(schema: &str) -> StreamSpec {
    spec(schema, vec![BackpressurePolicy::DropOldest])
}

fn frame(r: Received) -> StreamFrame {
    match r {
        Received::Frame(f) => f,
        other => panic!("expected a frame, got {other:?}"),
    }
}

#[test]
fn open_then_close() {
    let mut c = StreamCoordinator::new();
    let id = StreamId::new("test");
    let h = c.open(id.duplicate(), drop_newest_spec("v1")).unwrap();
    assert_eq!(h.stream_id().as_str(), id.as_str());
    c.close(&h).unwrap();
    assert!(matches!(c.close(&h), Err(StreamError::Closed(_))));
}

#[test]
fn open_idempotent_on_matching_spec() {
    let mut c = StreamCoordinator::new();
    let id = StreamId::new("test");
    c.open(id.duplicate(), drop_newest_spec("v1")).unwrap();
    c.open(id.duplicate(), drop_newest_spec("v1")).unwrap();
}

#[test]
fn open_rejects_mismatched_spec() {
    let mut c = StreamCoordinator::new();
    let id = StreamId::new("test");
    c.open(id.duplicate(), drop_newest_spec("v1")).unwrap();
    let err = c.open(id, drop_newest_spec("v2")).unwrap_err();
    match err {
        StreamError::Invalid(text) => assert_eq!(
            text,
            "stream test already open with different spec; existing schema=\"v1\", requested \
             schema=\"v2\""
        ),
        other => panic!("expected Invalid, got {other:?}"),
    }
}

#[test]
fn emit_with_no_consumers_returns_no_consumers() {
    let mut c = StreamCoordinator::default();
    let h = c.open(StreamId::new("test"), drop_newest_spec("v1")).unwrap();
    let result = c.emit(&h, 1000, "json".into(), b"frame-1".to_vec()).unwrap();
    assert_eq!(result, EmitResult::NoConsumers);
}

#[test]
fn subscribe_to_unopened_stream_fails() {
    let mut c = StreamCoordinator::new();
    let err = c.subscribe(&StreamId::new("never"), BackpressurePolicy::DropOldest).unwrap_err();
    assert!(matches!(err, StreamError::Closed(_)));
}

#[test]
fn subscribe_with_unsupported_policy_refused() {
    let mut c = StreamCoordinator::new();
    let id = StreamId::new("only_oldest");
    c.open(id.duplicate(), drop_oldest_spec("v1")).unwrap();
    match c.subscribe(&id, BackpressurePolicy::DropNewest).unwrap_err() {
        StreamError::UnsupportedBackpressure { policy, accepted, .. } => {
            assert_eq!(policy, BackpressurePolicy::DropNewest);
            assert_eq!(accepted, vec![BackpressurePolicy::DropOldest]);
        }
        other => panic!("expected UnsupportedBackpressure, got {other:?}"),
    }
}

#[test]
fn subscribe_with_block_policy_refused() {
    let mut c = StreamCoordinator::new();
    let id = StreamId::new("blocky");
    let s = spec("v1", vec![BackpressurePolicy::DropNewest, BackpressurePolicy::Block]);
    c.open(id.duplicate(), s).unwrap();
    let err = c.subscribe(&id, BackpressurePolicy::Block).unwrap_err();
    assert!(matches!(err, StreamError::UnsupportedBackpressure { .. }));
}

#[test]
fn single_consumer_emit_round_trip() {
    let mut c = StreamCoordinator::new();
    let id = StreamId::new("rt");
    let h = c.open(id.duplicate(), drop_newest_spec("v1")).unwrap();
    let mut rx = c.subscribe(&id, BackpressurePolicy::DropNewest).unwrap();
    assert!(matches!(rx.recv(&mut c), Received::Pending));
    let result = c.emit(&h, 1000, "json".into(), b"frame-0".to_vec()).unwrap();
    assert_eq!(result, EmitResult::Queued { consumer_count: 1 });
    let f = frame(rx.recv(&mut c));
    assert_eq!(f.seq, 0);
    assert_eq!(f.produced_at_ns, 1000);
    assert_eq!(f.codec, "json");
    assert_eq!(f.payload, b"frame-0");

    c.emit(&h, 2000, "json".into(), b"frame-1".to_vec()).unwrap();
    let f = frame(rx.recv(&mut c));
    assert_eq!(f.seq, 1);
    assert_eq!(f.payload, b"frame-1");
}

#[test]
fn multi_consumer_fan_out_delivers_to_all() {
    let mut c = StreamCoordinator::new();
    let id = StreamId::new("fan");
    let h = c.open(id.duplicate(), drop_newest_spec("v1")).unwrap();
    let mut rx_a = c.subscribe(&id, BackpressurePolicy::DropNewest).unwrap();
    let mut rx_b = c.subscribe(&id, BackpressurePolicy::DropNewest).unwrap();
    assert_eq!(c.consumer_count(&id), 2);
    let result = c.emit(&h, 100, "json".into(), b"frame-x".to_vec()).unwrap();
    assert_eq!(result, EmitResult::Queued { consumer_count: 2 });
    assert_eq!(frame(rx_a.recv(&mut c)).payload, b"frame-x");
    assert_eq!(frame(rx_b.recv(&mut c)).payload, b"frame-x");
}

#[test]
fn drop_newest_policy_rejects_when_full() {
    let mut c = StreamCoordinator::new();
    let id = StreamId::new("dn");
    let h = c.open(id.duplicate(), drop_newest_spec("v1")).unwrap();
    let mut rx = c.subscribe(&id, BackpressurePolicy::DropNewest).unwrap();
    c.emit(&h, 1, "json".into(), b"a".to_vec()).unwrap();
    let result = c.emit(&h, 2, "json".into(), b"b".to_vec()).unwrap();
    assert_eq!(result, EmitResult::Dropped { consumer_count: 1 });
    assert_eq!(frame(rx.recv(&mut c)).payload, b"a");
}

#[test]
fn drop_oldest_policy_keeps_latest_under_load() {
    let mut c = StreamCoordinator::new();
    let id = StreamId::new("do");
    let h = c.open(id.duplicate(), drop_oldest_spec("v1")).unwrap();
    let mut rx = c.subscribe(&id, BackpressurePolicy::DropOldest).unwrap();
    c.emit(&h, 1, "json".into(), b"a".to_vec()).unwrap();
    c.emit(&h, 2, "json".into(), b"b".to_vec()).unwrap();
    c.emit(&h, 3, "json".into(), b"c".to_vec()).unwrap();
    let f = frame(rx.recv(&mut c));
    assert_eq!(f.payload, b"c");
    assert_eq!(f.produced_at_ns, 3);
}

#[test]
fn closing_stream_drops_consumer_channels() {
    let mut c = StreamCoordinator::new();
    let id = StreamId::new("cls");
    let h = c.open(id.duplicate(), drop_newest_spec("v1")).unwrap();
    let mut rx = c.subscribe(&id, BackpressurePolicy::DropNewest).unwrap();
    c.close(&h).unwrap();
    assert!(matches!(rx.recv(&mut c), Received::Closed));
}

#[test]
fn a_pending_frame_survives_the_close() {
    let mut c = StreamCoordinator::new();
    let id = StreamId::new("cls");
    let h = c.open(id.duplicate(), drop_newest_spec("v1")).unwrap();
    let mut rx = c.subscribe(&id, BackpressurePolicy::DropNewest).unwrap();
    c.emit(&h, 1, "json".into(), b"x".to_vec()).unwrap();
    c.close(&h).unwrap();
    assert_eq!(rx.try_recv(&mut c).unwrap().payload, b"x");
    assert!(rx.try_recv(&mut c).is_none());
    assert!(matches!(rx.recv(&mut c), Received::Closed));
}

#[test]
fn unsubscribe_drops_consumer_from_count() {
    let mut c = StreamCoordinator::new();
    let id = StreamId::new("unsub");
    let h = c.open(id.duplicate(), drop_newest_spec("v1")).unwrap();
    let rx_a = c.subscribe(&id, BackpressurePolicy::DropNewest).unwrap();
    let rx_b = c.subscribe(&id, BackpressurePolicy::DropNewest).unwrap();
    assert_eq!(c.consumer_count(&id), 2);
    c.unsubscribe(rx_a.handle());
    assert_eq!(c.consumer_count(&id), 1);
    let result = c.emit(&h, 1, "json".into(), b"x".to_vec()).unwrap();
    assert_eq!(result, EmitResult::Queued { consumer_count: 1 });
    // A registration outlives its receiver.
    rx_b.release(&mut c);
    assert_eq!(c.consumer_count(&id), 1);
}

#[test]
fn emit_to_closed_stream_returns_closed() {
    let mut c = StreamCoordinator::new();
    let h = c.open(StreamId::new("eclosed"), drop_newest_spec("v1")).unwrap();
    c.close(&h).unwrap();
    let err = c.emit(&h, 1, "json".into(), b"x".to_vec()).unwrap_err();
    assert!(matches!(err, StreamError::Closed(_)));
    let forged = StreamHandle::for_id(StreamId::new("never"));
    assert!(matches!(
        c.emit(&forged, 1, "json".into(), Vec::new()),
        Err(StreamError::Closed(_))
    ));
}

#[test]
fn streams_do_not_disturb_each_other() {
    let mut c = StreamCoordinator::new();
    let (a, b) = (StreamId::new("a"), StreamId::new("b"));
    let ha = c.open(a.duplicate(), drop_newest_spec("v1")).unwrap();
    c.open(b.duplicate(), drop_newest_spec("v1")).unwrap();
    let mut rx_b = c.subscribe(&b, BackpressurePolicy::DropNewest).unwrap();
    assert_eq!(
        c.emit(&ha, 1, "json".into(), b"x".to_vec()).unwrap(),
        EmitResult::NoConsumers
    );
    c.close(&ha).unwrap();
    assert!(matches!(rx_b.recv(&mut c), Received::Pending));
}

#[test]
fn every_emission_uses_up_a_number() {
    let mut c = StreamCoordinator::new();
    let (a, b) = (StreamId::new("a"), StreamId::new("b"));
    let ha = c.open(a.duplicate(), drop_newest_spec("v1")).unwrap();
    let hb = c.open(b.duplicate(), drop_newest_spec("v1")).unwrap();
    let mut rx = c.subscribe(&a, BackpressurePolicy::DropNewest).unwrap();
    for n in 0..3 {
        c.emit(&ha, n, "json".into(), Vec::new()).unwrap();
        c.emit(&hb, n, "json".into(), Vec::new()).unwrap();
    }
    assert_eq!(frame(rx.recv(&mut c)).seq, 0);
    c.emit(&ha, 3, "json".into(), Vec::new()).unwrap();
    assert_eq!(frame(rx.recv(&mut c)).seq, 3);
}
