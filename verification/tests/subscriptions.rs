use evo::claimant::ClaimantTokenIssuer;
use evo::errors::ErrorClass;
use evo::happenings::{Happening, HappeningWire};
use evo::projections::SubjectProjection;
use evo::requests::HappeningFilter;
use evo::responses::{ClientResponse, SubjectQueryResult, SubjectRecord};
use evo::subject_stream::{SubjectEvent, SubjectNext, SubjectStream};
use evo::subjects::bind_subject;
use evo::subscription::{Envelope, Event, Next, Observed, Phase, ReplayRow, Subscription, Turn};
use serde_json::Value;
use std::time::UNIX_EPOCH;

fn open_filter() -> HappeningFilter {
    HappeningFilter { variants: Vec::new(), plugins: Vec::new(), shelves: Vec::new() }
}

fn custody_taken(handle: &str) -> Observed {
    Observed {
        happening: Happening::CustodyTaken {
            plugin: "org.test".into(),
            handle_id: handle.into(),
            shelf: "x.y".into(),
            custody_type: "playback".into(),
            at: UNIX_EPOCH,
        },
        plugin: Some("org.test".into()),
        shelf: Some("x.y".into()),
    }
}

fn flight_mode() -> Observed {
    Observed {
        happening: Happening::FlightModeChanged {
            rack_class: "flight_mode.wifi".into(),
            on: true,
            at: UNIX_EPOCH,
        },
        plugin: None,
        shelf: None,
    }
}

fn row(seq: u64) -> ReplayRow {
    ReplayRow { seq, decoded: Ok(custody_taken("h")) }
}

fn live(seq: u64) -> Event {
    Event::Live(Envelope { seq, observed: custody_taken("h") })
}

fn issuer() -> ClaimantTokenIssuer {
    ClaimantTokenIssuer::new("test-instance")
}

fn seqs(turn: &Turn) -> Vec<u64> {
    turn.frames
        .iter()
        .map(|f| match f {
            ClientResponse::Happening { seq, .. } => *seq,
            other => panic!("unexpected frame: {other:?}"),
        })
        .collect()
}

fn replaying(since: u64, current: u64) -> Subscription {
    let (mut sub, turn) = Subscription::begin(Some(since), open_filter(), false, current);
    assert!(turn.frames.is_empty());
    assert!(matches!(turn.next, Next::QueryOldest));
    let turn = sub.step(Event::Oldest(Ok(0)), &mut issuer());
    assert!(matches!(
        turn.frames[..],
        [ClientResponse::Subscribed { subscribed: true, current_seq }] if current_seq == current
    ));
    assert!(matches!(turn.next, Next::QueryRows { since: s } if s == since));
    sub
}

#[test]
fn a_subscription_without_a_cursor_goes_live_at_once() {
    let (mut sub, turn) = Subscription::begin(None, open_filter(), false, 42);
    assert!(matches!(
        turn.frames[..],
        [ClientResponse::Subscribed { subscribed: true, current_seq: 42 }]
    ));
    assert!(matches!(turn.next, Next::Receive));
    assert_eq!(sub.phase, Phase::Live { boundary: 0 });
    assert_eq!(seqs(&sub.step(live(1), &mut issuer())), vec![1]);
}

#[test]
fn a_cursor_before_the_window_is_refused() {
    let (mut sub, _) = Subscription::begin(Some(5), open_filter(), false, 100);
    let turn = sub.step(Event::Oldest(Ok(10)), &mut issuer());
    match &turn.frames[..] {
        [ClientResponse::Error { error }] => {
            assert_eq!(error.class, ErrorClass::ContractViolation);
            assert_eq!(
                error.message,
                "since=5 is older than the durable retention window (oldest available seq is 10)"
            );
            let details = error.details.as_ref().unwrap();
            assert_eq!(details["subclass"].as_str(), Some("replay_window_exceeded"));
            assert_eq!(details["oldest_available_seq"].as_u64(), Some(10));
            assert_eq!(details["current_seq"].as_u64(), Some(100));
        }
        other => panic!("unexpected frames: {other:?}"),
    }
    assert!(matches!(turn.next, Next::End));
    assert_eq!(sub.phase, Phase::Done);
}

#[test]
fn run_subscription_emits_replay_window_exceeded_when_since_lt_oldest() {
    let (mut sub, _) = Subscription::begin(Some(0), open_filter(), false, 5);
    let turn = sub.step(Event::Oldest(Ok(5)), &mut issuer());
    match &turn.frames[..] {
        [ClientResponse::Error { error }] => {
            assert_eq!(error.class.as_str(), "contract_violation");
            let details = error.details.as_ref().unwrap();
            assert_eq!(details["subclass"].as_str(), Some("replay_window_exceeded"));
            assert_eq!(details["oldest_available_seq"].as_u64(), Some(5));
            assert!(details["current_seq"].is_u64());
        }
        other => panic!("unexpected frames: {other:?}"),
    }
    assert!(matches!(turn.next, Next::End));
}

#[test]
fn run_subscription_concurrent_replay_window_exceeded() {
    let mut subs: Vec<Subscription> = (0..16)
        .map(|_| Subscription::begin(Some(0), open_filter(), false, 7).0)
        .collect();
    for sub in subs.iter_mut() {
        let turn = sub.step(Event::Oldest(Ok(7)), &mut issuer());
        match &turn.frames[..] {
            [ClientResponse::Error { error }] => {
                let details = error.details.as_ref().unwrap();
                assert_eq!(details["subclass"].as_str(), Some("replay_window_exceeded"));
                assert_eq!(details["oldest_available_seq"].as_u64(), Some(7));
            }
            other => panic!("unexpected frames: {other:?}"),
        }
    }
}

#[test]
fn a_cursor_at_the_window_is_served() {
    for (since, oldest) in [(10u64, 10u64), (0, 0), (11, 10)] {
        let (mut sub, _) = Subscription::begin(Some(since), open_filter(), false, 100);
        let turn = sub.step(Event::Oldest(Ok(oldest)), &mut issuer());
        assert!(matches!(turn.next, Next::QueryRows { .. }));
    }
}

#[test]
fn failed_queries_end_the_subscription() {
    let (mut sub, _) = Subscription::begin(Some(1), open_filter(), false, 9);
    let turn = sub.step(Event::Oldest(Err("disk".into())), &mut issuer());
    match &turn.frames[..] {
        [ClientResponse::Error { error }] => {
            assert_eq!(error.class, ErrorClass::Internal);
            assert_eq!(error.message, "oldest-seq query failed: disk");
            assert_eq!(
                error.details.as_ref().unwrap()["subclass"].as_str(),
                Some("replay_window_query_failed")
            );
        }
        other => panic!("unexpected frames: {other:?}"),
    }
    let mut sub = replaying(1, 9);
    let turn = sub.step(Event::Rows(Err("disk".into())), &mut issuer());
    match &turn.frames[..] {
        [ClientResponse::Error { error }] => {
            assert_eq!(error.message, "replay query failed: disk");
            assert_eq!(
                error.details.as_ref().unwrap()["subclass"].as_str(),
                Some("replay_query_failed")
            );
        }
        other => panic!("unexpected frames: {other:?}"),
    }
    assert!(matches!(turn.next, Next::End));
}

#[test]
fn replayed_happenings_are_not_delivered_again() {
    let mut sub = replaying(3, 6);
    let turn = sub.step(Event::Rows(Ok(vec![row(4), row(5), row(6)])), &mut issuer());
    assert_eq!(seqs(&turn), vec![4, 5, 6]);
    assert_eq!(sub.phase, Phase::Live { boundary: 6 });
    assert!(sub.step(live(5), &mut issuer()).frames.is_empty());
    assert!(sub.step(live(6), &mut issuer()).frames.is_empty());
    assert_eq!(seqs(&sub.step(live(7), &mut issuer())), vec![7]);
}

#[test]
fn run_subscription_with_since_at_current_emits_no_replay() {
    let mut sub = replaying(3, 2);
    let turn = sub.step(Event::Rows(Ok(Vec::new())), &mut issuer());
    assert!(turn.frames.is_empty());
    assert_eq!(sub.phase, Phase::Live { boundary: 3 });
    assert!(sub.step(live(3), &mut issuer()).frames.is_empty());
    assert_eq!(seqs(&sub.step(live(4), &mut issuer())), vec![4]);
}

#[test]
fn rows_that_the_filter_rejects_still_count_as_covered() {
    let (mut sub, _) = Subscription::begin(
        Some(0),
        HappeningFilter {
            variants: vec!["custody_taken".into()],
            plugins: Vec::new(),
            shelves: Vec::new(),
        },
        false,
        2,
    );
    sub.step(Event::Oldest(Ok(1)), &mut issuer());
    assert_eq!(sub.phase, Phase::Done);

    let (mut sub, _) = Subscription::begin(
        Some(1),
        HappeningFilter {
            variants: vec!["custody_taken".into()],
            plugins: Vec::new(),
            shelves: vec!["x.y".into()],
        },
        false,
        3,
    );
    sub.step(Event::Oldest(Ok(1)), &mut issuer());
    let turn = sub.step(
        Event::Rows(Ok(vec![row(2), ReplayRow { seq: 3, decoded: Ok(flight_mode()) }])),
        &mut issuer(),
    );
    assert_eq!(seqs(&turn), vec![2]);
    assert_eq!(sub.phase, Phase::Live { boundary: 3 });
    let turn = sub.step(
        Event::Live(Envelope { seq: 4, observed: flight_mode() }),
        &mut issuer(),
    );
    assert!(turn.frames.is_empty());
}

#[test]
fn a_row_that_cannot_be_decoded_ends_the_replay() {
    let mut sub = replaying(0, 3);
    let turn = sub.step(
        Event::Rows(Ok(vec![
            row(1),
            ReplayRow { seq: 2, decoded: Err("bad".into()) },
            row(3),
        ])),
        &mut issuer(),
    );
    assert_eq!(turn.frames.len(), 2);
    match &turn.frames[1] {
        ClientResponse::Error { error } => {
            assert_eq!(error.message, "replay decode failed at seq 2: bad");
            assert_eq!(
                error.details.as_ref().unwrap()["subclass"].as_str(),
                Some("replay_decode_failed")
            );
        }
        other => panic!("unexpected frame: {other:?}"),
    }
    assert!(matches!(turn.next, Next::End));
}

#[test]
fn coalesced_happenings_go_out_when_they_are_released() {
    let (mut sub, _) = Subscription::begin(None, open_filter(), true, 0);
    let turn = sub.step(live(1), &mut issuer());
    assert!(turn.frames.is_empty());
    let held = match turn.next {
        Next::Coalesce(env) => env,
        other => panic!("unexpected: {other:?}"),
    };
    let turn = sub.step(
        Event::Released(vec![held, Envelope { seq: 9, observed: flight_mode() }]),
        &mut issuer(),
    );
    assert_eq!(seqs(&turn), vec![1, 9]);
}

#[test]
fn run_subscription_emits_structured_lagged_signal() {
    let (mut sub, _) = Subscription::begin(None, open_filter(), false, 0);
    let turn = sub.step(
        Event::Lagged { missed: 17, oldest: Some(4), live_seq: 90 },
        &mut issuer(),
    );
    match &turn.frames[..] {
        [ClientResponse::Lagged { lagged }] => {
            assert_eq!(lagged.missed_count, 17);
            assert_eq!(lagged.oldest_available_seq, 4);
            assert_eq!(lagged.current_seq, 90);
        }
        other => panic!("unexpected frames: {other:?}"),
    }
    assert!(matches!(turn.next, Next::Receive));
    let turn = sub.step(
        Event::Lagged { missed: 1, oldest: None, live_seq: 91 },
        &mut issuer(),
    );
    assert!(matches!(
        &turn.frames[..],
        [ClientResponse::Lagged { lagged }] if lagged.oldest_available_seq == 0
    ));
    let turn = sub.step(Event::Gone, &mut issuer());
    assert!(matches!(turn.next, Next::End));
    assert_eq!(sub.phase, Phase::Done);
}

#[test]
fn delivered_happenings_carry_tokens() {
    let (mut sub, _) = Subscription::begin(None, open_filter(), false, 0);
    let turn = sub.step(live(1), &mut issuer());
    match &turn.frames[0] {
        ClientResponse::Happening {
            happening: HappeningWire::CustodyTaken { claimant_token, .. },
            ..
        } => assert_eq!(*claimant_token, issuer().token_for("org.test")),
        other => panic!("unexpected frame: {other:?}"),
    }
}

fn record(id: &str) -> SubjectRecord {
    SubjectRecord { id: id.into(), body: Value::Null }
}

#[test]
fn subject_streams_bind_to_live_subjects() {
    let found = Ok(SubjectQueryResult::Found { record: record("a") });
    assert_eq!(bind_subject("a".into(), false, found).unwrap(), "a");
    let aliased = |terminal| {
        Ok(SubjectQueryResult::Aliased { chain: vec![Value::Null], terminal })
    };
    assert_eq!(bind_subject("a".into(), true, aliased(Some(record("b")))).unwrap(), "b");
    let e = bind_subject("a".into(), true, aliased(None)).unwrap_err();
    assert_eq!(
        e.message,
        "subject a aliased through a forked chain; cannot bind subscription"
    );
    let e = bind_subject("a".into(), false, aliased(Some(record("b")))).unwrap_err();
    assert_eq!(
        e.message,
        "subject a is an alias; pass follow_aliases = true to bind to the terminal id"
    );
    let e = bind_subject("a".into(), true, Ok(SubjectQueryResult::NotFound)).unwrap_err();
    assert_eq!(e.message, "unknown subject: a");
    let e = bind_subject("a".into(), true, Ok(SubjectQueryResult::Unsupported)).unwrap_err();
    assert_eq!(e.class, ErrorClass::Internal);
    let e = bind_subject("a".into(), true, Err("down".into())).unwrap_err();
    assert_eq!(e.message, "describe_subject_with_aliases: down");
}

#[test]
fn subject_streams_project_on_every_happening_that_concerns_them() {
    let mut issuer = issuer();
    let (mut sub, turn) = SubjectStream::begin("a".to_string(), 8);
    assert!(matches!(
        turn.frame,
        Some(ClientResponse::SubscribedSubject { subscribed_subject: true, current_seq: 8, .. })
    ));
    assert_eq!(turn.next, SubjectNext::Project);
    let projection = SubjectProjection {
        canonical_id: "a".into(),
        subject_type: "track".into(),
        addressings: Vec::new(),
        related: Vec::new(),
        composed_at: UNIX_EPOCH,
        shape_version: 1,
        claimants: Vec::new(),
        degraded: false,
        degraded_reasons: Vec::new(),
        walk_truncated: false,
    };
    let turn = sub.step(SubjectEvent::Projected { projection: Some(projection) }, &mut issuer);
    assert_eq!(turn.next, SubjectNext::Receive);
    match turn.frame {
        Some(ClientResponse::ProjectionUpdate { seq, canonical_id, projection }) => {
            assert_eq!(seq, 0);
            assert_eq!(canonical_id, "a");
            assert_eq!(projection.unwrap().subject_type, "track");
        }
        other => panic!("unexpected frame: {other:?}"),
    }
    let turn = sub.step(SubjectEvent::Live { seq: 9, affects: false }, &mut issuer);
    assert_eq!(turn.next, SubjectNext::Receive);
    let turn = sub.step(SubjectEvent::Live { seq: 10, affects: true }, &mut issuer);
    assert_eq!(turn.next, SubjectNext::Project);
    let turn = sub.step(SubjectEvent::Projected { projection: None }, &mut issuer);
    assert!(matches!(
        turn.frame,
        Some(ClientResponse::ProjectionUpdate { seq: 10, projection: None, .. })
    ));
}

#[test]
fn subject_streams_end_on_lag() {
    let mut sub = SubjectStream { effective_id: "a".to_string(), asked: None };
    let turn =
        sub.step(SubjectEvent::Lagged { missed: 3, oldest: None, live_seq: 11 }, &mut issuer());
    assert!(matches!(
        turn.frame,
        Some(ClientResponse::Lagged { lagged }) if lagged.missed_count == 3
            && lagged.oldest_available_seq == 0 && lagged.current_seq == 11
    ));
    assert_eq!(turn.next, SubjectNext::End);
    let (mut sub, _) = SubjectStream::begin("a".to_string(), 8);
    assert_eq!(sub.step(SubjectEvent::Gone, &mut issuer()).next, SubjectNext::End);
    assert!(sub.asked.is_none());
}
