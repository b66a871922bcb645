use evo::claimant::ClaimantTokenIssuer;
use evo::errors::ErrorClass;
use evo::listings::{
    addressing_cursor_key, decode_page_cursor, encode_page_cursor, handle_enumerate_addressings,
    handle_list_relations, handle_list_subjects, relation_cursor_key, subject_cursor_key,
    AddressingRow, ClaimedAddressing, RelationRow, SubjectRow,
};
use evo::paging::{clamp_page_size, DEFAULT_LIST_PAGE_SIZE, MAX_LIST_PAGE_SIZE};
use evo::responses::{ClientResponse, SubjectListEntryWire};

fn subjects(n: usize) -> Vec<SubjectRow> {
    // The ids are spread so that the snapshot is not in order.
    (0..n)
        .map(|i| SubjectRow {
            id: format!("id-{:04}", (i * 7919) % 10_000),
            subject_type: "track".into(),
            addressings: vec![ClaimedAddressing {
                scheme: "test".into(),
                value: format!("v-{i:04}"),
                claimant: "org.test.plugin".into(),
            }],
        })
        .collect()
}

fn relations(n: usize) -> Vec<RelationRow> {
    (0..n)
        .map(|i| RelationRow {
            source_id: format!("s-{:04}", i % 3),
            predicate: format!("pred-{:04}", i / 3),
            target_id: format!("t-{i:04}"),
            claimants: vec!["org.test.plugin".into()],
            suppression: None,
        })
        .collect()
}

fn issuer() -> ClaimantTokenIssuer {
    ClaimantTokenIssuer::new("test-instance")
}

fn subject_page(
    rows: &Vec<SubjectRow>,
    cursor: Option<String>,
    page_size: Option<usize>,
) -> (Vec<SubjectListEntryWire>, Option<String>, u64) {
    match handle_list_subjects(rows, &mut issuer(), 12, cursor, page_size) {
        ClientResponse::SubjectsPage { subjects, next_cursor, current_seq } => {
            (subjects, next_cursor, current_seq)
        }
        other => panic!("unexpected response: {other:?}"),
    }
}

#[test]
fn list_subjects_returns_every_seeded_row_exactly_once() {
    let rows = subjects(7);
    let mut ids = Vec::new();
    let mut seqs = Vec::new();
    let mut cursor: Option<String> = None;
    loop {
        let (page, next, seq) = subject_page(&rows, cursor, Some(3));
        seqs.push(seq);
        for s in page {
            ids.push(s.canonical_id);
        }
        cursor = next;
        if cursor.is_none() {
            break;
        }
    }
    assert_eq!(ids.len(), 7);
    let unique: std::collections::HashSet<_> = ids.iter().cloned().collect();
    assert_eq!(unique.len(), 7);
    for s in &seqs {
        assert_eq!(*s, seqs[0]);
    }
    let mut sorted = ids.clone();
    sorted.sort();
    assert_eq!(ids, sorted);
}

#[test]
fn list_subjects_page_size_clamped_to_limits() {
    let (page, next, _) = subject_page(&subjects(3), None, Some(MAX_LIST_PAGE_SIZE + 5));
    assert_eq!(page.len(), 3);
    assert!(next.is_none());
}

#[test]
fn list_relations_returns_every_seeded_edge_exactly_once() {
    let rows = relations(9);
    let mut all = Vec::new();
    let mut seqs = Vec::new();
    let mut cursor: Option<String> = None;
    loop {
        let response = handle_list_relations(&rows, &mut issuer(), 0, cursor, Some(4));
        let (page, next, seq) = match response {
            ClientResponse::RelationsPage { relations, next_cursor, current_seq } => {
                (relations, next_cursor, current_seq)
            }
            other => panic!("unexpected response: {other:?}"),
        };
        seqs.push(seq);
        for r in page {
            assert_eq!(r.claimant_tokens, vec![issuer().token_for("org.test.plugin")]);
            assert!(!r.suppressed);
            all.push((r.source_id, r.predicate, r.target_id));
        }
        cursor = next;
        if cursor.is_none() {
            break;
        }
    }
    assert_eq!(all.len(), 9);
    let unique: std::collections::HashSet<_> = all.iter().cloned().collect();
    assert_eq!(unique.len(), 9);
    for s in &seqs {
        assert_eq!(*s, seqs[0]);
    }
    let mut sorted = all.clone();
    sorted.sort();
    assert_eq!(all, sorted);
}

#[test]
fn enumerate_addressings_returns_every_seeded_addressing_exactly_once() {
    let rows: Vec<AddressingRow> = (0..11)
        .map(|i| AddressingRow {
            scheme: "test".into(),
            value: format!("v-{i:04}"),
            canonical_id: format!("id-{i}"),
        })
        .collect();
    let mut all = Vec::new();
    let mut seqs = Vec::new();
    let mut cursor: Option<String> = None;
    loop {
        let (page, next, seq) = match handle_enumerate_addressings(&rows, 3, cursor, Some(5)) {
            ClientResponse::AddressingsPage { addressings, next_cursor, current_seq } => {
                (addressings, next_cursor, current_seq)
            }
            other => panic!("unexpected response: {other:?}"),
        };
        seqs.push(seq);
        for a in page {
            all.push((a.scheme, a.value));
        }
        cursor = next;
        if cursor.is_none() {
            break;
        }
    }
    assert_eq!(all.len(), 11);
    let unique: std::collections::HashSet<_> = all.iter().cloned().collect();
    assert_eq!(unique.len(), 11);
    for s in &seqs {
        assert_eq!(*s, seqs[0]);
    }
}

#[test]
fn list_subjects_page_size_zero_clamps_up_to_one() {
    let (page, next, _) = subject_page(&subjects(3), None, Some(0));
    assert_eq!(page.len(), 1);
    assert!(next.is_some());
}

#[test]
fn list_subjects_mid_pagination_subject_delete_resilience() {
    let mut rows = subjects(25);
    let (page1, cursor1, _) = subject_page(&rows, None, Some(10));
    let page1_ids: Vec<String> = page1.into_iter().map(|s| s.canonical_id).collect();
    assert_eq!(page1_ids.len(), 10);
    assert!(cursor1.is_some(), "more pages expected");

    let target_id = page1_ids[5].clone();
    rows.retain(|r| r.id != target_id);

    let (page2, _, _) = subject_page(&rows, cursor1, Some(10));
    let page2_ids: Vec<String> = page2.into_iter().map(|s| s.canonical_id).collect();
    assert_eq!(page2_ids.len(), 10);
    for id in &page2_ids {
        assert_ne!(*id, target_id, "deleted subject must not reappear");
        assert!(page1_ids.iter().all(|p| p != id), "page 2 must not duplicate page 1 entries");
    }
}

#[test]
fn list_ops_reject_invalid_cursor_with_structured_error() {
    match handle_list_subjects(
        &subjects(1),
        &mut issuer(),
        0,
        Some("not-base64-!!!".to_string()),
        None,
    ) {
        ClientResponse::Error { error } => {
            assert_eq!(error.class, ErrorClass::ContractViolation);
            assert!(error.message.starts_with("invalid page cursor: "));
            assert_eq!(
                error.details.unwrap()["subclass"].as_str(),
                Some("invalid_page_cursor")
            );
        }
        other => panic!("unexpected response: {other:?}"),
    }
}

#[test]
fn cursors_that_are_no_text_are_refused() {
    let e = decode_page_cursor("/w==").unwrap_err();
    assert_eq!(e.class, ErrorClass::ContractViolation);
    assert!(e.message.starts_with("page cursor not utf8: "));
    match handle_list_relations(&relations(2), &mut issuer(), 0, Some("/w==".into()), None) {
        ClientResponse::Error { error } => assert_eq!(error.message, e.message),
        other => panic!("unexpected response: {other:?}"),
    }
}

#[test]
fn cursors_round_trip() {
    for key in ["", "abc", "s\0p\0t", "naïve-ключ"] {
        let cursor = encode_page_cursor(key);
        assert_eq!(decode_page_cursor(&cursor).unwrap(), key);
    }
    assert_eq!(encode_page_cursor("hello"), "aGVsbG8=");
}

#[test]
fn cursor_keys_join_their_parts_with_nul() {
    assert_eq!(subject_cursor_key("id"), "id");
    assert_eq!(relation_cursor_key("s", "p", "t"), "s\0p\0t");
    assert_eq!(addressing_cursor_key("scheme", "value"), "scheme\0value");
}

#[test]
fn page_sizes_are_clamped() {
    assert_eq!(clamp_page_size(None), DEFAULT_LIST_PAGE_SIZE);
    assert_eq!(clamp_page_size(Some(0)), 1);
    assert_eq!(clamp_page_size(Some(7)), 7);
    assert_eq!(clamp_page_size(Some(1000)), 1000);
    assert_eq!(clamp_page_size(Some(1001)), 1000);
    assert_eq!(DEFAULT_LIST_PAGE_SIZE, 100);
}

#[test]
fn a_cursor_past_the_end_gives_an_empty_last_page() {
    let (page, next, seq) =
        subject_page(&subjects(4), Some(encode_page_cursor("zzz")), Some(2));
    assert!(page.is_empty());
    assert!(next.is_none());
    assert_eq!(seq, 12);
}

#[test]
fn subjects_show_their_addressings_by_token() {
    let (page, _, _) = subject_page(&subjects(1), None, None);
    assert_eq!(page[0].subject_type, "track");
    assert_eq!(page[0].addressings[0].scheme, "test");
    assert_eq!(page[0].addressings[0].value, "v-0000");
    assert_eq!(
        page[0].addressings[0].claimant_token,
        issuer().token_for("org.test.plugin")
    );
}
