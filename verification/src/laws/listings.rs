//! What the pages of a listing hold, and where their cursors lead.

use crate::claimant::{token_of, ClaimantTokenIssuer};
use crate::codec::base64_decoded;
use crate::errors::{ApiError, ErrorClass};
use crate::laws::refusals::{refuses, says};
use crate::listings::{addressing_cursor_key, decode_page_cursor, encode_page_cursor};
use crate::listings::{handle_enumerate_addressings, handle_list_relations};
use crate::listings::{handle_list_subjects, relation_cursor_key, subject_cursor_key, utf8_error};
use crate::listings::{AddressingRow, RelationRow, SubjectRow};
use crate::paging::{clamp_page_size, joined, keys_ascend, law_keys_ascend, law_ordered};
use crate::paging::{lemma_first_after, lemma_ordered_from, nul_free, ordered, page_end};
use crate::paging::{next_key, page_rows, page_start, parts_lt, sort_rows, PageRow};
use crate::responses::{AddressingListEntryWire, ClientResponse, RelationListEntryWire};
use crate::responses::SubjectListEntryWire;
use crate::text::{lemma_lex_irreflexive, lemma_lex_transitive, text_lt};
use vstd::prelude::*;
use vstd::utf8::*;

verus! {

/// A subject as a page shows it.
pub open spec fn subject_entry(
    w: SubjectListEntryWire,
    row: SubjectRow,
    steward: Seq<char>,
) -> bool {
    &&& w.canonical_id@ == row.id@
    &&& w.subject_type@ == row.subject_type@
    &&& w.addressings@.len() == row.addressings@.len()
    &&& forall|i: int|
        0 <= i < row.addressings@.len() ==> {
            &&& (#[trigger] w.addressings@[i]).scheme@ == row.addressings@[i].scheme@
            &&& w.addressings@[i].value@ == row.addressings@[i].value@
            &&& w.addressings@[i].claimant_token == token_of(
                steward,
                row.addressings@[i].claimant@,
            )
        }
}

/// A relation as a page shows it: marked as suppressed exactly if it carries a
/// suppression record.
pub open spec fn relation_entry(
    w: RelationListEntryWire,
    row: RelationRow,
    steward: Seq<char>,
) -> bool {
    &&& w.source_id@ == row.source_id@
    &&& w.predicate@ == row.predicate@
    &&& w.target_id@ == row.target_id@
    &&& w.suppressed <==> row.suppression is Some
    &&& w.claimant_tokens@.len() == row.claimants@.len()
    &&& forall|i: int|
        0 <= i < row.claimants@.len() ==> #[trigger] w.claimant_tokens@[i] == token_of(
            steward,
            row.claimants@[i]@,
        )
}

/// An addressing as a page shows it.
pub open spec fn addressing_entry(w: AddressingListEntryWire, row: AddressingRow) -> bool {
    w.scheme@ == row.scheme@ && w.value@ == row.value@ && w.canonical_id@ == row.canonical_id@
}

/// How many entries a page can have: as many as asked for, a hundred where nothing
/// is asked, at least one and at most a thousand.
pub open spec fn room(page_size: Option<usize>) -> int {
    match page_size {
        None => 100,
        Some(n) => if n == 0 {
            1
        } else if n > 1000 {
            1000
        } else {
            n as int
        },
    }
}

/// The size of a page.
pub proof fn law_pages_have_room(page_size: Option<usize>, r: usize)
    requires
        call_ensures(clamp_page_size, (page_size,), r),
    ensures
        r == room(page_size),
{
}

/// The keys by which rows are found again.
pub proof fn law_cursor_keys_join_the_parts(
    a: &str,
    b: &str,
    c: &str,
    one: String,
    two: String,
    three: String,
)
    requires
        call_ensures(subject_cursor_key, (a,), one),
        call_ensures(addressing_cursor_key, (a, b), two),
        call_ensures(relation_cursor_key, (a, b, c), three),
    ensures
        one@ == a@,
        two@ == a@ + seq!['\0'] + b@,
        three@ == a@ + seq!['\0'] + b@ + seq!['\0'] + c@,
{
    lemma_joined2(a@, b@);
    lemma_joined3(a@, b@, c@);
    reveal_with_fuel(joined, 2);
}

proof fn lemma_joined2(a: Seq<char>, b: Seq<char>)
    ensures
        joined(seq![a, b]) == a + seq!['\0'] + b,
{
    reveal_with_fuel(joined, 3);
    assert(seq![a, b].drop_first() =~= seq![b]);
}

proof fn lemma_joined3(a: Seq<char>, b: Seq<char>, c: Seq<char>)
    ensures
        joined(seq![a, b, c]) == a + seq!['\0'] + b + seq!['\0'] + c,
{
    lemma_joined2(b, c);
    reveal_with_fuel(joined, 2);
    assert(seq![a, b, c].drop_first() =~= seq![b, c]);
    assert(a + seq!['\0'] + (b + seq!['\0'] + c) =~= a + seq!['\0'] + b + seq!['\0'] + c);
}

/// A cursor stands for the key that it was made of, and one that is no base64 of a
/// UTF-8 text is refused for that reason.
pub proof fn law_cursors_stand_for_their_keys(
    key: &str,
    cursor: String,
    other: &str,
    read: Result<String, ApiError>,
)
    requires
        call_ensures(encode_page_cursor, (key,), cursor),
        call_ensures(decode_page_cursor, (other,), read),
    ensures
        other@ == cursor@ ==> read is Ok && read->Ok_0@ == key@,
        match base64_decoded(other@) {
            Ok(bytes) => if valid_utf8(bytes) {
                read is Ok && read->Ok_0@ == decode_utf8(bytes)
            } else {
                read is Err && says(
                    read->Err_0,
                    ErrorClass::ContractViolation,
                    "page cursor not utf8: "@ + utf8_error(bytes),
                    "invalid_page_cursor"@,
                )
            },
            Err(why) => read is Err && says(
                read->Err_0,
                ErrorClass::ContractViolation,
                "invalid page cursor: "@ + why,
                "invalid_page_cursor"@,
            ),
        },
{
}

/// The rows after a place in a listing.
spec fn beyond(after: Option<Seq<char>>, key: Seq<char>) -> bool {
    match after {
        Some(k) => text_lt(k, key),
        None => true,
    }
}

proof fn lemma_page<T: PageRow>(rows: Seq<T>, after: Option<Seq<char>>, limit: int)
    requires
        limit >= 1,
    ensures
        ({
            let want = page_rows(ordered(rows), after, limit);
            let next = next_key(ordered(rows), after, limit);
            &&& want.len() <= limit
            &&& next is Some ==> want.len() == limit && next->0 == joined(want.last().parts())
            &&& forall|i: int|
                0 <= i < want.len() ==> exists|a: int|
                    0 <= a < rows.len() && rows[a] == #[trigger] want[i]
            &&& forall|i: int, j: int|
                0 <= i < j < want.len() ==> !parts_lt(
                    (#[trigger] want[j]).parts(),
                    (#[trigger] want[i]).parts(),
                )
        }),
{
    let s = ordered(rows);
    law_ordered(rows);
    lemma_ordered_from(rows);
    if let Some(k) = after {
        lemma_first_after(s, k);
    }
    let start = page_start(s, after);
    let want = page_rows(s, after, limit);
    assert forall|i: int| 0 <= i < want.len() implies exists|a: int|
        0 <= a < rows.len() && rows[a] == #[trigger] want[i] by {
        assert(want[i] == s[start + i]);
        let a = choose|a: int| 0 <= a < rows.len() && rows[a] == s[start + i];
        assert(rows[a] == want[i]);
    }
    assert forall|i: int, j: int| 0 <= i < j < want.len() implies !parts_lt(
        (#[trigger] want[j]).parts(),
        (#[trigger] want[i]).parts(),
    ) by {
        assert(want[i] == s[start + i] && want[j] == s[start + j]);
    }
}

proof fn lemma_page_is_complete<T: PageRow>(
    rows: Seq<T>,
    after: Option<Seq<char>>,
    limit: int,
    a: int,
)
    requires
        limit >= 1,
        keys_ascend(ordered(rows)),
        0 <= a < rows.len(),
    ensures
        ({
            let want = page_rows(ordered(rows), after, limit);
            let next = next_key(ordered(rows), after, limit);
            &&& forall|i: int|
                0 <= i < want.len() ==> beyond(after, joined((#[trigger] want[i]).parts()))
            &&& beyond(after, joined(rows[a].parts())) && (next is Some ==> text_lt(
                joined(rows[a].parts()),
                next->0,
            )) ==> exists|i: int| 0 <= i < want.len() && (#[trigger] want[i]) == rows[a]
            &&& next is Some ==> exists|b: int|
                0 <= b < rows.len() && text_lt(next->0, joined((#[trigger] rows[b]).parts()))
        }),
{
    broadcast use vstd::seq_lib::group_to_multiset_ensures;

    let s = ordered(rows);
    law_ordered(rows);
    if let Some(k) = after {
        lemma_first_after(s, k);
    }
    let start = page_start(s, after);
    let end = page_end(s, after, limit);
    let want = page_rows(s, after, limit);
    let next = next_key(s, after, limit);
    if next is Some {
        lemma_ordered_from(rows);
        assert(text_lt(joined(s[end - 1].parts()), joined(s[end].parts())));
        let b = choose|b: int| 0 <= b < rows.len() && rows[b] == s[end];
        assert(rows[b] == s[end]);
    }
    assert forall|i: int| 0 <= i < want.len() implies beyond(
        after,
        joined((#[trigger] want[i]).parts()),
    ) by {
        assert(want[i] == s[start + i]);
        if let Some(k) = after {
            if i > 0 {
                assert(text_lt(joined(s[start].parts()), joined(s[start + i].parts())));
                lemma_lex_transitive(
                    encode_utf8(k),
                    encode_utf8(joined(s[start].parts())),
                    encode_utf8(joined(s[start + i].parts())),
                );
            }
        }
    }
    if beyond(after, joined(rows[a].parts())) && (next is Some ==> text_lt(
        joined(rows[a].parts()),
        next->0,
    )) {
        assert(rows.to_multiset().count(rows[a]) > 0) by {
            assert(rows.contains(rows[a]));
        }
        assert(s.contains(rows[a]));
        let m = choose|m: int| 0 <= m < s.len() && s[m] == rows[a];
        assert(start <= m);
        if m >= end {
            assert(next is Some);
            assert(next->0 == joined(s[end - 1].parts()));
            if m > end - 1 {
                assert(text_lt(joined(s[end - 1].parts()), joined(s[m].parts())));
                lemma_lex_transitive(
                    encode_utf8(joined(s[m].parts())),
                    encode_utf8(next->0),
                    encode_utf8(joined(s[m].parts())),
                );
                lemma_lex_irreflexive(encode_utf8(joined(s[m].parts())));
            }
        }
        assert(want[m - start] == rows[a]);
    }
}

/// Where a cursor stands, if it is one.
pub open spec fn stands_at(cursor: Option<String>) -> Option<Seq<char>> {
    match cursor {
        Some(c) => match base64_decoded(c@) {
            Ok(bytes) => Some(decode_utf8(bytes)),
            Err(_) => None,
        },
        None => None,
    }
}

/// The cursor is a base64 of a UTF-8 text.
pub open spec fn is_cursor(cursor: Seq<char>) -> bool {
    base64_decoded(cursor) matches Ok(bytes) && valid_utf8(bytes)
}

/// The cursor is refused for what is wrong with it.
pub open spec fn refuses_cursor(r: ClientResponse, cursor: Seq<char>) -> bool {
    refuses(
        r,
        ErrorClass::ContractViolation,
        match base64_decoded(cursor) {
            Ok(bytes) => "page cursor not utf8: "@ + utf8_error(bytes),
            Err(why) => "invalid page cursor: "@ + why,
        },
        "invalid_page_cursor"@,
    )
}

/// The entries of a page of relations are relations of the snapshot, in order, and
/// no more than there is room for. Where the listing goes on, the page is full and
/// its cursor stands for its last entry.
pub proof fn law_relation_pages_show_the_relations(
    rows: &Vec<RelationRow>,
    issuer: &mut ClaimantTokenIssuer,
    current_seq: u64,
    cursor: Option<String>,
    page_size: Option<usize>,
    r: ClientResponse,
)
    requires
        call_ensures(
            handle_list_relations,
            (rows, issuer, current_seq, cursor, page_size),
            r,
        ),
    ensures
        cursor is Some && !is_cursor(cursor->0@) <==> r is Error,
        r is Error ==> refuses_cursor(r, cursor->0@),
        r is Error || r is RelationsPage,
        r matches ClientResponse::RelationsPage { relations, next_cursor, current_seq: seq } ==> {
            &&& seq == current_seq
            &&& relations@.len() <= room(page_size)
            &&& forall|i: int|
                0 <= i < relations@.len() ==> exists|a: int|
                    0 <= a < rows@.len() && relation_entry(
                        #[trigger] relations@[i],
                        #[trigger] rows@[a],
                        old(issuer).instance_id@,
                    )
            &&& next_cursor is Some ==> {
                &&& relations@.len() == room(page_size)
                &&& is_cursor(next_cursor->0@)
                &&& stands_at(next_cursor)->0 == relations@.last().source_id@ + seq!['\0']
                    + relations@.last().predicate@ + seq!['\0'] + relations@.last().target_id@
            }
        },
{
    let after = crate::listings::after_key(cursor);
    let limit = room(page_size);
    let want = page_rows(ordered(rows@), after, limit);
    lemma_page(rows@, after, limit);
    if let ClientResponse::RelationsPage { relations, next_cursor, .. } = r {
        assert forall|i: int| 0 <= i < relations@.len() implies exists|a: int|
            0 <= a < rows@.len() && relation_entry(
                #[trigger] relations@[i],
                #[trigger] rows@[a],
                old(issuer).instance_id@,
            ) by {
            assert(relations@[i].shows(want[i], old(issuer).instance_id@));
            let a = choose|a: int| 0 <= a < rows@.len() && rows@[a] == want[i];
            assert(relation_entry(relations@[i], rows@[a], old(issuer).instance_id@));
        }
        if next_cursor is Some {
            let last = want.len() - 1;
            assert(relations@[last].shows(want[last], old(issuer).instance_id@));
            lemma_joined3(
                want[last].source_id@,
                want[last].predicate@,
                want[last].target_id@,
            );
        }
    }
}

/// The relations on a page come after the cursor, and no relation that comes after
/// the cursor and before the page's end is missing. A cursor to go on from promises more.
pub proof fn law_relation_pages_are_complete(
    rows: &Vec<RelationRow>,
    issuer: &mut ClaimantTokenIssuer,
    current_seq: u64,
    cursor: Option<String>,
    page_size: Option<usize>,
    relations: Vec<RelationListEntryWire>,
    next_cursor: Option<String>,
    a: int,
)
    requires
        call_ensures(
            handle_list_relations,
            (rows, issuer, current_seq, cursor, page_size),
            (ClientResponse::RelationsPage { relations, next_cursor, current_seq }),
        ),
        forall|i: int, p: int|
            0 <= i < rows@.len() && 0 <= p < 3 ==> nul_free(#[trigger] rows@[i].parts()[p]),
        forall|i: int, j: int|
            0 <= i < rows@.len() && 0 <= j < rows@.len() && i != j ==> (
            #[trigger] rows@[i]).parts() != (#[trigger] rows@[j]).parts(),
        0 <= a < rows@.len(),
    ensures
        ({
            let key = rows@[a].source_id@ + seq!['\0'] + rows@[a].predicate@ + seq!['\0']
                + rows@[a].target_id@;
            &&& cursor is None || text_lt(stands_at(cursor)->0, key)
            &&& next_cursor is None || text_lt(key, stands_at(next_cursor)->0)
        }) ==> exists|i: int|
            0 <= i < relations@.len() && relation_entry(
                #[trigger] relations@[i],
                rows@[a],
                old(issuer).instance_id@,
            ),
        cursor is Some ==> forall|i: int|
            0 <= i < relations@.len() ==> text_lt(
                stands_at(cursor)->0,
                (#[trigger] relations@[i]).source_id@ + seq!['\0'] + relations@[i].predicate@
                    + seq!['\0'] + relations@[i].target_id@,
            ),
        next_cursor is Some ==> exists|b: int|
            0 <= b < rows@.len() && text_lt(
                stands_at(next_cursor)->0,
                (#[trigger] rows@[b]).source_id@ + seq!['\0'] + rows@[b].predicate@ + seq!['\0']
                    + rows@[b].target_id@,
            ),
{
    let after = crate::listings::after_key(cursor);
    let limit = room(page_size);
    let want = page_rows(ordered(rows@), after, limit);
    law_keys_ascend(rows@, 3);
    lemma_page_is_complete(rows@, after, limit, a);
    lemma_joined3(rows@[a].source_id@, rows@[a].predicate@, rows@[a].target_id@);
    if next_cursor is Some {
        let next = next_key(ordered(rows@), after, limit)->0;
        let b = choose|b: int|
            0 <= b < rows@.len() && text_lt(next, joined((#[trigger] rows@[b]).parts()));
        lemma_joined3(rows@[b].source_id@, rows@[b].predicate@, rows@[b].target_id@);
        assert(text_lt(next, joined(rows@[b].parts())));
    }
    assert forall|i: int| 0 <= i < want.len() implies relation_entry(
        #[trigger] relations@[i],
        want[i],
        old(issuer).instance_id@,
    ) by {
        assert(relations@[i].shows(want[i], old(issuer).instance_id@));
    }
    if exists|i: int| 0 <= i < want.len() && (#[trigger] want[i]) == rows@[a] {
        let i = choose|i: int| 0 <= i < want.len() && (#[trigger] want[i]) == rows@[a];
        assert(relation_entry(relations@[i], rows@[a], old(issuer).instance_id@));
    }
    if cursor is Some {
        assert forall|i: int| 0 <= i < relations@.len() implies text_lt(
            stands_at(cursor)->0,
            (#[trigger] relations@[i]).source_id@ + seq!['\0'] + relations@[i].predicate@
                + seq!['\0'] + relations@[i].target_id@,
        ) by {
            lemma_joined3(want[i].source_id@, want[i].predicate@, want[i].target_id@);
            assert(beyond(after, joined(want[i].parts())));
        }
    }
}

/// The entries of a page of subjects are subjects of the snapshot, each with its
/// addressings, and no more than there is room for. Where the listing goes on, the
/// page is full and its cursor stands for its last entry.
pub proof fn law_subject_pages_show_the_subjects(
    rows: &Vec<SubjectRow>,
    issuer: &mut ClaimantTokenIssuer,
    current_seq: u64,
    cursor: Option<String>,
    page_size: Option<usize>,
    r: ClientResponse,
)
    requires
        call_ensures(handle_list_subjects, (rows, issuer, current_seq, cursor, page_size), r),
    ensures
        cursor is Some && !is_cursor(cursor->0@) <==> r is Error,
        r is Error ==> refuses_cursor(r, cursor->0@),
        r is Error || r is SubjectsPage,
        r matches ClientResponse::SubjectsPage { subjects, next_cursor, current_seq: seq } ==> {
            &&& seq == current_seq
            &&& subjects@.len() <= room(page_size)
            &&& forall|i: int|
                0 <= i < subjects@.len() ==> exists|a: int|
                    0 <= a < rows@.len() && subject_entry(
                        #[trigger] subjects@[i],
                        #[trigger] rows@[a],
                        old(issuer).instance_id@,
                    )
            &&& next_cursor is Some ==> {
                &&& subjects@.len() == room(page_size)
                &&& is_cursor(next_cursor->0@)
                &&& stands_at(next_cursor)->0 == subjects@.last().canonical_id@
            }
        },
{
    let after = crate::listings::after_key(cursor);
    let limit = room(page_size);
    let want = page_rows(ordered(rows@), after, limit);
    lemma_page(rows@, after, limit);
    if let ClientResponse::SubjectsPage { subjects, next_cursor, .. } = r {
        assert forall|i: int| 0 <= i < subjects@.len() implies exists|a: int|
            0 <= a < rows@.len() && subject_entry(
                #[trigger] subjects@[i],
                #[trigger] rows@[a],
                old(issuer).instance_id@,
            ) by {
            assert(subjects@[i].shows(want[i], old(issuer).instance_id@));
            let a = choose|a: int| 0 <= a < rows@.len() && rows@[a] == want[i];
            assert(subject_entry(subjects@[i], rows@[a], old(issuer).instance_id@));
        }
        if next_cursor is Some {
            let last = want.len() - 1;
            assert(subjects@[last].shows(want[last], old(issuer).instance_id@));
            reveal_with_fuel(joined, 2);
        }
    }
}

/// The subjects on a page come after the cursor, and no subject that comes after
/// the cursor and before the page's end is missing. A cursor to go on from promises more.
pub proof fn law_subject_pages_are_complete(
    rows: &Vec<SubjectRow>,
    issuer: &mut ClaimantTokenIssuer,
    current_seq: u64,
    cursor: Option<String>,
    page_size: Option<usize>,
    subjects: Vec<SubjectListEntryWire>,
    next_cursor: Option<String>,
    a: int,
)
    requires
        call_ensures(
            handle_list_subjects,
            (rows, issuer, current_seq, cursor, page_size),
            (ClientResponse::SubjectsPage { subjects, next_cursor, current_seq }),
        ),
        forall|i: int, j: int|
            0 <= i < rows@.len() && 0 <= j < rows@.len() && i != j ==> (#[trigger] rows@[i]).id@
                != (#[trigger] rows@[j]).id@,
        0 <= a < rows@.len(),
    ensures
        (cursor is None || text_lt(stands_at(cursor)->0, rows@[a].id@)) && (next_cursor is None
            || text_lt(rows@[a].id@, stands_at(next_cursor)->0)) ==> exists|i: int|
            0 <= i < subjects@.len() && subject_entry(
                #[trigger] subjects@[i],
                rows@[a],
                old(issuer).instance_id@,
            ),
        cursor is Some ==> forall|i: int|
            0 <= i < subjects@.len() ==> text_lt(
                stands_at(cursor)->0,
                (#[trigger] subjects@[i]).canonical_id@,
            ),
        next_cursor is Some ==> exists|b: int|
            0 <= b < rows@.len() && text_lt(stands_at(next_cursor)->0, (#[trigger] rows@[b]).id@),
{
    let after = crate::listings::after_key(cursor);
    let limit = room(page_size);
    let want = page_rows(ordered(rows@), after, limit);
    reveal_with_fuel(joined, 2);
    assert forall|i: int, j: int|
        0 <= i < rows@.len() && 0 <= j < rows@.len() && i != j implies (
        #[trigger] rows@[i]).parts() != (#[trigger] rows@[j]).parts() by {
        assert(rows@[i].parts()[0] != rows@[j].parts()[0]);
    }
    law_keys_ascend(rows@, 1);
    lemma_page_is_complete(rows@, after, limit, a);
    if next_cursor is Some {
        let next = next_key(ordered(rows@), after, limit)->0;
        let b = choose|b: int|
            0 <= b < rows@.len() && text_lt(next, joined((#[trigger] rows@[b]).parts()));
        assert(text_lt(next, joined(rows@[b].parts())));
    }
    assert forall|i: int| 0 <= i < want.len() implies subject_entry(
        #[trigger] subjects@[i],
        want[i],
        old(issuer).instance_id@,
    ) by {
        assert(subjects@[i].shows(want[i], old(issuer).instance_id@));
    }
    if exists|i: int| 0 <= i < want.len() && (#[trigger] want[i]) == rows@[a] {
        let i = choose|i: int| 0 <= i < want.len() && (#[trigger] want[i]) == rows@[a];
        assert(subject_entry(subjects@[i], rows@[a], old(issuer).instance_id@));
    }
    if cursor is Some {
        assert forall|i: int| 0 <= i < subjects@.len() implies text_lt(
            stands_at(cursor)->0,
            (#[trigger] subjects@[i]).canonical_id@,
        ) by {
            assert(beyond(after, joined(want[i].parts())));
        }
    }
}

/// The entries of a page of addressings are addressings of the snapshot, each with
/// the subject that it leads to, and no more than there is room for. Where the
/// listing goes on, the page is full and its cursor stands for its last entry.
pub proof fn law_addressing_pages_show_the_addressings(
    rows: &Vec<AddressingRow>,
    current_seq: u64,
    cursor: Option<String>,
    page_size: Option<usize>,
    r: ClientResponse,
)
    requires
        call_ensures(handle_enumerate_addressings, (rows, current_seq, cursor, page_size), r),
    ensures
        cursor is Some && !is_cursor(cursor->0@) <==> r is Error,
        r is Error ==> refuses_cursor(r, cursor->0@),
        r is Error || r is AddressingsPage,
        r matches ClientResponse::AddressingsPage { addressings, next_cursor, current_seq: seq }
            ==> {
            &&& seq == current_seq
            &&& addressings@.len() <= room(page_size)
            &&& forall|i: int|
                0 <= i < addressings@.len() ==> exists|a: int|
                    0 <= a < rows@.len() && addressing_entry(
                        #[trigger] addressings@[i],
                        #[trigger] rows@[a],
                    )
            &&& next_cursor is Some ==> {
                &&& addressings@.len() == room(page_size)
                &&& is_cursor(next_cursor->0@)
                &&& stands_at(next_cursor)->0 == addressings@.last().scheme@ + seq!['\0']
                    + addressings@.last().value@
            }
        },
{
    let after = crate::listings::after_key(cursor);
    let limit = room(page_size);
    let want = page_rows(ordered(rows@), after, limit);
    lemma_page(rows@, after, limit);
    if let ClientResponse::AddressingsPage { addressings, next_cursor, .. } = r {
        assert forall|i: int| 0 <= i < addressings@.len() implies exists|a: int|
            0 <= a < rows@.len() && addressing_entry(
                #[trigger] addressings@[i],
                #[trigger] rows@[a],
            ) by {
            let a = choose|a: int| 0 <= a < rows@.len() && rows@[a] == want[i];
            assert(addressing_entry(addressings@[i], rows@[a]));
        }
        if next_cursor is Some {
            let last = want.len() - 1;
            lemma_joined2(want[last].scheme@, want[last].value@);
        }
    }
}

/// The addressings on a page come after the cursor, and none that comes after the
/// cursor and before the page's end is missing.
pub proof fn law_addressing_pages_are_complete(
    rows: &Vec<AddressingRow>,
    current_seq: u64,
    cursor: Option<String>,
    page_size: Option<usize>,
    addressings: Vec<AddressingListEntryWire>,
    next_cursor: Option<String>,
    a: int,
)
    requires
        call_ensures(
            handle_enumerate_addressings,
            (rows, current_seq, cursor, page_size),
            (ClientResponse::AddressingsPage { addressings, next_cursor, current_seq }),
        ),
        forall|i: int, p: int|
            0 <= i < rows@.len() && 0 <= p < 2 ==> nul_free(#[trigger] rows@[i].parts()[p]),
        forall|i: int, j: int|
            0 <= i < rows@.len() && 0 <= j < rows@.len() && i != j ==> (
            #[trigger] rows@[i]).parts() != (#[trigger] rows@[j]).parts(),
        0 <= a < rows@.len(),
    ensures
        ({
            let key = rows@[a].scheme@ + seq!['\0'] + rows@[a].value@;
            &&& cursor is None || text_lt(stands_at(cursor)->0, key)
            &&& next_cursor is None || text_lt(key, stands_at(next_cursor)->0)
        }) ==> exists|i: int|
            0 <= i < addressings@.len() && addressing_entry(#[trigger] addressings@[i], rows@[a]),
        cursor is Some ==> forall|i: int|
            0 <= i < addressings@.len() ==> text_lt(
                stands_at(cursor)->0,
                (#[trigger] addressings@[i]).scheme@ + seq!['\0'] + addressings@[i].value@,
            ),
        next_cursor is Some ==> exists|b: int|
            0 <= b < rows@.len() && text_lt(
                stands_at(next_cursor)->0,
                (#[trigger] rows@[b]).scheme@ + seq!['\0'] + rows@[b].value@,
            ),
{
    let after = crate::listings::after_key(cursor);
    let limit = room(page_size);
    let want = page_rows(ordered(rows@), after, limit);
    law_keys_ascend(rows@, 2);
    lemma_page_is_complete(rows@, after, limit, a);
    lemma_joined2(rows@[a].scheme@, rows@[a].value@);
    if next_cursor is Some {
        let next = next_key(ordered(rows@), after, limit)->0;
        let b = choose|b: int|
            0 <= b < rows@.len() && text_lt(next, joined((#[trigger] rows@[b]).parts()));
        lemma_joined2(rows@[b].scheme@, rows@[b].value@);
        assert(text_lt(next, joined(rows@[b].parts())));
    }
    if exists|i: int| 0 <= i < want.len() && (#[trigger] want[i]) == rows@[a] {
        let i = choose|i: int| 0 <= i < want.len() && (#[trigger] want[i]) == rows@[a];
        assert(addressing_entry(addressings@[i], rows@[a]));
    }
    if cursor is Some {
        assert forall|i: int| 0 <= i < addressings@.len() implies text_lt(
            stands_at(cursor)->0,
            (#[trigger] addressings@[i]).scheme@ + seq!['\0'] + addressings@[i].value@,
        ) by {
            lemma_joined2(want[i].scheme@, want[i].value@);
            assert(beyond(after, joined(want[i].parts())));
        }
    }
}

/// Sorting gives every row once, in the order of its texts.
pub proof fn law_rows_are_sorted<T: PageRow>(rows: &Vec<T>, r: Vec<&T>)
    requires
        call_ensures(sort_rows::<T>, (rows,), r),
    ensures
        r@.map_values(|x: &T| *x).to_multiset() == rows@.to_multiset(),
        forall|i: int, j: int|
            0 <= i < j < r@.len() ==> !parts_lt(
                (#[trigger] r@[j]).parts(),
                (#[trigger] r@[i]).parts(),
            ),
{
    law_ordered(rows@);
    assert(r@.map_values(|x: &T| *x) =~= ordered(rows@));
    assert forall|i: int, j: int| 0 <= i < j < r@.len() implies !parts_lt(
        (#[trigger] r@[j]).parts(),
        (#[trigger] r@[i]).parts(),
    ) by {
        assert(!parts_lt(ordered(rows@)[j].parts(), ordered(rows@)[i].parts()));
    }
}

/// The entries of a page are in order: relations by source, then predicate, then
/// target; subjects by id; addressings by scheme, then value.
pub proof fn law_pages_are_in_order(
    relations: &Vec<RelationRow>,
    subjects: &Vec<SubjectRow>,
    addressings: &Vec<AddressingRow>,
    issuer: &mut ClaimantTokenIssuer,
    current_seq: u64,
    cursor: Option<String>,
    page_size: Option<usize>,
    r: ClientResponse,
    i: int,
    j: int,
)
    requires
        0 <= i < j,
    ensures
        call_ensures(
            handle_list_relations,
            (relations, issuer, current_seq, cursor, page_size),
            r,
        ) ==> match r {
            ClientResponse::RelationsPage { relations: shown, .. } => j < shown@.len() ==> {
                let (a, b) = (shown@[i], shown@[j]);
                ||| text_lt(a.source_id@, b.source_id@)
                ||| a.source_id@ == b.source_id@ && text_lt(a.predicate@, b.predicate@)
                ||| a.source_id@ == b.source_id@ && a.predicate@ == b.predicate@ && !text_lt(
                    b.target_id@,
                    a.target_id@,
                )
            },
            _ => true,
        },
        call_ensures(handle_list_subjects, (subjects, issuer, current_seq, cursor, page_size), r)
            ==> match r {
            ClientResponse::SubjectsPage { subjects: shown, .. } => j < shown@.len() ==> !text_lt(
                shown@[j].canonical_id@,
                shown@[i].canonical_id@,
            ),
            _ => true,
        },
        call_ensures(
            handle_enumerate_addressings,
            (addressings, current_seq, cursor, page_size),
            r,
        ) ==> match r {
            ClientResponse::AddressingsPage { addressings: shown, .. } => j < shown@.len() ==> {
                let (a, b) = (shown@[i], shown@[j]);
                ||| text_lt(a.scheme@, b.scheme@)
                ||| a.scheme@ == b.scheme@ && !text_lt(b.value@, a.value@)
            },
            _ => true,
        },
{
    let after = crate::listings::after_key(cursor);
    let limit = room(page_size);
    if call_ensures(
        handle_list_relations,
        (relations, issuer, current_seq, cursor, page_size),
        r,
    ) && r is RelationsPage && j < r->relations@.len() {
        let want = page_rows(ordered(relations@), after, limit);
        lemma_page(relations@, after, limit);
        let (a, b) = (want[i], want[j]);
        assert(r->relations@[i].shows(a, old(issuer).instance_id@));
        assert(r->relations@[j].shows(b, old(issuer).instance_id@));
        assert(!parts_lt(b.parts(), a.parts()));
        reveal_with_fuel(parts_lt, 4);
        assert(a.parts().drop_first() =~= seq![a.predicate@, a.target_id@]);
        assert(b.parts().drop_first() =~= seq![b.predicate@, b.target_id@]);
        assert(a.parts().drop_first().drop_first() =~= seq![a.target_id@]);
        assert(b.parts().drop_first().drop_first() =~= seq![b.target_id@]);
        crate::text::lemma_text_total(a.source_id@, b.source_id@);
        crate::text::lemma_text_total(a.predicate@, b.predicate@);
        lemma_lex_irreflexive(encode_utf8(a.target_id@));
    }
    if call_ensures(handle_list_subjects, (subjects, issuer, current_seq, cursor, page_size), r)
        && r is SubjectsPage && j < r->subjects@.len() {
        let want = page_rows(ordered(subjects@), after, limit);
        lemma_page(subjects@, after, limit);
        let (a, b) = (want[i], want[j]);
        assert(r->subjects@[i].shows(a, old(issuer).instance_id@));
        assert(r->subjects@[j].shows(b, old(issuer).instance_id@));
        assert(!parts_lt(b.parts(), a.parts()));
        reveal_with_fuel(parts_lt, 2);
        lemma_lex_irreflexive(encode_utf8(a.id@));
    }
    if call_ensures(
        handle_enumerate_addressings,
        (addressings, current_seq, cursor, page_size),
        r,
    ) && r is AddressingsPage && j < r->addressings@.len() {
        let want = page_rows(ordered(addressings@), after, limit);
        lemma_page(addressings@, after, limit);
        let (a, b) = (want[i], want[j]);
        assert(!parts_lt(b.parts(), a.parts()));
        reveal_with_fuel(parts_lt, 3);
        assert(a.parts().drop_first() =~= seq![a.value@]);
        assert(b.parts().drop_first() =~= seq![b.value@]);
        crate::text::lemma_text_total(a.scheme@, b.scheme@);
        lemma_lex_irreflexive(encode_utf8(a.value@));
    }
}

}
