//! The paged listings of subjects, relations and addressings.

use crate::claimant::{all_names, learns, lemma_learns_both, lemma_learns_list};
use crate::claimant::{lemma_learns_no_list, lemma_learns_nothing, token_of, ClaimantTokenIssuer};
use crate::codec::{base64_decoded, base64_text, decode, encodable, encode};
use crate::errors::{is_error, refusal, ApiError, ErrorClass};
use crate::happenings::SuppressionRecord;
use crate::paging::{clamp_page_size, joined, next_key, ordered, page, page_rows, page_size_for};
use crate::paging::{lemma_first_after, lemma_ordered_from, page_end, parts_lt, PageRow};
use crate::responses::{AddressingListEntryWire, ClientResponse, RelationListEntryWire};
use crate::responses::{SubjectListAddressingWire, SubjectListEntryWire};
use crate::text::{concat2, concat3, concat5, lemma_lex_irreflexive, same_text, text_before};
use vstd::prelude::*;
use vstd::string::*;
use vstd::utf8::*;

verus! {

/// Why some bytes are no UTF-8 text.
pub uninterp spec fn utf8_error(bytes: Seq<u8>) -> Seq<char>;

/// Calls `std::string::String::from_utf8`: the text that the bytes encode, or,
/// where they are no UTF-8, the error as text, named by [`utf8_error`].
#[verifier::external_body]
fn text_of_bytes(bytes: Vec<u8>) -> (r: Result<String, String>)
    ensures
        match r {
            Ok(text) => valid_utf8(bytes@) && text@ == decode_utf8(bytes@),
            Err(why) => !valid_utf8(bytes@) && why@ == utf8_error(bytes@),
        },
{
    String::from_utf8(bytes).map_err(|e| e.to_string())
}

/// The key that a cursor stands for.
pub open spec fn cursor_key(cursor: Seq<char>) -> Option<Seq<char>> {
    match base64_decoded(cursor) {
        Ok(bytes) => if valid_utf8(bytes) {
            Some(decode_utf8(bytes))
        } else {
            None
        },
        Err(_) => None,
    }
}

/// The refusal of a cursor that stands for no key.
pub open spec fn refuses_cursor(e: ApiError, cursor: Seq<char>) -> bool {
    match base64_decoded(cursor) {
        Ok(bytes) => is_error(
            e,
            ErrorClass::ContractViolation,
            "page cursor not utf8: "@ + utf8_error(bytes),
            "invalid_page_cursor"@,
        ),
        Err(why) => is_error(
            e,
            ErrorClass::ContractViolation,
            "invalid page cursor: "@ + why,
            "invalid_page_cursor"@,
        ),
    }
}

/// The key that a cursor stands for.
pub fn decode_page_cursor(cursor: &str) -> (r: Result<String, ApiError>)
    ensures
        match r {
            Ok(key) => cursor_key(cursor@) == Some(key@),
            Err(e) => cursor_key(cursor@) is None && refuses_cursor(e, cursor@),
        },
{
    match decode(cursor) {
        Err(why) => {
            let message = concat2("invalid page cursor: ", why.as_str());
            Err(
                refusal(
                    ErrorClass::ContractViolation,
                    message.as_str(),
                    "invalid_page_cursor",
                ),
            )
        },
        Ok(bytes) => match text_of_bytes(bytes) {
            Ok(key) => Ok(key),
            Err(why) => {
                let message = concat2("page cursor not utf8: ", why.as_str());
                Err(
                    refusal(
                        ErrorClass::ContractViolation,
                        message.as_str(),
                        "invalid_page_cursor",
                    ),
                )
            },
        },
    }
}

/// The cursor of a key. It stands for the key.
pub fn encode_page_cursor(key: &str) -> (r: String)
    requires
        encodable(encode_utf8(key@).len()),
    ensures
        r@ == base64_text(encode_utf8(key@)),
        cursor_key(r@) == Some(key@),
{
    proof {
        encode_utf8_valid_utf8(key@);
        encode_utf8_decode_utf8(key@);
    }
    encode(key.as_bytes())
}

/// The cursor key of a subject.
pub fn subject_cursor_key(canonical_id: &str) -> (r: String)
    ensures
        r@ == joined(seq![canonical_id@]),
{
    let r = canonical_id.to_owned();
    proof {
        reveal_with_fuel(joined, 2);
    }
    r
}

/// The cursor key of a relation: its parts, joined by NUL.
pub fn relation_cursor_key(source_id: &str, predicate: &str, target_id: &str) -> (r: String)
    ensures
        r@ == joined(seq![source_id@, predicate@, target_id@]),
{
    let r = concat5(source_id, "\0", predicate, "\0", target_id);
    proof {
        reveal_strlit("\0");
        reveal_with_fuel(joined, 4);
        assert("\0"@ =~= seq!['\0']);
        let parts = seq![source_id@, predicate@, target_id@];
        assert(parts.drop_first() =~= seq![predicate@, target_id@]);
        assert(parts.drop_first().drop_first() =~= seq![target_id@]);
        assert(r@ =~= joined(parts));
    }
    r
}

/// The cursor key of an addressing: its parts, joined by NUL.
pub fn addressing_cursor_key(scheme: &str, value: &str) -> (r: String)
    ensures
        r@ == joined(seq![scheme@, value@]),
{
    let r = concat3(scheme, "\0", value);
    proof {
        reveal_strlit("\0");
        reveal_with_fuel(joined, 3);
        assert("\0"@ =~= seq!['\0']);
        let parts = seq![scheme@, value@];
        assert(parts.drop_first() =~= seq![value@]);
        assert(r@ =~= joined(parts));
    }
    r
}

/// An addressing with the plugin that claims it.
#[derive(Debug)]
pub struct ClaimedAddressing {
    pub scheme: String,
    pub value: String,
    pub claimant: String,
}

/// A live subject.
#[derive(Debug)]
pub struct SubjectRow {
    pub id: String,
    pub subject_type: String,
    pub addressings: Vec<ClaimedAddressing>,
}

/// A live relation with the plugins that claim it.
#[derive(Debug)]
pub struct RelationRow {
    pub source_id: String,
    pub predicate: String,
    pub target_id: String,
    pub claimants: Vec<String>,
    pub suppression: Option<SuppressionRecord>,
}

/// A claimed addressing with the subject that it leads to.
#[derive(Debug)]
pub struct AddressingRow {
    pub scheme: String,
    pub value: String,
    pub canonical_id: String,
}

impl PageRow for SubjectRow {
    open spec fn parts(&self) -> Seq<Seq<char>> {
        seq![self.id@]
    }

    fn comes_before(&self, other: &Self) -> (r: bool) {
        proof {
            reveal_with_fuel(parts_lt, 2);
            lemma_lex_irreflexive(encode_utf8(self.id@));
        }
        text_before(self.id.as_str(), other.id.as_str())
    }

    fn cursor_key(&self) -> (r: String) {
        subject_cursor_key(self.id.as_str())
    }
}

impl PageRow for RelationRow {
    open spec fn parts(&self) -> Seq<Seq<char>> {
        seq![self.source_id@, self.predicate@, self.target_id@]
    }

    fn comes_before(&self, other: &Self) -> (r: bool) {
        proof {
            reveal_with_fuel(parts_lt, 4);
            assert(self.parts().drop_first() =~= seq![self.predicate@, self.target_id@]);
            assert(other.parts().drop_first() =~= seq![other.predicate@, other.target_id@]);
            assert(self.parts().drop_first().drop_first() =~= seq![self.target_id@]);
            assert(other.parts().drop_first().drop_first() =~= seq![other.target_id@]);
            lemma_lex_irreflexive(encode_utf8(self.target_id@));
        }
        if !same_text(self.source_id.as_str(), other.source_id.as_str()) {
            return text_before(self.source_id.as_str(), other.source_id.as_str());
        }
        if !same_text(self.predicate.as_str(), other.predicate.as_str()) {
            return text_before(self.predicate.as_str(), other.predicate.as_str());
        }
        text_before(self.target_id.as_str(), other.target_id.as_str())
    }

    fn cursor_key(&self) -> (r: String) {
        relation_cursor_key(
            self.source_id.as_str(),
            self.predicate.as_str(),
            self.target_id.as_str(),
        )
    }
}

impl PageRow for AddressingRow {
    open spec fn parts(&self) -> Seq<Seq<char>> {
        seq![self.scheme@, self.value@]
    }

    fn comes_before(&self, other: &Self) -> (r: bool) {
        proof {
            reveal_with_fuel(parts_lt, 3);
            assert(self.parts().drop_first() =~= seq![self.value@]);
            assert(other.parts().drop_first() =~= seq![other.value@]);
            lemma_lex_irreflexive(encode_utf8(self.value@));
        }
        if !same_text(self.scheme.as_str(), other.scheme.as_str()) {
            return text_before(self.scheme.as_str(), other.scheme.as_str());
        }
        text_before(self.value.as_str(), other.value.as_str())
    }

    fn cursor_key(&self) -> (r: String) {
        addressing_cursor_key(self.scheme.as_str(), self.value.as_str())
    }
}

/// The cursor of every row fits in memory.
pub open spec fn cursors_fit<T: PageRow>(rows: Seq<T>) -> bool {
    forall|i: int|
        0 <= i < rows.len() ==> encodable(
            encode_utf8(joined((#[trigger] rows[i]).parts())).len(),
        )
}

/// The key after which a page starts.
pub open spec fn after_key(cursor: Option<String>) -> Option<Seq<char>> {
    match cursor {
        Some(c) => cursor_key(c@),
        None => None,
    }
}

/// The cursor is one that a page can start at.
pub open spec fn cursor_ok(cursor: Option<String>) -> bool {
    cursor matches Some(c) ==> cursor_key(c@) is Some
}

/// The next cursor of a page is there unless the page is the last one, and
/// stands for the key of the page's last row.
pub open spec fn leads_on<T: PageRow>(
    next: Option<String>,
    rows: Seq<T>,
    after: Option<Seq<char>>,
    limit: int,
) -> bool {
    match next_key(ordered(rows), after, limit) {
        Some(k) => next matches Some(c) && c@ == base64_text(encode_utf8(k)) && cursor_key(c@)
            == Some(k),
        None => next is None,
    }
}

/// A page of rows with the cursor that leads on.
struct Slice<'a, T> {
    rows: Vec<&'a T>,
    next: Option<String>,
}

proof fn lemma_ordered_members<T: PageRow>(rows: Seq<T>)
    requires
        cursors_fit(rows),
    ensures
        cursors_fit(ordered(rows)),
{
    lemma_ordered_from(rows);
    let all = ordered(rows);
    assert forall|i: int| 0 <= i < all.len() implies encodable(
        encode_utf8(joined((#[trigger] all[i]).parts())).len(),
    ) by {
        let a = choose|a: int| 0 <= a < rows.len() && rows[a] == all[i];
        assert(encodable(encode_utf8(joined(rows[a].parts())).len()));
    }
}

fn slice<'a, T: PageRow>(
    rows: &'a Vec<T>,
    cursor: &Option<String>,
    page_size: Option<usize>,
) -> (r: Result<Slice<'a, T>, ApiError>)
    requires
        cursors_fit(rows@),
    ensures
        match r {
            Ok(s) => {
                let after = after_key(*cursor);
                let limit = page_size_for(page_size) as int;
                let want = page_rows(ordered(rows@), after, limit);
                &&& cursor_ok(*cursor)
                &&& s.rows@.len() == want.len()
                &&& forall|i: int| 0 <= i < want.len() ==> *(#[trigger] s.rows@[i]) == want[i]
                &&& leads_on(s.next, rows@, after, limit)
            },
            Err(e) => cursor matches Some(c) && cursor_key(c@) is None && refuses_cursor(e, c@),
        },
{
    let after: Option<String> = match cursor {
        Some(c) => match decode_page_cursor(c.as_str()) {
            Ok(key) => Some(key),
            Err(e) => {
                return Err(e);
            },
        },
        None => None,
    };
    let limit: usize = clamp_page_size(page_size);
    let key: Option<&str> = match &after {
        Some(k) => Some(k.as_str()),
        None => None,
    };
    let p = page(rows, key, limit);
    let next: Option<String> = match p.next {
        Some(k) => {
            proof {
                lemma_ordered_members(rows@);
                let s = ordered(rows@);
                let end = page_end(s, after_key(*cursor), limit as int);
                if let Some(k) = after_key(*cursor) {
                    lemma_first_after(s, k);
                }
                assert(next_key(s, after_key(*cursor), limit as int) == Some(k@));
                assert(k@ == joined(s[end - 1].parts()));
            }
            Some(encode_page_cursor(k.as_str()))
        },
        None => None,
    };
    Ok(Slice { rows: p.rows, next })
}

impl SubjectRow {
    /// The plugins that claim the subject's addressings.
    pub open spec fn plugins(self) -> Seq<Seq<char>> {
        self.addressings@.map_values(|a: ClaimedAddressing| a.claimant@)
    }
}

impl RelationRow {
    /// The plugins that claim the relation.
    pub open spec fn plugins(self) -> Seq<Seq<char>> {
        self.claimants@.map_values(|p: String| p@)
    }
}

/// The plugins that claim the addressings of some subjects.
pub open spec fn subject_claimants(rows: Seq<SubjectRow>) -> Seq<Seq<Seq<char>>> {
    rows.map_values(|r: SubjectRow| r.plugins())
}

/// The plugins that claim some relations.
pub open spec fn relation_claimants(rows: Seq<RelationRow>) -> Seq<Seq<Seq<char>>> {
    rows.map_values(|r: RelationRow| r.plugins())
}

impl SubjectListEntryWire {
    /// The wire form of a subject.
    pub open spec fn shows(self, row: SubjectRow, steward: Seq<char>) -> bool {
        &&& self.canonical_id == row.id
        &&& self.subject_type == row.subject_type
        &&& self.addressings@ == row.addressings@.map_values(
            |a: ClaimedAddressing|
                SubjectListAddressingWire {
                    scheme: a.scheme,
                    value: a.value,
                    claimant_token: token_of(steward, a.claimant@),
                },
        )
    }

    fn from_row(row: &SubjectRow, issuer: &mut ClaimantTokenIssuer) -> (r: SubjectListEntryWire)
        ensures
            r.shows(*row, old(issuer).instance_id@),
            final(issuer).instance_id == old(issuer).instance_id,
            learns(*old(issuer), *final(issuer), row.plugins().to_set()),
    {
        let ghost before = *issuer;
        let ghost names = row.plugins();
        proof {
            lemma_learns_nothing(before);
            assert(names.take(0) =~= Seq::empty());
        }
        let mut addressings: Vec<SubjectListAddressingWire> = Vec::new();
        let mut i: usize = 0;
        while i < row.addressings.len()
            invariant
                i <= row.addressings.len(),
                addressings@.len() == i,
                names == row.plugins(),
                issuer.instance_id == before.instance_id,
                learns(before, *issuer, names.take(i as int).to_set()),
                forall|j: int|
                    0 <= j < i ==> #[trigger] addressings@[j] == (SubjectListAddressingWire {
                        scheme: row.addressings@[j].scheme,
                        value: row.addressings@[j].value,
                        claimant_token: token_of(
                            before.instance_id@,
                            row.addressings@[j].claimant@,
                        ),
                    }),
            decreases row.addressings.len() - i,
        {
            let a = &row.addressings[i];
            let ghost between = *issuer;
            addressings.push(
                SubjectListAddressingWire {
                    scheme: a.scheme.clone(),
                    value: a.value.clone(),
                    claimant_token: issuer.token_for(a.claimant.as_str()),
                },
            );
            proof {
                lemma_learns_both(
                    before,
                    between,
                    *issuer,
                    names.take(i as int),
                    seq![a.claimant@],
                );
                assert(names.take(i + 1) =~= names.take(i as int) + seq![a.claimant@]);
            }
            i += 1;
        }
        assert(names.take(row.addressings@.len() as int) =~= names);
        assert(addressings@ =~= row.addressings@.map_values(
            |a: ClaimedAddressing|
                SubjectListAddressingWire {
                    scheme: a.scheme,
                    value: a.value,
                    claimant_token: token_of(before.instance_id@, a.claimant@),
                },
        ));
        SubjectListEntryWire {
            canonical_id: row.id.clone(),
            subject_type: row.subject_type.clone(),
            addressings,
        }
    }
}

impl RelationListEntryWire {
    /// The wire form of a relation.
    pub open spec fn shows(self, row: RelationRow, steward: Seq<char>) -> bool {
        &&& self.source_id == row.source_id
        &&& self.predicate == row.predicate
        &&& self.target_id == row.target_id
        &&& self.claimant_tokens@ == row.claimants@.map_values(|p: String| token_of(steward, p@))
        &&& self.suppressed == (row.suppression is Some)
    }

    fn from_row(row: &RelationRow, issuer: &mut ClaimantTokenIssuer) -> (r: RelationListEntryWire)
        ensures
            r.shows(*row, old(issuer).instance_id@),
            final(issuer).instance_id == old(issuer).instance_id,
            learns(*old(issuer), *final(issuer), row.plugins().to_set()),
    {
        RelationListEntryWire {
            source_id: row.source_id.clone(),
            predicate: row.predicate.clone(),
            target_id: row.target_id.clone(),
            claimant_tokens: issuer.tokens_for(&row.claimants),
            suppressed: row.suppression.is_some(),
        }
    }
}

/// The answer to `list_subjects`: the page of the snapshot, ordered by id, that
/// the cursor leads to.
pub fn handle_list_subjects(
    rows: &Vec<SubjectRow>,
    issuer: &mut ClaimantTokenIssuer,
    current_seq: u64,
    cursor: Option<String>,
    page_size: Option<usize>,
) -> (r: ClientResponse)
    requires
        cursors_fit(rows@),
    ensures
        if cursor_ok(cursor) {
            let after = after_key(cursor);
            let limit = page_size_for(page_size) as int;
            let want = page_rows(ordered(rows@), after, limit);
            &&& r matches ClientResponse::SubjectsPage {
                subjects,
                next_cursor,
                current_seq: seq,
            }
            &&& seq == current_seq
            &&& subjects@.len() == want.len()
            &&& forall|i: int|
                0 <= i < want.len() ==> (#[trigger] subjects@[i]).shows(
                    want[i],
                    old(issuer).instance_id@,
                )
            &&& leads_on(next_cursor, rows@, after, limit)
        } else {
            r matches ClientResponse::Error { error } && refuses_cursor(error, cursor->0@)
        },
        final(issuer).instance_id == old(issuer).instance_id,
        learns(
            *old(issuer),
            *final(issuer),
            if cursor_ok(cursor) {
                all_names(
                    subject_claimants(
                        page_rows(
                            ordered(rows@),
                            after_key(cursor),
                            page_size_for(page_size) as int,
                        ),
                    ),
                )
            } else {
                Set::empty()
            },
        ),
{
    let ghost before = *issuer;
    proof {
        lemma_learns_nothing(before);
    }
    match slice(rows, &cursor, page_size) {
        Err(error) => ClientResponse::Error { error },
        Ok(s) => {
            let ghost shown = page_rows(
                ordered(rows@),
                after_key(cursor),
                page_size_for(page_size) as int,
            );
            let ghost lists = subject_claimants(shown);
            let mut subjects: Vec<SubjectListEntryWire> = Vec::new();
            proof {
                lemma_learns_no_list(before);
                assert(lists.take(0) =~= Seq::empty());
            }
            let mut i: usize = 0;
            while i < s.rows.len()
                invariant
                    i <= s.rows.len(),
                    subjects@.len() == i,
                    lists == subject_claimants(shown),
                    s.rows@.len() == shown.len(),
                    forall|j: int| 0 <= j < shown.len() ==> *(#[trigger] s.rows@[j]) == shown[j],
                    issuer.instance_id == before.instance_id,
                    learns(before, *issuer, all_names(lists.take(i as int))),
                    forall|j: int|
                        0 <= j < i ==> (#[trigger] subjects@[j]).shows(
                            *s.rows@[j],
                            before.instance_id@,
                        ),
                decreases s.rows.len() - i,
            {
                let ghost between = *issuer;
                subjects.push(SubjectListEntryWire::from_row(s.rows[i], issuer));
                proof {
                    assert(lists[i as int] == shown[i as int].plugins());
                    lemma_learns_list(
                        before,
                        between,
                        *issuer,
                        lists.take(i as int),
                        shown[i as int].plugins(),
                    );
                    assert(lists.take(i + 1) =~= lists.take(i as int).push(lists[i as int]));
                }
                i += 1;
            }
            assert(lists.take(shown.len() as int) =~= lists);
            ClientResponse::SubjectsPage { subjects, next_cursor: s.next, current_seq }
        },
    }
}

/// The answer to `list_relations`: the page of the snapshot, ordered by source,
/// predicate and target, that the cursor leads to.
pub fn handle_list_relations(
    rows: &Vec<RelationRow>,
    issuer: &mut ClaimantTokenIssuer,
    current_seq: u64,
    cursor: Option<String>,
    page_size: Option<usize>,
) -> (r: ClientResponse)
    requires
        cursors_fit(rows@),
    ensures
        if cursor_ok(cursor) {
            let after = after_key(cursor);
            let limit = page_size_for(page_size) as int;
            let want = page_rows(ordered(rows@), after, limit);
            &&& r matches ClientResponse::RelationsPage {
                relations,
                next_cursor,
                current_seq: seq,
            }
            &&& seq == current_seq
            &&& relations@.len() == want.len()
            &&& forall|i: int|
                0 <= i < want.len() ==> (#[trigger] relations@[i]).shows(
                    want[i],
                    old(issuer).instance_id@,
                )
            &&& leads_on(next_cursor, rows@, after, limit)
        } else {
            r matches ClientResponse::Error { error } && refuses_cursor(error, cursor->0@)
        },
        final(issuer).instance_id == old(issuer).instance_id,
        learns(
            *old(issuer),
            *final(issuer),
            if cursor_ok(cursor) {
                all_names(
                    relation_claimants(
                        page_rows(
                            ordered(rows@),
                            after_key(cursor),
                            page_size_for(page_size) as int,
                        ),
                    ),
                )
            } else {
                Set::empty()
            },
        ),
{
    let ghost before = *issuer;
    proof {
        lemma_learns_nothing(before);
    }
    match slice(rows, &cursor, page_size) {
        Err(error) => ClientResponse::Error { error },
        Ok(s) => {
            let ghost shown = page_rows(
                ordered(rows@),
                after_key(cursor),
                page_size_for(page_size) as int,
            );
            let ghost lists = relation_claimants(shown);
            let mut relations: Vec<RelationListEntryWire> = Vec::new();
            proof {
                lemma_learns_no_list(before);
                assert(lists.take(0) =~= Seq::empty());
            }
            let mut i: usize = 0;
            while i < s.rows.len()
                invariant
                    i <= s.rows.len(),
                    relations@.len() == i,
                    lists == relation_claimants(shown),
                    s.rows@.len() == shown.len(),
                    forall|j: int| 0 <= j < shown.len() ==> *(#[trigger] s.rows@[j]) == shown[j],
                    issuer.instance_id == before.instance_id,
                    learns(before, *issuer, all_names(lists.take(i as int))),
                    forall|j: int|
                        0 <= j < i ==> (#[trigger] relations@[j]).shows(
                            *s.rows@[j],
                            before.instance_id@,
                        ),
                decreases s.rows.len() - i,
            {
                let ghost between = *issuer;
                relations.push(RelationListEntryWire::from_row(s.rows[i], issuer));
                proof {
                    assert(lists[i as int] == shown[i as int].plugins());
                    lemma_learns_list(
                        before,
                        between,
                        *issuer,
                        lists.take(i as int),
                        shown[i as int].plugins(),
                    );
                    assert(lists.take(i + 1) =~= lists.take(i as int).push(lists[i as int]));
                }
                i += 1;
            }
            assert(lists.take(shown.len() as int) =~= lists);
            ClientResponse::RelationsPage { relations, next_cursor: s.next, current_seq }
        },
    }
}

/// The answer to `enumerate_addressings`: the page of the snapshot, ordered by
/// scheme and value, that the cursor leads to.
pub fn handle_enumerate_addressings(
    rows: &Vec<AddressingRow>,
    current_seq: u64,
    cursor: Option<String>,
    page_size: Option<usize>,
) -> (r: ClientResponse)
    requires
        cursors_fit(rows@),
    ensures
        if cursor_ok(cursor) {
            let after = after_key(cursor);
            let limit = page_size_for(page_size) as int;
            let want = page_rows(ordered(rows@), after, limit);
            &&& r matches ClientResponse::AddressingsPage {
                addressings,
                next_cursor,
                current_seq: seq,
            }
            &&& seq == current_seq
            &&& addressings@ == want.map_values(
                |row: AddressingRow|
                    AddressingListEntryWire {
                        scheme: row.scheme,
                        value: row.value,
                        canonical_id: row.canonical_id,
                    },
            )
            &&& leads_on(next_cursor, rows@, after, limit)
        } else {
            r matches ClientResponse::Error { error } && refuses_cursor(error, cursor->0@)
        },
{
    match slice(rows, &cursor, page_size) {
        Err(error) => ClientResponse::Error { error },
        Ok(s) => {
            let mut addressings: Vec<AddressingListEntryWire> = Vec::new();
            let mut i: usize = 0;
            while i < s.rows.len()
                invariant
                    i <= s.rows.len(),
                    addressings@.len() == i,
                    forall|j: int|
                        0 <= j < i ==> #[trigger] addressings@[j] == (AddressingListEntryWire {
                            scheme: s.rows@[j].scheme,
                            value: s.rows@[j].value,
                            canonical_id: s.rows@[j].canonical_id,
                        }),
                decreases s.rows.len() - i,
            {
                let row = s.rows[i];
                addressings.push(
                    AddressingListEntryWire {
                        scheme: row.scheme.clone(),
                        value: row.value.clone(),
                        canonical_id: row.canonical_id.clone(),
                    },
                );
                i += 1;
            }
            ClientResponse::AddressingsPage { addressings, next_cursor: s.next, current_seq }
        },
    }
}

}
