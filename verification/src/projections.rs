//! Subject projections: their scope, and their wire form.

use crate::claimant::{learns, lemma_learns_chain, lemma_learns_nothing, token_of};
use crate::claimant::{ClaimantToken, ClaimantTokenIssuer};
use crate::time::{ms_of, system_time_to_ms};
use std::time::SystemTime;
use vstd::prelude::*;

verus! {

/// Which way relations are walked.
#[derive(Debug, Clone, Copy, PartialEq, Eq, Structural)]
pub enum WalkDirection {
    Forward,
    Inverse,
    Both,
}

/// Which way relations are walked, as a request says it.
#[derive(Debug, Clone, Copy, PartialEq, Eq, Structural)]
pub enum WalkDirectionWire {
    Forward,
    Inverse,
    Both,
}

/// The depth of a walk for which a request names none.
pub const DEFAULT_MAX_DEPTH: usize = 1;

/// The number of visits of a walk for which a request names none.
pub const DEFAULT_MAX_VISITS: usize = 1000;

/// The greatest depth that a request can ask for.
pub const MAX_PROJECTION_DEPTH: usize = 32;

/// The greatest number of visits that a request can ask for.
pub const MAX_PROJECTION_VISITS: usize = 100_000;

/// The direction that a request asks for.
pub open spec fn direction_of(w: WalkDirectionWire) -> WalkDirection {
    match w {
        WalkDirectionWire::Forward => WalkDirection::Forward,
        WalkDirectionWire::Inverse => WalkDirection::Inverse,
        WalkDirectionWire::Both => WalkDirection::Both,
    }
}

impl From<WalkDirectionWire> for WalkDirection {
    fn from(w: WalkDirectionWire) -> (r: WalkDirection) {
        match w {
            WalkDirectionWire::Forward => WalkDirection::Forward,
            WalkDirectionWire::Inverse => WalkDirection::Inverse,
            WalkDirectionWire::Both => WalkDirection::Both,
        }
    }
}

impl vstd::std_specs::convert::FromSpecImpl<WalkDirectionWire> for WalkDirection {
    open spec fn obeys_from_spec() -> bool {
        true
    }

    open spec fn from_spec(w: WalkDirectionWire) -> WalkDirection {
        direction_of(w)
    }
}

/// How far a projection follows relations.
#[derive(Debug)]
pub struct ProjectionScope {
    pub relation_predicates: Vec<String>,
    pub direction: WalkDirection,
    pub max_depth: usize,
    pub max_visits: usize,
}

/// How far a projection follows relations, as a request says it.
#[derive(Debug)]
pub struct ProjectionScopeWire {
    pub relation_predicates: Vec<String>,
    pub direction: WalkDirectionWire,
    pub max_depth: Option<usize>,
    pub max_visits: Option<usize>,
}

impl Default for ProjectionScopeWire {
    /// No predicates, forward, and the default bounds.
    fn default() -> (r: ProjectionScopeWire)
        ensures
            r.relation_predicates@.len() == 0,
            r.direction == WalkDirectionWire::Forward,
            r.max_depth is None,
            r.max_visits is None,
    {
        ProjectionScopeWire {
            relation_predicates: Vec::new(),
            direction: WalkDirectionWire::Forward,
            max_depth: None,
            max_visits: None,
        }
    }
}

/// What was asked for, or the default, but no more than the limit.
pub open spec fn bounded(asked: Option<usize>, default: usize, limit: usize) -> usize {
    let wanted = match asked {
        Some(n) => n,
        None => default,
    };
    if wanted < limit {
        wanted
    } else {
        limit
    }
}

fn bound(asked: Option<usize>, default: usize, limit: usize) -> (r: usize)
    ensures
        r == bounded(asked, default, limit),
{
    let wanted: usize = match asked {
        Some(n) => n,
        None => default,
    };
    if wanted < limit {
        wanted
    } else {
        limit
    }
}

/// The scope that a request asks for, within the limits.
pub open spec fn scope_of(w: ProjectionScopeWire) -> ProjectionScope {
    ProjectionScope {
        relation_predicates: w.relation_predicates,
        direction: direction_of(w.direction),
        max_depth: bounded(w.max_depth, DEFAULT_MAX_DEPTH, MAX_PROJECTION_DEPTH),
        max_visits: bounded(w.max_visits, DEFAULT_MAX_VISITS, MAX_PROJECTION_VISITS),
    }
}

impl From<ProjectionScopeWire> for ProjectionScope {
    fn from(w: ProjectionScopeWire) -> (r: ProjectionScope) {
        ProjectionScope {
            relation_predicates: w.relation_predicates,
            direction: WalkDirection::from(w.direction),
            max_depth: bound(w.max_depth, DEFAULT_MAX_DEPTH, MAX_PROJECTION_DEPTH),
            max_visits: bound(w.max_visits, DEFAULT_MAX_VISITS, MAX_PROJECTION_VISITS),
        }
    }
}

impl vstd::std_specs::convert::FromSpecImpl<ProjectionScopeWire> for ProjectionScope {
    open spec fn obeys_from_spec() -> bool {
        true
    }

    open spec fn from_spec(w: ProjectionScopeWire) -> ProjectionScope {
        scope_of(w)
    }
}

/// No request can make a walk exceed the limits.
pub proof fn law_scope_is_bounded(w: ProjectionScopeWire)
    ensures
        scope_of(w).max_depth <= MAX_PROJECTION_DEPTH,
        scope_of(w).max_visits <= MAX_PROJECTION_VISITS,
{
}

/// Which end of a relation a related subject stands at.
#[derive(Debug, Clone, Copy, PartialEq, Eq, Structural)]
pub enum RelationDirection {
    Forward,
    Inverse,
}

/// Why a projection is degraded.
#[derive(Debug, Clone, Copy, PartialEq, Eq, Structural)]
pub enum DegradedReasonKind {
    DanglingRelation,
    SubjectInConflict,
}

#[derive(Debug)]
pub struct DegradedReason {
    pub kind: DegradedReasonKind,
    pub detail: Option<String>,
}

#[derive(Debug)]
pub struct AddressingEntry {
    pub scheme: String,
    pub value: String,
    pub claimant: String,
}

/// A subject related to a projected one, with its own projection where the
/// scope reaches that far.
#[derive(Debug)]
pub struct RelatedSubject {
    pub predicate: String,
    pub direction: RelationDirection,
    pub target_id: String,
    pub target_type: Option<String>,
    pub relation_claimants: Vec<String>,
    pub nested: Option<Box<SubjectProjection>>,
}

/// A subject as composed for consumers.
#[derive(Debug)]
pub struct SubjectProjection {
    pub canonical_id: String,
    pub subject_type: String,
    pub addressings: Vec<AddressingEntry>,
    pub related: Vec<RelatedSubject>,
    pub composed_at: SystemTime,
    pub shape_version: u32,
    pub claimants: Vec<String>,
    pub degraded: bool,
    pub degraded_reasons: Vec<DegradedReason>,
    pub walk_truncated: bool,
}

#[derive(Debug)]
pub struct DegradedReasonWire {
    pub kind: &'static str,
    pub detail: Option<String>,
}

#[derive(Debug)]
pub struct AddressingEntryWire {
    pub scheme: String,
    pub value: String,
    pub claimant_token: ClaimantToken,
}

#[derive(Debug)]
pub struct RelatedSubjectWire {
    pub predicate: String,
    pub direction: &'static str,
    pub target_id: String,
    pub target_type: Option<String>,
    pub relation_claimant_tokens: Vec<ClaimantToken>,
    pub nested: Option<Box<SubjectProjectionWire>>,
}

/// A projection as consumers see it.
#[derive(Debug)]
pub struct SubjectProjectionWire {
    pub canonical_id: String,
    pub subject_type: String,
    pub addressings: Vec<AddressingEntryWire>,
    pub related: Vec<RelatedSubjectWire>,
    pub composed_at_ms: u64,
    pub shape_version: u32,
    pub claimant_tokens: Vec<ClaimantToken>,
    pub degraded: bool,
    pub degraded_reasons: Vec<DegradedReasonWire>,
    pub walk_truncated: bool,
}

/// The name of a reason's kind on the wire.
pub open spec fn degraded_kind(kind: DegradedReasonKind) -> Seq<char> {
    match kind {
        DegradedReasonKind::DanglingRelation => "dangling_relation"@,
        DegradedReasonKind::SubjectInConflict => "subject_in_conflict"@,
    }
}

/// The wire form of a reason.
pub open spec fn reason_matches(d: DegradedReason, w: DegradedReasonWire) -> bool {
    w.kind@ == degraded_kind(d.kind) && w.detail == d.detail
}

impl DegradedReasonWire {
    /// The wire form of a reason.
    pub fn from_reason(d: DegradedReason) -> (w: DegradedReasonWire)
        ensures
            reason_matches(d, w),
    {
        DegradedReasonWire {
            kind: match d.kind {
                DegradedReasonKind::DanglingRelation => "dangling_relation",
                DegradedReasonKind::SubjectInConflict => "subject_in_conflict",
            },
            detail: d.detail,
        }
    }
}

/// The wire form of an addressing.
pub open spec fn addressing_matches(
    a: AddressingEntry,
    w: AddressingEntryWire,
    steward: Seq<char>,
) -> bool {
    w.scheme == a.scheme && w.value == a.value && w.claimant_token == token_of(steward, a.claimant@)
}

/// The name of a direction on the wire.
pub open spec fn direction_text(d: RelationDirection) -> Seq<char> {
    match d {
        RelationDirection::Forward => "forward"@,
        RelationDirection::Inverse => "inverse"@,
    }
}

/// The wire form of a related subject.
pub open spec fn related_matches(
    r: RelatedSubject,
    w: RelatedSubjectWire,
    steward: Seq<char>,
) -> bool
    decreases r, 0int,
{
    &&& w.predicate == r.predicate
    &&& w.direction@ == direction_text(r.direction)
    &&& w.target_id == r.target_id
    &&& w.target_type == r.target_type
    &&& w.relation_claimant_tokens@ == r.relation_claimants@.map_values(
        |c: String| token_of(steward, c@),
    )
    &&& match r.nested {
        None => w.nested is None,
        Some(p) => w.nested is Some && projection_matches(*p, *w.nested->0, steward),
    }
}

/// The wire form of a projection: the same parts in the same order, with every
/// claimant replaced by its token and the time in milliseconds.
pub open spec fn projection_matches(
    p: SubjectProjection,
    w: SubjectProjectionWire,
    steward: Seq<char>,
) -> bool
    decreases p, 1int,
{
    &&& w.canonical_id == p.canonical_id
    &&& w.subject_type == p.subject_type
    &&& w.addressings@.len() == p.addressings@.len()
    &&& forall|i: int|
        0 <= i < p.addressings@.len() ==> addressing_matches(
            #[trigger] p.addressings@[i],
            w.addressings@[i],
            steward,
        )
    &&& w.related@.len() == p.related@.len()
    &&& forall|i: int|
        0 <= i < p.related@.len() ==> related_matches(
            #[trigger] p.related@[i],
            w.related@[i],
            steward,
        )
    &&& w.composed_at_ms == ms_of(p.composed_at)
    &&& w.shape_version == p.shape_version
    &&& w.claimant_tokens@ == p.claimants@.map_values(|c: String| token_of(steward, c@))
    &&& w.degraded == p.degraded
    &&& w.degraded_reasons@.len() == p.degraded_reasons@.len()
    &&& forall|i: int|
        0 <= i < p.degraded_reasons@.len() ==> reason_matches(
            #[trigger] p.degraded_reasons@[i],
            w.degraded_reasons@[i],
        )
    &&& w.walk_truncated == p.walk_truncated
}

/// The plugin claims the related subject's relation, or something behind it.
pub open spec fn related_names(r: RelatedSubject, plugin: Seq<char>) -> bool
    decreases r, 0int,
{
    ||| r.relation_claimants@.map_values(|c: String| c@).contains(plugin)
    ||| match r.nested {
        None => false,
        Some(p) => projection_names(*p, plugin),
    }
}

/// The plugin claims something that the projection shows.
pub open spec fn projection_names(p: SubjectProjection, plugin: Seq<char>) -> bool
    decreases p, 1int,
{
    ||| exists|i: int|
        0 <= i < p.addressings@.len() && (#[trigger] p.addressings@[i]).claimant@ == plugin
    ||| exists|i: int| 0 <= i < p.related@.len() && related_names(#[trigger] p.related@[i], plugin)
    ||| p.claimants@.map_values(|c: String| c@).contains(plugin)
}

/// The plugins that claim what a projection shows.
pub open spec fn projection_claimants(p: SubjectProjection) -> Set<Seq<char>> {
    Set::new(|n: Seq<char>| projection_names(p, n))
}

/// The plugins that claim what a related subject shows.
pub open spec fn related_claimants(r: RelatedSubject) -> Set<Seq<char>> {
    Set::new(|n: Seq<char>| related_names(r, n))
}

/// The plugins that claim the first `k` addressings.
spec fn first_addressed(all: Seq<AddressingEntry>, k: int) -> Set<Seq<char>> {
    Set::new(
        |n: Seq<char>| exists|i: int| 0 <= i < k && (#[trigger] all[i]).claimant@ == n,
    )
}

/// The plugins that claim what the first `k` related subjects show.
spec fn first_related(all: Seq<RelatedSubject>, k: int) -> Set<Seq<char>> {
    Set::new(|n: Seq<char>| exists|i: int| 0 <= i < k && related_names(#[trigger] all[i], n))
}

fn addressings_wire(all: Vec<AddressingEntry>, issuer: &mut ClaimantTokenIssuer) -> (r: Vec<
    AddressingEntryWire,
>)
    ensures
        r@.len() == all@.len(),
        forall|i: int|
            0 <= i < all@.len() ==> addressing_matches(
                #[trigger] all@[i],
                r@[i],
                old(issuer).instance_id@,
            ),
        final(issuer).instance_id == old(issuer).instance_id,
        learns(*old(issuer), *final(issuer), first_addressed(all@, all@.len() as int)),
{
    let ghost before = *issuer;
    let ghost whole = all@;
    let mut out: Vec<AddressingEntryWire> = Vec::new();
    proof {
        lemma_learns_nothing(before);
        assert(first_addressed(whole, 0) =~= Set::empty());
    }
    for a in iter: all
        invariant
            iter.seq() == whole,
            out@.len() == iter.index(),
            issuer.instance_id == before.instance_id,
            learns(before, *issuer, first_addressed(whole, iter.index() as int)),
            forall|i: int|
                0 <= i < iter.index() ==> addressing_matches(
                    #[trigger] whole[i],
                    out@[i],
                    before.instance_id@,
                ),
    {
        let ghost k = iter.index() as int;
        let ghost between = *issuer;
        assert(a == whole[k]);
        let claimant_token = issuer.token_for(a.claimant.as_str());
        proof {
            let one = seq![a.claimant@];
            lemma_learns_chain(before, between, *issuer, first_addressed(whole, k), one.to_set());
            assert(one[0] == a.claimant@);
            assert(first_addressed(whole, k + 1) =~= first_addressed(whole, k) + one.to_set());
        }
        out.push(AddressingEntryWire { claimant_token, scheme: a.scheme, value: a.value });
    }
    out
}

fn reasons_wire(all: Vec<DegradedReason>) -> (r: Vec<DegradedReasonWire>)
    ensures
        r@.len() == all@.len(),
        forall|i: int| 0 <= i < all@.len() ==> reason_matches(#[trigger] all@[i], r@[i]),
{
    let mut out: Vec<DegradedReasonWire> = Vec::new();
    for d in iter: all
        invariant
            iter.seq() == all@,
            out@.len() == iter.index(),
            forall|i: int|
                0 <= i < iter.index() ==> reason_matches(#[trigger] all@[i], out@[i]),
    {
        out.push(DegradedReasonWire::from_reason(d));
    }
    out
}

impl RelatedSubjectWire {
    /// The wire form of a related subject.
    pub fn from_related(r: RelatedSubject, issuer: &mut ClaimantTokenIssuer) -> (w:
        RelatedSubjectWire)
        ensures
            related_matches(r, w, old(issuer).instance_id@),
            final(issuer).instance_id == old(issuer).instance_id,
            learns(*old(issuer), *final(issuer), related_claimants(r)),
        decreases r, 0int,
    {
        let ghost before = *issuer;
        let ghost whole = r;
        let ghost named = r.relation_claimants@.map_values(|c: String| c@);
        let tokens = issuer.tokens_for(&r.relation_claimants);
        let ghost between = *issuer;
        let nested = match r.nested {
            None => None,
            Some(p) => Some(Box::new(SubjectProjectionWire::from_projection(*p, issuer))),
        };
        proof {
            match whole.nested {
                None => {
                    assert(related_claimants(whole) =~= named.to_set());
                },
                Some(p) => {
                    lemma_learns_chain(
                        before,
                        between,
                        *issuer,
                        named.to_set(),
                        projection_claimants(*p),
                    );
                    assert(related_claimants(whole) =~= named.to_set() + projection_claimants(
                        *p,
                    ));
                },
            }
        }
        RelatedSubjectWire {
            predicate: r.predicate,
            direction: match r.direction {
                RelationDirection::Forward => "forward",
                RelationDirection::Inverse => "inverse",
            },
            target_id: r.target_id,
            target_type: r.target_type,
            relation_claimant_tokens: tokens,
            nested,
        }
    }
}

impl SubjectProjectionWire {
    /// The wire form of a projection.
    pub fn from_projection(p: SubjectProjection, issuer: &mut ClaimantTokenIssuer) -> (w:
        SubjectProjectionWire)
        ensures
            projection_matches(p, w, old(issuer).instance_id@),
            final(issuer).instance_id == old(issuer).instance_id,
            learns(*old(issuer), *final(issuer), projection_claimants(p)),
        decreases p, 1int,
    {
        let ghost before = *issuer;
        let ghost whole = p;
        let ghost all = p.related@;
        let mut related: Vec<RelatedSubjectWire> = Vec::new();
        proof {
            lemma_learns_nothing(before);
            assert(first_related(all, 0) =~= Set::empty());
        }
        for r in iter: p.related
            invariant
                iter.seq() == all,
                all == whole.related@,
                related@.len() == iter.index(),
                issuer.instance_id == before.instance_id,
                learns(before, *issuer, first_related(all, iter.index() as int)),
                forall|i: int|
                    0 <= i < iter.index() ==> related_matches(
                        #[trigger] all[i],
                        related@[i],
                        before.instance_id@,
                    ),
        {
            let ghost k = iter.index() as int;
            let ghost between = *issuer;
            proof {
                assert(r == whole.related@[k]);
                assert(decreases_to!(whole => whole.related@[k]));
            }
            related.push(RelatedSubjectWire::from_related(r, issuer));
            proof {
                lemma_learns_chain(
                    before,
                    between,
                    *issuer,
                    first_related(all, k),
                    related_claimants(all[k]),
                );
                assert(first_related(all, k + 1) =~= first_related(all, k) + related_claimants(
                    all[k],
                ));
            }
        }
        let ghost walked = *issuer;
        let ghost addressed = first_addressed(p.addressings@, p.addressings@.len() as int);
        let addressings = addressings_wire(p.addressings, issuer);
        let ghost between = *issuer;
        let ghost named = p.claimants@.map_values(|c: String| c@).to_set();
        let claimant_tokens = issuer.tokens_for(&p.claimants);
        proof {
            let reached = first_related(all, all.len() as int);
            lemma_learns_chain(before, walked, between, reached, addressed);
            lemma_learns_chain(before, between, *issuer, reached + addressed, named);
            assert(projection_claimants(whole) =~= reached + addressed + named);
        }
        SubjectProjectionWire {
            canonical_id: p.canonical_id,
            subject_type: p.subject_type,
            addressings,
            related,
            composed_at_ms: system_time_to_ms(p.composed_at),
            shape_version: p.shape_version,
            claimant_tokens,
            degraded: p.degraded,
            degraded_reasons: reasons_wire(p.degraded_reasons),
            walk_truncated: p.walk_truncated,
        }
    }
}

}
