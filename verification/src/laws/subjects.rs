//! What consumers see of a subject: its projection, its aliases and its stream.

use crate::claimant::{token_of, ClaimantTokenIssuer};
use crate::errors::{ApiError, ErrorClass};
use crate::laws::refusals::{refuses, says};
use crate::projections::{projection_matches, related_matches, DegradedReason};
use crate::projections::{DegradedReasonWire, RelatedSubject, RelatedSubjectWire};
use crate::projections::{SubjectProjection, SubjectProjectionWire};
use crate::responses::{AliasedFromWire, ClientResponse, SubjectQueryResult};
use crate::subject_stream::{SubjectEvent, SubjectStream, SubjectTurn};
use crate::subjects::{bind_subject, describe_chain_reply, describe_hop_reply};
use crate::subjects::{plan_describe_alias, plan_projection, project_subject_reply, AliasPlan};
use crate::subjects::ProjectionPlan;
use crate::time::ms_of;
use serde_json::Value;
use vstd::prelude::*;

verus! {

/// The degraded reason under its name on the wire.
pub open spec fn reason_shown(d: DegradedReason, w: DegradedReasonWire) -> bool {
    &&& d.kind is DanglingRelation ==> w.kind@ == "dangling_relation"@
    &&& d.kind is SubjectInConflict ==> w.kind@ == "subject_in_conflict"@
    &&& w.detail == d.detail
}

/// A related subject as consumers see it: under its predicate, forward or inverse
/// as the relation was walked, with its target and the tokens of who claims it, and
/// with its own projection where there is one.
pub open spec fn related_shown(
    r: RelatedSubject,
    w: RelatedSubjectWire,
    steward: Seq<char>,
) -> bool
    decreases r, 0int,
{
    &&& w.predicate@ == r.predicate@
    &&& r.direction is Forward ==> w.direction@ == "forward"@
    &&& r.direction is Inverse ==> w.direction@ == "inverse"@
    &&& w.target_id@ == r.target_id@
    &&& w.target_type == r.target_type
    &&& w.relation_claimant_tokens@.len() == r.relation_claimants@.len()
    &&& forall|i: int|
        0 <= i < r.relation_claimants@.len() ==> #[trigger] w.relation_claimant_tokens@[i]
            == token_of(steward, r.relation_claimants@[i]@)
    &&& r.nested is Some <==> w.nested is Some
    &&& match r.nested {
        Some(p) => projection_shown(*p, *w.nested->0, steward),
        None => true,
    }
}

/// A projection as consumers see it: the same subject with the same parts in the
/// same order, and tokens for who claims them.
pub open spec fn projection_shown(
    p: SubjectProjection,
    w: SubjectProjectionWire,
    steward: Seq<char>,
) -> bool
    decreases p, 1int,
{
    &&& w.canonical_id@ == p.canonical_id@
    &&& w.subject_type@ == p.subject_type@
    &&& w.addressings@.len() == p.addressings@.len()
    &&& forall|i: int|
        0 <= i < p.addressings@.len() ==> {
            &&& (#[trigger] w.addressings@[i]).scheme@ == p.addressings@[i].scheme@
            &&& w.addressings@[i].value@ == p.addressings@[i].value@
            &&& w.addressings@[i].claimant_token == token_of(steward, p.addressings@[i].claimant@)
        }
    &&& w.related@.len() == p.related@.len()
    &&& forall|i: int|
        0 <= i < p.related@.len() ==> related_shown(
            #[trigger] p.related@[i],
            w.related@[i],
            steward,
        )
    &&& w.composed_at_ms == ms_of(p.composed_at)
    &&& w.shape_version == p.shape_version
    &&& w.claimant_tokens@.len() == p.claimants@.len()
    &&& forall|i: int|
        0 <= i < p.claimants@.len() ==> #[trigger] w.claimant_tokens@[i] == token_of(
            steward,
            p.claimants@[i]@,
        )
    &&& w.degraded == p.degraded
    &&& w.degraded_reasons@.len() == p.degraded_reasons@.len()
    &&& forall|i: int|
        0 <= i < p.degraded_reasons@.len() ==> reason_shown(
            #[trigger] p.degraded_reasons@[i],
            w.degraded_reasons@[i],
        )
    &&& w.walk_truncated == p.walk_truncated
}

proof fn lemma_related(r: RelatedSubject, w: RelatedSubjectWire, steward: Seq<char>)
    requires
        related_matches(r, w, steward),
    ensures
        related_shown(r, w, steward),
    decreases r, 0int,
{
    match r.nested {
        Some(p) => lemma_projection(*p, *w.nested->0, steward),
        None => {},
    }
}

proof fn lemma_projection(p: SubjectProjection, w: SubjectProjectionWire, steward: Seq<char>)
    requires
        projection_matches(p, w, steward),
    ensures
        projection_shown(p, w, steward),
    decreases p, 1int,
{
    assert forall|i: int| 0 <= i < p.addressings@.len() implies {
        &&& (#[trigger] w.addressings@[i]).scheme@ == p.addressings@[i].scheme@
        &&& w.addressings@[i].value@ == p.addressings@[i].value@
        &&& w.addressings@[i].claimant_token == token_of(steward, p.addressings@[i].claimant@)
    } by {}
    assert forall|i: int| 0 <= i < p.related@.len() implies related_shown(
        #[trigger] p.related@[i],
        w.related@[i],
        steward,
    ) by {
        assert(decreases_to!(p => p.related@[i]));
        lemma_related(p.related@[i], w.related@[i], steward);
    }
}

/// A related subject is shown as it stands, and forward and inverse relations are
/// told apart.
pub proof fn law_related_subjects_are_shown(
    r: RelatedSubject,
    issuer: &mut ClaimantTokenIssuer,
    w: RelatedSubjectWire,
)
    requires
        call_ensures(RelatedSubjectWire::from_related, (r, issuer), w),
    ensures
        related_shown(r, w, old(issuer).instance_id@),
        w.direction@ == "forward"@ <==> r.direction is Forward,
        w.direction@ == "inverse"@ <==> r.direction is Inverse,
{
    lemma_related(r, w, old(issuer).instance_id@);
    reveal_strlit("forward");
    reveal_strlit("inverse");
    assert("forward"@[0] == 'f' && "inverse"@[0] == 'i');
}

/// A projection is shown as it stands, however deep.
pub proof fn law_projections_are_shown(
    p: SubjectProjection,
    issuer: &mut ClaimantTokenIssuer,
    w: SubjectProjectionWire,
)
    requires
        call_ensures(SubjectProjectionWire::from_projection, (p, issuer), w),
    ensures
        projection_shown(p, w, old(issuer).instance_id@),
{
    lemma_projection(p, w, old(issuer).instance_id@);
}

/// A degraded reason goes by its name.
pub proof fn law_reasons_go_by_their_names(d: DegradedReason, w: DegradedReasonWire)
    requires
        call_ensures(DegradedReasonWire::from_reason, (d,), w),
    ensures
        reason_shown(d, w),
{
}

/// The subject that an id leads to: itself while it is live, and the end of its
/// alias chain where that is to be followed and has an end.
pub open spec fn leads_to(
    id: Seq<char>,
    follow_aliases: bool,
    found: SubjectQueryResult,
) -> Option<Seq<char>> {
    match found {
        SubjectQueryResult::Found { .. } => Some(id),
        SubjectQueryResult::Aliased { terminal: Some(t), .. } => if follow_aliases {
            Some(t.id@)
        } else {
            None
        },
        _ => None,
    }
}

/// What is projected for an id is the subject that it leads to; an alias comes with
/// the records that led there. Where an alias leads nowhere, the records alone are
/// the answer; an unknown id is refused as such.
pub proof fn law_projections_follow_the_aliases(
    id: String,
    follow_aliases: bool,
    lookup: Result<SubjectQueryResult, String>,
    plan: ProjectionPlan,
)
    requires
        call_ensures(plan_projection, (id, follow_aliases, lookup), plan),
    ensures
        lookup matches Ok(found) ==> {
            &&& plan is Project <==> leads_to(id@, follow_aliases, found) is Some
            &&& plan matches ProjectionPlan::Project { id: to, aliased_from } ==> Some(to@)
                == leads_to(id@, follow_aliases, found) && (aliased_from is Some <==> found
                is Aliased)
            &&& plan matches ProjectionPlan::Project { aliased_from: Some(from), .. }
                ==> shows_chain(from, id, found)
            &&& found is Aliased && plan is Reply ==> (plan->Reply_0 matches
                ClientResponse::ProjectionAliased { subject: None, aliased_from }
                && shows_chain(aliased_from, id, found))
            &&& found is NotFound ==> (plan matches ProjectionPlan::Reply(r) && refuses(
                r,
                ErrorClass::NotFound,
                "unknown subject: "@ + id@,
                "unknown_subject"@,
            ))
            &&& found is Unsupported ==> (plan matches ProjectionPlan::Reply(r) && refuses(
                r,
                ErrorClass::Internal,
                "unsupported SubjectQueryResult variant"@,
                "unsupported_variant"@,
            ))
        },
        lookup matches Err(why) ==> plan matches ProjectionPlan::Reply(r) && refuses(
            r,
            ErrorClass::Internal,
            "describe_subject_with_aliases"@ + ": "@ + why@,
            "alias_lookup_failed"@,
        ),
{
}

/// The records of an alias, with the id that was asked for and the end of the
/// chain.
pub open spec fn shows_chain(
    from: AliasedFromWire,
    id: String,
    found: SubjectQueryResult,
) -> bool {
    &&& from.queried_id@ == id@
    &&& found matches SubjectQueryResult::Aliased { chain, terminal } && {
        &&& from.chain@ == chain@
        &&& from.terminal_id is Some <==> terminal is Some
        &&& terminal is Some ==> from.terminal_id->0@ == terminal->0.id@
    }
}

/// The answer to a projection request: the projection, with the alias records if
/// there are any; or that the subject, or the end of the chain, is not there.
pub proof fn law_projection_replies_show_the_projection(
    aliased_from: Option<AliasedFromWire>,
    projected: Result<SubjectProjection, String>,
    issuer: &mut ClaimantTokenIssuer,
    r: ClientResponse,
)
    requires
        call_ensures(project_subject_reply, (aliased_from, projected, issuer), r),
    ensures
        projected matches Ok(p) ==> match aliased_from {
            None => r matches ClientResponse::Projection(w) && projection_shown(
                p,
                w,
                old(issuer).instance_id@,
            ),
            Some(from) => r matches ClientResponse::ProjectionAliased {
                subject: Some(w),
                aliased_from: shown,
            } && shown == from && projection_shown(p, *w, old(issuer).instance_id@),
        },
        projected matches Err(id) ==> if aliased_from is None {
            refuses(r, ErrorClass::NotFound, "unknown subject: "@ + id@, "unknown_subject"@)
        } else {
            refuses(
                r,
                ErrorClass::Internal,
                "alias terminal vanished during projection: "@ + id@,
                "alias_terminal_missing"@,
            )
        },
{
    if projected is Ok {
        match r {
            ClientResponse::Projection(w) => {
                lemma_projection(projected->Ok_0, w, old(issuer).instance_id@);
            },
            ClientResponse::ProjectionAliased { subject: Some(w), .. } => {
                lemma_projection(projected->Ok_0, *w, old(issuer).instance_id@);
            },
            _ => {},
        }
    }
}

/// A description of an alias with its chain is what the registry knows.
pub proof fn law_chains_are_described(
    id: String,
    lookup: Result<SubjectQueryResult, String>,
    r: ClientResponse,
)
    requires
        call_ensures(describe_chain_reply, (id, lookup), r),
    ensures
        lookup matches Ok(found) ==> r matches ClientResponse::DescribeAliasResponse {
            ok,
            subject_id,
            result,
        } && ok && subject_id@ == id@ && result == found,
        lookup matches Err(why) ==> refuses(
            r,
            ErrorClass::Internal,
            "describe_subject_with_aliases"@ + ": "@ + why@,
            "alias_lookup_failed"@,
        ),
{
}

/// Without the chain, an alias is described by its one record. For an id without a
/// record the subject itself is looked up, and is found or not.
pub proof fn law_hops_are_described(
    id: String,
    lookup: Result<Option<Value>, String>,
    plan: AliasPlan,
    subject: Result<SubjectQueryResult, String>,
    r: ClientResponse,
)
    requires
        call_ensures(plan_describe_alias, (id, lookup), plan),
        call_ensures(describe_hop_reply, (id, subject), r),
    ensures
        plan is LookUp <==> lookup matches Ok(None),
        plan matches AliasPlan::LookUp { subject_id } ==> subject_id@ == id@,
        lookup matches Ok(Some(record)) ==> plan matches AliasPlan::Reply(
            ClientResponse::DescribeAliasResponse {
                ok,
                subject_id,
                result: SubjectQueryResult::Aliased { chain, terminal: None },
            },
        ) && ok && subject_id@ == id@ && chain@.len() == 1 && chain@[0] == record,
        lookup matches Err(why) ==> plan matches AliasPlan::Reply(e) && refuses(
            e,
            ErrorClass::Internal,
            "describe_alias"@ + ": "@ + why@,
            "alias_lookup_failed"@,
        ),
        r matches ClientResponse::DescribeAliasResponse { ok, subject_id, result } && ok
            && subject_id@ == id@ && match subject {
            Ok(SubjectQueryResult::Found { record }) => result == (SubjectQueryResult::Found {
                record,
            }),
            _ => result is NotFound,
        },
{
}

/// A stream is bound to the subject that an id leads to, and to nothing else.
pub proof fn law_streams_bind_to_where_the_id_leads(
    id: String,
    follow_aliases: bool,
    lookup: Result<SubjectQueryResult, String>,
    r: Result<String, ApiError>,
)
    requires
        call_ensures(bind_subject, (id, follow_aliases, lookup), r),
    ensures
        lookup matches Err(why) ==> r is Err && says(
            r->Err_0,
            ErrorClass::Internal,
            "describe_subject_with_aliases"@ + ": "@ + why@,
            "alias_lookup_failed"@,
        ),
        lookup matches Ok(found) ==> {
            &&& r is Ok <==> leads_to(id@, follow_aliases, found) is Some
            &&& r matches Ok(to) ==> Some(to@) == leads_to(id@, follow_aliases, found)
            &&& found is Aliased && !follow_aliases ==> says(
                r->Err_0,
                ErrorClass::NotFound,
                "subject "@ + id@
                    + " is an alias; pass follow_aliases = true to bind to the terminal id"@,
                "alias_chain_unresolved"@,
            )
            &&& found is Aliased && follow_aliases && r is Err ==> says(
                r->Err_0,
                ErrorClass::NotFound,
                "subject "@ + id@ + " aliased through a forked chain; cannot bind subscription"@,
                "alias_chain_forked"@,
            )
            &&& found is NotFound ==> says(
                r->Err_0,
                ErrorClass::NotFound,
                "unknown subject: "@ + id@,
                "unknown_subject"@,
            )
            &&& found is Unsupported ==> says(
                r->Err_0,
                ErrorClass::Internal,
                "unsupported SubjectQueryResult variant"@,
                "unsupported_variant"@,
            )
        },
{
}

/// A stream begins with its acknowledgement and the first projection, which counts
/// as number zero.
pub proof fn law_subject_streams_begin_with_a_projection(
    id: String,
    current_seq: u64,
    r: (SubjectStream, SubjectTurn),
)
    requires
        call_ensures(SubjectStream::begin, (id, current_seq), r),
    ensures
        r.0.effective_id@ == id@,
        r.0.asked == Some(0u64),
        r.1.next is Project,
        r.1.frame matches Some(ack) && ack is SubscribedSubject && ack->subscribed_subject
            && ack->SubscribedSubject_canonical_id@ == id@ && ack->SubscribedSubject_current_seq
            == current_seq,
{
}

/// A happening that concerns the subject leads to a projection, and another to
/// none.
pub proof fn law_concerning_happenings_lead_to_projections(
    stream: &mut SubjectStream,
    seq: u64,
    affects: bool,
    issuer: &mut ClaimantTokenIssuer,
    turn: SubjectTurn,
)
    requires
        call_ensures(
            SubjectStream::step,
            (stream, SubjectEvent::Live { seq, affects }, issuer),
            turn,
        ),
    ensures
        turn.frame is None,
        affects ==> turn.next is Project && final(stream).asked == Some(seq),
        !affects ==> turn.next is Receive && final(stream).asked is None,
        final(stream).effective_id == old(stream).effective_id,
{
}

/// The projection that was asked for is shown under the number of the happening
/// that it was asked for, or that there is none any more; then the stream waits.
pub proof fn law_asked_projections_are_shown(
    stream: &mut SubjectStream,
    projection: Option<SubjectProjection>,
    issuer: &mut ClaimantTokenIssuer,
    turn: SubjectTurn,
)
    requires
        call_ensures(
            SubjectStream::step,
            (stream, SubjectEvent::Projected { projection }, issuer),
            turn,
        ),
        old(stream).asked is Some,
    ensures
        turn.next is Receive,
        final(stream).asked is None,
        ({
            &&& turn.frame matches Some(
                ClientResponse::ProjectionUpdate { seq, canonical_id, projection: shown },
            )
            &&& seq == old(stream).asked->0
            &&& canonical_id@ == old(stream).effective_id@
            &&& shown is Some <==> projection is Some
            &&& projection is Some ==> projection_shown(
                projection->0,
                *shown->0,
                old(issuer).instance_id@,
            )
        }),
        final(stream).effective_id == old(stream).effective_id,
{
    if projection is Some {
        if let Some(ClientResponse::ProjectionUpdate { projection: Some(w), .. }) = turn.frame {
            lemma_projection(projection->0, *w, old(issuer).instance_id@);
        }
    }
}

/// A gap on the bus ends a subject's stream, and is told; so does the end of the
/// bus, which is not.
pub proof fn law_subject_streams_end_on_a_gap(
    stream: &mut SubjectStream,
    missed: u64,
    oldest: Option<u64>,
    live_seq: u64,
    issuer: &mut ClaimantTokenIssuer,
    turn: SubjectTurn,
)
    ensures
        call_ensures(
            SubjectStream::step,
            (stream, SubjectEvent::Lagged { missed, oldest, live_seq }, issuer),
            turn,
        ) ==> turn.next is End && (turn.frame matches Some(ClientResponse::Lagged { lagged })
            && lagged.missed_count == missed && lagged.current_seq == live_seq && (oldest is Some
            ==> lagged.oldest_available_seq == oldest->0) && (oldest is None
            ==> lagged.oldest_available_seq == 0)),
        call_ensures(SubjectStream::step, (stream, SubjectEvent::Gone, issuer), turn)
            ==> turn.next is End && turn.frame is None,
{
}

}
