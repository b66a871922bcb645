//! What consumers see of plugins: tokens, each of which can be resolved.
//!
//! A response that shows a token is made by a function that has the issuer learn
//! the plugin's name. The laws here say so for every response that shows one.

use crate::claimant::{all_names, law_shown_token_resolves, learns, token_of};
use crate::claimant::{ClaimantToken, ClaimantTokenIssuer};
use crate::custody::{holders, CustodyRecord};
use crate::happenings::{law_plugins_become_tokens, Happening, HappeningWire};
use crate::listings::{relation_claimants, subject_claimants, RelationRow, SubjectRow};
use crate::projections::{projection_claimants, projection_matches, projection_names};
use crate::projections::{related_matches, related_names, RelatedSubject, RelatedSubjectWire};
use crate::projections::{SubjectProjection, SubjectProjectionWire};
use crate::requests::HappeningFilter;
use crate::responses::{ClientResponse, SubjectListEntryWire};
use crate::subject_stream::{SubjectEvent, SubjectStream, SubjectTurn};
use crate::subscription::{all_sound, bad_at, happening_frame, lemma_first_bad, replayed};
use crate::subscription::{replayed_plugins, Event, ReplayRow, Subscription, Turn};
use vstd::prelude::*;

verus! {

/// A related subject shows the token.
pub open spec fn related_shows(w: RelatedSubjectWire, token: ClaimantToken) -> bool
    decreases w, 0int,
{
    ||| w.relation_claimant_tokens@.contains(token)
    ||| match w.nested {
        None => false,
        Some(p) => projection_shows(*p, token),
    }
}

/// A projection shows the token.
pub open spec fn projection_shows(w: SubjectProjectionWire, token: ClaimantToken) -> bool
    decreases w, 1int,
{
    ||| exists|i: int|
        0 <= i < w.addressings@.len() && (#[trigger] w.addressings@[i]).claimant_token == token
    ||| exists|i: int| 0 <= i < w.related@.len() && related_shows(#[trigger] w.related@[i], token)
    ||| w.claimant_tokens@.contains(token)
}

/// A subject in a page shows the token.
pub open spec fn subject_shows(w: SubjectListEntryWire, token: ClaimantToken) -> bool {
    exists|i: int|
        0 <= i < w.addressings@.len() && (#[trigger] w.addressings@[i]).claimant_token == token
}

/// A response shows the token.
pub open spec fn shows_token(r: ClientResponse, token: ClaimantToken) -> bool {
    match r {
        ClientResponse::Projection(w) => projection_shows(w, token),
        ClientResponse::ProjectionAliased { subject: Some(w), .. } => projection_shows(*w, token),
        ClientResponse::ProjectionUpdate { projection: Some(w), .. } => projection_shows(*w, token),
        ClientResponse::ActiveCustodies { active_custodies } => exists|i: int|
            0 <= i < active_custodies@.len() && (#[trigger] active_custodies@[i]).claimant_token
                == token,
        ClientResponse::Happening { happening, .. } => happening.tokens().contains(token),
        ClientResponse::SubjectsPage { subjects, .. } => exists|i: int|
            0 <= i < subjects@.len() && subject_shows(#[trigger] subjects@[i], token),
        ClientResponse::RelationsPage { relations, .. } => exists|i: int|
            0 <= i < relations@.len() && (#[trigger] relations@[i]).claimant_tokens@.contains(
                token,
            ),
        _ => false,
    }
}

/// Every token of a happening's wire form resolves once the form has been made.
pub proof fn law_happening_tokens_resolve(
    h: Happening,
    before: ClaimantTokenIssuer,
    after: ClaimantTokenIssuer,
    names: Set<Seq<char>>,
    token: ClaimantToken,
)
    requires
        learns(before, after, names),
        h.plugins().to_set().subset_of(names),
        HappeningWire::of(h, before.instance_id@).tokens().contains(token),
    ensures
        after.resolvable(token),
{
    law_plugins_become_tokens(h, before.instance_id@);
    let shown = HappeningWire::of(h, before.instance_id@).tokens();
    let i = choose|i: int| 0 <= i < shown.len() && shown[i] == token;
    let plugin = h.plugins()[i];
    assert(h.plugins().to_set().contains(plugin));
    law_shown_token_resolves(before, after, names, plugin);
}

proof fn lemma_token_has_plugin(
    plugins: Seq<String>,
    steward: Seq<char>,
    token: ClaimantToken,
) -> (i: int)
    requires
        plugins.map_values(|c: String| token_of(steward, c@)).contains(token),
    ensures
        0 <= i < plugins.len(),
        token == token_of(steward, plugins[i]@),
        plugins.map_values(|c: String| c@).contains(plugins[i]@),
{
    let tokens = plugins.map_values(|c: String| token_of(steward, c@));
    let i = choose|i: int| 0 <= i < tokens.len() && tokens[i] == token;
    assert(plugins.map_values(|c: String| c@)[i] == plugins[i]@);
    i
}

proof fn lemma_related_plugin(
    r: RelatedSubject,
    w: RelatedSubjectWire,
    steward: Seq<char>,
    token: ClaimantToken,
)
    requires
        related_matches(r, w, steward),
        related_shows(w, token),
    ensures
        exists|n: Seq<char>| #[trigger] related_names(r, n) && token == token_of(steward, n),
    decreases r, 0int,
{
    if w.relation_claimant_tokens@.contains(token) {
        let i = lemma_token_has_plugin(r.relation_claimants@, steward, token);
        assert(related_names(r, r.relation_claimants@[i]@));
    } else {
        match r.nested {
            None => {},
            Some(p) => {
                lemma_projection_plugin(*p, *w.nested->0, steward, token);
                let n = choose|n: Seq<char>| #[trigger]
                    projection_names(*p, n) && token == token_of(steward, n);
                assert(related_names(r, n));
            },
        }
    }
}

proof fn lemma_projection_plugin(
    p: SubjectProjection,
    w: SubjectProjectionWire,
    steward: Seq<char>,
    token: ClaimantToken,
)
    requires
        projection_matches(p, w, steward),
        projection_shows(w, token),
    ensures
        exists|n: Seq<char>| #[trigger] projection_names(p, n) && token == token_of(steward, n),
    decreases p, 1int,
{
    if exists|i: int|
        0 <= i < w.addressings@.len() && (#[trigger] w.addressings@[i]).claimant_token == token {
        let i = choose|i: int|
            0 <= i < w.addressings@.len() && (#[trigger] w.addressings@[i]).claimant_token == token;
        assert(projection_names(p, p.addressings@[i].claimant@));
    } else if exists|i: int|
        0 <= i < w.related@.len() && related_shows(#[trigger] w.related@[i], token) {
        let i = choose|i: int|
            0 <= i < w.related@.len() && related_shows(#[trigger] w.related@[i], token);
        assert(decreases_to!(p => p.related@[i]));
        lemma_related_plugin(p.related@[i], w.related@[i], steward, token);
        let n = choose|n: Seq<char>| #[trigger]
            related_names(p.related@[i], n) && token == token_of(steward, n);
        assert(projection_names(p, n));
    } else {
        let i = lemma_token_has_plugin(p.claimants@, steward, token);
        assert(projection_names(p, p.claimants@[i]@));
    }
}

/// Every token of a projection, however deep, resolves once the projection's wire
/// form has been made.
pub proof fn law_projection_tokens_resolve(
    p: SubjectProjection,
    w: SubjectProjectionWire,
    before: ClaimantTokenIssuer,
    after: ClaimantTokenIssuer,
    token: ClaimantToken,
)
    requires
        projection_matches(p, w, before.instance_id@),
        learns(before, after, projection_claimants(p)),
        projection_shows(w, token),
    ensures
        after.resolvable(token),
{
    lemma_projection_plugin(p, w, before.instance_id@, token);
    let n = choose|n: Seq<char>| #[trigger]
        projection_names(p, n) && token == token_of(before.instance_id@, n);
    law_shown_token_resolves(before, after, projection_claimants(p), n);
}

/// Every token of a subject stream's frame resolves once the turn has been taken.
pub proof fn law_subject_turn_tokens_resolve(
    stream: SubjectStream,
    event: SubjectEvent,
    next: SubjectStream,
    turn: SubjectTurn,
    before: ClaimantTokenIssuer,
    after: ClaimantTokenIssuer,
    token: ClaimantToken,
)
    requires
        stream.takes(event, before.instance_id@, next, turn),
        learns(before, after, event.plugins()),
        turn.frame matches Some(frame) && shows_token(frame, token),
    ensures
        after.resolvable(token),
{
    if let SubjectEvent::Projected { projection: Some(p) } = event {
        if let Some(ClientResponse::ProjectionUpdate { projection: Some(w), .. }) = turn.frame {
            law_projection_tokens_resolve(p, *w, before, after, token);
        }
    }
}

/// Every token of the answer to a projection request resolves once the answer has
/// been made.
pub proof fn law_projection_reply_tokens_resolve(
    p: SubjectProjection,
    r: ClientResponse,
    before: ClaimantTokenIssuer,
    after: ClaimantTokenIssuer,
    token: ClaimantToken,
)
    requires
        match r {
            ClientResponse::Projection(w) => projection_matches(p, w, before.instance_id@),
            ClientResponse::ProjectionAliased { subject: Some(w), .. } => projection_matches(
                p,
                *w,
                before.instance_id@,
            ),
            _ => false,
        },
        learns(before, after, projection_claimants(p)),
        shows_token(r, token),
    ensures
        after.resolvable(token),
{
    match r {
        ClientResponse::Projection(w) => {
            law_projection_tokens_resolve(p, w, before, after, token);
        },
        ClientResponse::ProjectionAliased { subject: Some(w), .. } => {
            law_projection_tokens_resolve(p, *w, before, after, token);
        },
        _ => {},
    }
}

/// Every token of a list of custodies resolves once the list has been made.
pub proof fn law_custody_tokens_resolve(
    records: Seq<CustodyRecord>,
    r: ClientResponse,
    before: ClaimantTokenIssuer,
    after: ClaimantTokenIssuer,
    token: ClaimantToken,
)
    requires
        r matches ClientResponse::ActiveCustodies { active_custodies } && active_custodies@.len()
            == records.len() && forall|i: int|
            0 <= i < records.len() ==> (#[trigger] active_custodies@[i]).shows(
                records[i],
                before.instance_id@,
            ),
        learns(before, after, all_names(holders(records))),
        shows_token(r, token),
    ensures
        after.resolvable(token),
{
    let shown = r->active_custodies@;
    let i = choose|i: int|
        0 <= i < shown.len() && (#[trigger] shown[i]).claimant_token == token;
    let plugin = records[i].plugin@;
    assert(seq![plugin][0] == plugin);
    assert(holders(records)[i].contains(plugin));
    law_shown_token_resolves(before, after, all_names(holders(records)), plugin);
}

/// Every token of a page of subjects resolves once the page has been made.
pub proof fn law_subject_page_tokens_resolve(
    rows: Seq<SubjectRow>,
    r: ClientResponse,
    before: ClaimantTokenIssuer,
    after: ClaimantTokenIssuer,
    token: ClaimantToken,
)
    requires
        r matches ClientResponse::SubjectsPage { subjects, .. } && subjects@.len() == rows.len()
            && forall|i: int|
            0 <= i < rows.len() ==> (#[trigger] subjects@[i]).shows(
                rows[i],
                before.instance_id@,
            ),
        learns(before, after, all_names(subject_claimants(rows))),
        shows_token(r, token),
    ensures
        after.resolvable(token),
{
    let shown = r->subjects@;
    let i = choose|i: int|
        0 <= i < shown.len() && subject_shows(#[trigger] shown[i], token);
    let j = choose|j: int|
        0 <= j < shown[i].addressings@.len() && (
        #[trigger] shown[i].addressings@[j]).claimant_token == token;
    let plugin = rows[i].addressings@[j].claimant@;
    assert(rows[i].plugins()[j] == plugin);
    assert(subject_claimants(rows)[i].contains(plugin));
    law_shown_token_resolves(before, after, all_names(subject_claimants(rows)), plugin);
}

/// Every token of a page of relations resolves once the page has been made.
pub proof fn law_relation_page_tokens_resolve(
    rows: Seq<RelationRow>,
    r: ClientResponse,
    before: ClaimantTokenIssuer,
    after: ClaimantTokenIssuer,
    token: ClaimantToken,
)
    requires
        r matches ClientResponse::RelationsPage { relations, .. } && relations@.len()
            == rows.len() && forall|i: int|
            0 <= i < rows.len() ==> (#[trigger] relations@[i]).shows(
                rows[i],
                before.instance_id@,
            ),
        learns(before, after, all_names(relation_claimants(rows))),
        shows_token(r, token),
    ensures
        after.resolvable(token),
{
    let shown = r->relations@;
    let i = choose|i: int|
        0 <= i < shown.len() && (#[trigger] shown[i]).claimant_tokens@.contains(token);
    let tokens = shown[i].claimant_tokens@;
    let j = choose|j: int| 0 <= j < tokens.len() && tokens[j] == token;
    let plugin = rows[i].claimants@[j]@;
    assert(rows[i].plugins()[j] == plugin);
    assert(relation_claimants(rows)[i].contains(plugin));
    law_shown_token_resolves(before, after, all_names(relation_claimants(rows)), plugin);
}

proof fn lemma_listed_happening(
    lists: Seq<Seq<Seq<char>>>,
    k: int,
    h: Happening,
    before: ClaimantTokenIssuer,
    after: ClaimantTokenIssuer,
    token: ClaimantToken,
)
    requires
        learns(before, after, all_names(lists)),
        0 <= k < lists.len(),
        lists[k] == h.plugins(),
        HappeningWire::of(h, before.instance_id@).tokens().contains(token),
    ensures
        after.resolvable(token),
{
    assert forall|n: Seq<char>| h.plugins().to_set().contains(n) implies #[trigger] all_names(
        lists,
    ).contains(n) by {
        assert(lists[k].contains(n));
    }
    law_happening_tokens_resolve(h, before, after, all_names(lists), token);
}

/// Frame `i` of a replay is that of a stored happening whose plugins are list `i`.
proof fn lemma_replayed_pairs(
    rows: Seq<ReplayRow>,
    filter: HappeningFilter,
    steward: Seq<char>,
    i: int,
)
    requires
        0 <= i < replayed(rows, filter, steward).len(),
    ensures
        replayed_plugins(rows, filter).len() == replayed(rows, filter, steward).len(),
        exists|seq: u64, h: Happening| #[trigger]
            happening_frame(seq, h, steward) == replayed(rows, filter, steward)[i]
                && replayed_plugins(rows, filter)[i] == h.plugins(),
    decreases rows.len(),
{
    lemma_replayed_lengths(rows, filter, steward);
    let rest = rows.drop_last();
    lemma_replayed_lengths(rest, filter, steward);
    let before = replayed(rest, filter, steward);
    if i < before.len() {
        lemma_replayed_pairs(rest, filter, steward, i);
        let (seq, h) = choose|seq: u64, h: Happening| #[trigger]
            happening_frame(seq, h, steward) == before[i] && replayed_plugins(rest, filter)[i]
                == h.plugins();
        assert(happening_frame(seq, h, steward) == replayed(rows, filter, steward)[i]);
        assert(replayed_plugins(rows, filter)[i] == h.plugins());
    } else {
        let h = rows.last().decoded->Ok_0.happening;
        assert(happening_frame(rows.last().seq, h, steward) == replayed(
            rows,
            filter,
            steward,
        )[i]);
        assert(replayed_plugins(rows, filter)[i] == h.plugins());
    }
}

proof fn lemma_replayed_lengths(
    rows: Seq<ReplayRow>,
    filter: HappeningFilter,
    steward: Seq<char>,
)
    ensures
        replayed_plugins(rows, filter).len() == replayed(rows, filter, steward).len(),
    decreases rows.len(),
{
    if rows.len() > 0 {
        lemma_replayed_lengths(rows.drop_last(), filter, steward);
    }
}

proof fn lemma_replay_tokens_resolve(
    rows: Seq<ReplayRow>,
    filter: HappeningFilter,
    before: ClaimantTokenIssuer,
    after: ClaimantTokenIssuer,
    i: int,
    token: ClaimantToken,
)
    requires
        learns(before, after, all_names(replayed_plugins(rows, filter))),
        0 <= i < replayed(rows, filter, before.instance_id@).len(),
        shows_token(replayed(rows, filter, before.instance_id@)[i], token),
    ensures
        after.resolvable(token),
{
    let steward = before.instance_id@;
    lemma_replayed_pairs(rows, filter, steward, i);
    let (seq, h) = choose|seq: u64, h: Happening| #[trigger]
        happening_frame(seq, h, steward) == replayed(rows, filter, steward)[i]
            && replayed_plugins(rows, filter)[i] == h.plugins();
    lemma_listed_happening(replayed_plugins(rows, filter), i, h, before, after, token);
}

/// Every token of every frame of a subscription resolves once its turn has been
/// taken, whether the happening was stored, live or held back.
pub proof fn law_turn_tokens_resolve(
    sub: Subscription,
    event: Event,
    next: Subscription,
    turn: Turn,
    before: ClaimantTokenIssuer,
    after: ClaimantTokenIssuer,
    i: int,
    token: ClaimantToken,
)
    requires
        sub.takes(event, before.instance_id@, next, turn),
        learns(before, after, all_names(sub.plugins(event))),
        0 <= i < turn.frames@.len(),
        shows_token(turn.frames@[i], token),
    ensures
        after.resolvable(token),
{
    let steward = before.instance_id@;
    match event {
        Event::Rows(Ok(rows)) => {
            if all_sound(rows@) {
                lemma_replay_tokens_resolve(rows@, sub.filter, before, after, i, token);
            } else {
                let k = choose|k: int| #[trigger]
                    bad_at(rows@, k) && turn.frames@.drop_last() == replayed(
                        rows@.take(k),
                        sub.filter,
                        steward,
                    ) && turn.frames@.last() is Error;
                lemma_first_bad(rows@, k);
                assert(turn.frames@[i] == turn.frames@.drop_last()[i]);
                lemma_replay_tokens_resolve(
                    rows@.take(k),
                    sub.filter,
                    before,
                    after,
                    i,
                    token,
                );
            }
        },
        Event::Live(env) => {
            lemma_listed_happening(
                sub.plugins(event),
                0,
                env.observed.happening,
                before,
                after,
                token,
            );
        },
        Event::Released(envs) => {
            lemma_listed_happening(
                sub.plugins(event),
                i,
                envs@[i].observed.happening,
                before,
                after,
                token,
            );
        },
        _ => {},
    }
}

}
