//! What a subscriber gets of the happenings that are stored and that come from the
//! bus.

use crate::claimant::ClaimantTokenIssuer;
use crate::errors::ErrorClass;
use crate::json::{number_value, object_value, text_value};
use crate::laws::happenings::{frame_tells, lemma_kind_name, lemma_wire_form, told};
use crate::laws::refusals::{refuses, says};
use crate::requests::HappeningFilter;
use crate::responses::ClientResponse;
use crate::subscription::{all_sound, bad_at, replayed, wanted, Envelope, Event, Next};
use crate::subscription::{Observed, Phase, ReplayRow, Subscription, Turn};
use crate::text::decimal;
use vstd::prelude::*;

verus! {

/// A list that names nothing lets everything through; another lets through what
/// is there and on it.
pub open spec fn on_list(list: Seq<String>, value: Option<Seq<char>>) -> bool {
    list.len() > 0 ==> value is Some && exists|i: int|
        0 <= i < list.len() && (#[trigger] list[i])@ == value->0
}

/// The text, if there is one.
pub open spec fn chars(t: Option<String>) -> Option<Seq<char>> {
    if t is Some {
        Some(t->0@)
    } else {
        None
    }
}

/// A subscriber wants the happening: the kind is on its list of kinds, the plugin
/// on its list of plugins, and the shelf on its list of shelves.
pub open spec fn interests(filter: HappeningFilter, o: Observed) -> bool {
    &&& on_list(filter.variants@, Some(told(o.happening, Seq::empty()).kind))
    &&& on_list(filter.plugins@, chars(o.plugin))
    &&& on_list(filter.shelves@, chars(o.shelf))
}

proof fn lemma_interests(filter: HappeningFilter, o: Observed)
    ensures
        wanted(filter, o) == interests(filter, o),
{
    lemma_kind_name(o.happening, Seq::empty());
}

/// A filter accepts a happening if and only if each of its lists is empty or holds
/// what the happening has there.
pub proof fn law_filters_go_by_their_lists(
    filter: HappeningFilter,
    kind: &str,
    plugin: Option<&str>,
    shelf: Option<&str>,
    r: bool,
)
    requires
        call_ensures(HappeningFilter::accepts, (&filter, kind, plugin, shelf), r),
    ensures
        r <==> {
            &&& on_list(filter.variants@, Some(kind@))
            &&& on_list(
                filter.plugins@,
                if plugin is Some {
                    Some(plugin->0@)
                } else {
                    None
                },
            )
            &&& on_list(
                filter.shelves@,
                if shelf is Some {
                    Some(shelf->0@)
                } else {
                    None
                },
            )
        },
{
}

/// A subscription without a cursor is acknowledged and live at once, with nothing
/// behind it; one with a cursor first asks how far back the store goes.
pub proof fn law_subscriptions_begin_at_their_cursor(
    since: Option<u64>,
    filter: HappeningFilter,
    coalescing: bool,
    current_seq: u64,
    r: (Subscription, Turn),
)
    requires
        call_ensures(Subscription::begin, (since, filter, coalescing, current_seq), r),
    ensures
        r.0.filter == filter,
        r.0.coalescing == coalescing,
        since is None ==> {
            &&& r.0.phase == (Phase::Live { boundary: 0 })
            &&& r.1.frames@.len() == 1
            &&& r.1.frames@[0] == (ClientResponse::Subscribed { subscribed: true, current_seq })
            &&& r.1.next is Receive
        },
        since is Some ==> {
            &&& r.0.phase is Window
            &&& r.0.since == since
            &&& r.0.current_seq == current_seq
            &&& r.1.frames@.len() == 0
            &&& r.1.next is QueryOldest
        },
{
}

/// A cursor that lies before everything stored is refused, with the place where the
/// consumer can resume. Any other is acknowledged, and what is stored after it is
/// asked for.
pub proof fn law_old_cursors_are_refused(
    sub: &mut Subscription,
    oldest: u64,
    issuer: &mut ClaimantTokenIssuer,
    turn: Turn,
)
    requires
        call_ensures(Subscription::step, (sub, Event::Oldest(Ok(oldest)), issuer), turn),
        old(sub).since is Some,
    ensures
        turn.frames@.len() == 1,
        oldest > old(sub).since->0 ==> {
            &&& turn.next is End
            &&& final(sub).phase is Done
            &&& turn.frames@[0] matches ClientResponse::Error { error }
            &&& error.class == ErrorClass::ContractViolation
            &&& error.message@ == "since="@ + decimal(old(sub).since->0 as nat)
                + " is older than the durable retention window (oldest available seq is "@
                + decimal(oldest as nat) + ")"@
            &&& error.details == Some(
                object_value(
                    map![
                        "subclass"@ => text_value("replay_window_exceeded"@),
                        "oldest_available_seq"@ => number_value(oldest),
                        "current_seq"@ => number_value(old(sub).current_seq),
                    ],
                ),
            )
        },
        oldest <= old(sub).since->0 ==> {
            &&& turn.next == (Next::QueryRows { since: old(sub).since->0 })
            &&& final(sub).phase is Replay
            &&& turn.frames@[0] == (ClientResponse::Subscribed {
                subscribed: true,
                current_seq: old(sub).current_seq,
            })
        },
        final(sub).filter == old(sub).filter,
        final(sub).coalescing == old(sub).coalescing,
        final(sub).since == old(sub).since,
{
}

/// A store that fails ends the subscription with its reason.
pub proof fn law_failing_stores_end_the_subscription(
    sub: &mut Subscription,
    event: Event,
    issuer: &mut ClaimantTokenIssuer,
    turn: Turn,
)
    requires
        call_ensures(Subscription::step, (sub, event, issuer), turn),
        event matches Event::Oldest(Err(_)) || event matches Event::Rows(Err(_)),
    ensures
        turn.next is End,
        final(sub).phase is Done,
        turn.frames@.len() == 1,
        event matches Event::Oldest(Err(why)) ==> refuses(
            turn.frames@[0],
            ErrorClass::Internal,
            "oldest-seq query failed: "@ + why@,
            "replay_window_query_failed"@,
        ),
        event matches Event::Rows(Err(why)) ==> refuses(
            turn.frames@[0],
            ErrorClass::Internal,
            "replay query failed: "@ + why@,
            "replay_query_failed"@,
        ),
{
}

/// The stored happenings that a subscriber wants, in their order.
pub open spec fn kept(rows: Seq<ReplayRow>, filter: HappeningFilter) -> Seq<ReplayRow> {
    rows.filter(|row: ReplayRow| row.decoded is Ok && interests(filter, row.decoded->Ok_0))
}

/// The frames show these stored happenings, one by one.
pub open spec fn frames_show(
    frames: Seq<ClientResponse>,
    rows: Seq<ReplayRow>,
    steward: Seq<char>,
) -> bool {
    frames.len() == rows.len() && forall|i: int|
        0 <= i < rows.len() ==> frame_tells(
            #[trigger] frames[i],
            rows[i].seq,
            rows[i].decoded->Ok_0.happening,
            steward,
        )
}

proof fn lemma_replayed(rows: Seq<ReplayRow>, filter: HappeningFilter, steward: Seq<char>)
    ensures
        frames_show(replayed(rows, filter, steward), kept(rows, filter), steward),
    decreases rows.len(),
{
    reveal(Seq::filter);
    if rows.len() > 0 {
        let rest = rows.drop_last();
        lemma_replayed(rest, filter, steward);
        if rows.last().decoded is Ok {
            lemma_interests(filter, rows.last().decoded->Ok_0);
            lemma_wire_form(rows.last().decoded->Ok_0.happening, steward);
        }
        let frames = replayed(rows, filter, steward);
        let before = replayed(rest, filter, steward);
        assert forall|i: int| 0 <= i < kept(rows, filter).len() implies frame_tells(
            #[trigger] frames[i],
            kept(rows, filter)[i].seq,
            kept(rows, filter)[i].decoded->Ok_0.happening,
            steward,
        ) by {
            if i < before.len() {
                assert(frames[i] == before[i]);
            }
        }
    }
}

/// Of what is stored a subscriber gets what it wants, all of it, once and in order.
/// It is live from then on, with everything up to the last stored happening behind
/// it.
pub proof fn law_replays_give_what_is_wanted(
    sub: &mut Subscription,
    rows: Vec<ReplayRow>,
    issuer: &mut ClaimantTokenIssuer,
    turn: Turn,
)
    requires
        call_ensures(Subscription::step, (sub, Event::Rows(Ok(rows)), issuer), turn),
        forall|j: int| 0 <= j < rows@.len() ==> (#[trigger] rows@[j]).decoded is Ok,
        old(sub).since is Some,
    ensures
        frames_show(
            turn.frames@,
            kept(rows@, old(sub).filter),
            old(issuer).instance_id@,
        ),
        turn.next is Receive,
        final(sub).phase == (Phase::Live {
            boundary: if rows@.len() > 0 {
                rows@[rows@.len() - 1].seq
            } else {
                old(sub).since->0
            },
        }),
        final(sub).filter == old(sub).filter,
        final(sub).coalescing == old(sub).coalescing,
{
    lemma_replayed(rows@, old(sub).filter, old(issuer).instance_id@);
}

/// A stored happening that cannot be read ends the subscription: what comes before
/// it is replayed, and the error names its place and the reason.
pub proof fn law_unreadable_rows_end_the_replay(
    sub: &mut Subscription,
    rows: Vec<ReplayRow>,
    issuer: &mut ClaimantTokenIssuer,
    turn: Turn,
    k: int,
)
    requires
        call_ensures(Subscription::step, (sub, Event::Rows(Ok(rows)), issuer), turn),
        0 <= k < rows@.len(),
        rows@[k].decoded is Err,
        forall|j: int| 0 <= j < k ==> (#[trigger] rows@[j]).decoded is Ok,
    ensures
        turn.next is End,
        final(sub).phase is Done,
        turn.frames@.len() > 0,
        frames_show(
            turn.frames@.drop_last(),
            kept(rows@.take(k), old(sub).filter),
            old(issuer).instance_id@,
        ),
        refuses(
            turn.frames@.last(),
            ErrorClass::Internal,
            "replay decode failed at seq "@ + decimal(rows@[k].seq as nat) + ": "@
                + rows@[k].decoded->Err_0@,
            "replay_decode_failed"@,
        ),
{
    assert(!all_sound(rows@));
    let b = choose|b: int| #[trigger]
        bad_at(rows@, b) && turn.frames@.drop_last() == replayed(
            rows@.take(b),
            old(sub).filter,
            old(issuer).instance_id@,
        ) && turn.frames@.len() > 0 && turn.frames@.last() is Error && says(
            turn.frames@.last()->Error_error,
            ErrorClass::Internal,
            "replay decode failed at seq "@ + decimal(rows@[b].seq as nat) + ": "@
                + rows@[b].decoded->Err_0@,
            "replay_decode_failed"@,
        );
    assert(b == k) by {
        if b < k {
            assert(rows@[b].decoded is Ok);
        }
        if k < b {
            assert(rows@[k].decoded is Ok);
        }
    }
    lemma_replayed(rows@.take(k), old(sub).filter, old(issuer).instance_id@);
}

/// A live happening reaches a subscriber if and only if it comes after everything
/// that was replayed and the subscriber wants it: as its frame, or, where the
/// subscriber coalesces, by way of the coalescer. The subscription stays as it is.
pub proof fn law_live_happenings_are_new_and_wanted(
    sub: &mut Subscription,
    env: Envelope,
    issuer: &mut ClaimantTokenIssuer,
    turn: Turn,
)
    requires
        call_ensures(Subscription::step, (sub, Event::Live(env), issuer), turn),
        old(sub).phase is Live,
    ensures
        ({
            let reaches = old(sub).phase->boundary < env.seq && interests(
                old(sub).filter,
                env.observed,
            );
            &&& !reaches ==> turn.frames@.len() == 0 && turn.next is Receive
            &&& reaches && old(sub).coalescing ==> turn.frames@.len() == 0 && turn.next
                == Next::Coalesce(env)
            &&& reaches && !old(sub).coalescing ==> turn.frames@.len() == 1 && turn.next is Receive
                && frame_tells(
                turn.frames@[0],
                env.seq,
                env.observed.happening,
                old(issuer).instance_id@,
            )
        }),
        *final(sub) == *old(sub),
{
    lemma_interests(old(sub).filter, env.observed);
    lemma_wire_form(env.observed.happening, old(issuer).instance_id@);
}

/// What the coalescer lets through is written, one frame for each and in order.
pub proof fn law_released_happenings_are_written(
    sub: &mut Subscription,
    envs: Vec<Envelope>,
    issuer: &mut ClaimantTokenIssuer,
    turn: Turn,
)
    requires
        call_ensures(Subscription::step, (sub, Event::Released(envs), issuer), turn),
    ensures
        turn.frames@.len() == envs@.len(),
        forall|i: int|
            0 <= i < envs@.len() ==> frame_tells(
                #[trigger] turn.frames@[i],
                envs@[i].seq,
                envs@[i].observed.happening,
                old(issuer).instance_id@,
            ),
        turn.next is Receive,
        *final(sub) == *old(sub),
{
    assert forall|i: int| 0 <= i < envs@.len() implies frame_tells(
        #[trigger] turn.frames@[i],
        envs@[i].seq,
        envs@[i].observed.happening,
        old(issuer).instance_id@,
    ) by {
        lemma_wire_form(envs@[i].observed.happening, old(issuer).instance_id@);
    }
}

/// A gap on the bus is told, with how many happenings it swallowed, from where the
/// store can make up for them and how far the bus is; the subscription goes on.
pub proof fn law_gaps_are_told(
    sub: &mut Subscription,
    missed: u64,
    oldest: Option<u64>,
    live_seq: u64,
    issuer: &mut ClaimantTokenIssuer,
    turn: Turn,
)
    requires
        call_ensures(
            Subscription::step,
            (sub, Event::Lagged { missed, oldest, live_seq }, issuer),
            turn,
        ),
    ensures
        turn.frames@.len() == 1,
        turn.frames@[0] matches ClientResponse::Lagged { lagged } && lagged.missed_count == missed
            && lagged.current_seq == live_seq && (oldest is Some ==> lagged.oldest_available_seq
            == oldest->0) && (oldest is None ==> lagged.oldest_available_seq == 0),
        turn.next is Receive,
        *final(sub) == *old(sub),
{
}

/// When the bus or the peer is gone, the subscription is over.
pub proof fn law_gone_is_over(
    sub: &mut Subscription,
    issuer: &mut ClaimantTokenIssuer,
    turn: Turn,
)
    requires
        call_ensures(Subscription::step, (sub, Event::Gone, issuer), turn),
    ensures
        turn.frames@.len() == 0,
        turn.next is End,
        final(sub).phase is Done,
{
}

/// The happenings that some turns hand to the coalescer.
pub open spec fn handed(turns: Seq<Turn>) -> Seq<Envelope>
    decreases turns.len(),
{
    if turns.len() == 0 {
        Seq::empty()
    } else {
        match turns.last().next {
            Next::Coalesce(env) => handed(turns.drop_last()).push(env),
            _ => handed(turns.drop_last()),
        }
    }
}

/// A subscription with coalescing that takes happenings from the bus one after the
/// other hands to the coalescer those that come after the replay and that it wants,
/// all of them, once and in order, and writes none itself.
pub proof fn law_coalescers_get_what_is_new_and_wanted(
    states: Seq<Subscription>,
    envs: Seq<Envelope>,
    turns: Seq<Turn>,
    boundary: u64,
    steward: Seq<char>,
)
    requires
        states.len() == envs.len() + 1,
        turns.len() == envs.len(),
        states[0].phase == (Phase::Live { boundary }),
        states[0].coalescing,
        forall|i: int|
            0 <= i < envs.len() ==> (#[trigger] states[i]).takes(
                Event::Live(envs[i]),
                steward,
                states[i + 1],
                turns[i],
            ),
    ensures
        handed(turns) == envs.filter(
            |e: Envelope| boundary < e.seq && interests(states[0].filter, e.observed),
        ),
        forall|i: int| 0 <= i < turns.len() ==> (#[trigger] turns[i]).frames@.len() == 0,
        states.last() == states[0],
    decreases envs.len(),
{
    reveal(Seq::filter);
    if envs.len() > 0 {
        let n = envs.len() - 1;
        let earlier = states.drop_last();
        assert forall|i: int| 0 <= i < n implies (#[trigger] earlier[i]).takes(
            Event::Live(envs.drop_last()[i]),
            steward,
            earlier[i + 1],
            turns.drop_last()[i],
        ) by {
            assert(earlier[i] == states[i] && earlier[i + 1] == states[i + 1]);
        }
        law_coalescers_get_what_is_new_and_wanted(
            earlier,
            envs.drop_last(),
            turns.drop_last(),
            boundary,
            steward,
        );
        assert(earlier.last() == states[n]);
        assert(states[n].takes(Event::Live(envs[n]), steward, states[n + 1], turns[n]));
        lemma_interests(states[0].filter, envs[n].observed);
        assert(turns.last() == turns[n] && envs.last() == envs[n]);
        assert forall|i: int| 0 <= i < turns.len() implies (#[trigger] turns[i]).frames@.len()
            == 0 by {
            if i < n {
                assert(turns.drop_last()[i].frames@.len() == 0);
            }
        }
    }
}

}
