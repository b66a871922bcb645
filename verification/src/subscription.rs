//! The stream of happenings: the replay window, the acknowledgement, the replay
//! and the live phase.
//!
//! The caller registers on the bus before it begins, and then alternates: it
//! writes the frames of a [`Turn`], does what the turn says comes next, and hands
//! back what came of it.

use crate::claimant::{all_names, learns, lemma_learns_list, lemma_learns_no_list};
use crate::claimant::ClaimantTokenIssuer;
use crate::errors::{is_error, refusal, ApiError, ErrorClass};
use crate::happenings::{Happening, HappeningWire};
use crate::json::{number_of_value, number_value, object3, object_value, text_of_value, text_value};
use crate::requests::HappeningFilter;
use crate::responses::{ClientResponse, LaggedSignal};
use crate::text::{concat2, concat4, concat5, decimal, decimal_text};
use vstd::prelude::*;
use vstd::string::*;

verus! {

/// A happening with what filters ask about it.
#[derive(Debug)]
pub struct Observed {
    pub happening: Happening,
    /// The plugin that the happening is mainly about.
    pub plugin: Option<String>,
    /// The shelf that the happening is about.
    pub shelf: Option<String>,
}

/// A happening at its place on the bus.
#[derive(Debug)]
pub struct Envelope {
    pub seq: u64,
    pub observed: Observed,
}

/// A stored happening; one that cannot be decoded comes with the reason.
#[derive(Debug)]
pub struct ReplayRow {
    pub seq: u64,
    pub decoded: Result<Observed, String>,
}

/// A text that may be missing, as its characters.
pub open spec fn text_of(t: Option<String>) -> Option<Seq<char>> {
    match t {
        Some(s) => Some(s@),
        None => None,
    }
}

/// The filter lets the happening through.
pub open spec fn wanted(filter: HappeningFilter, o: Observed) -> bool {
    filter.passes(o.happening.kind_text(), text_of(o.plugin), text_of(o.shelf))
}

fn wants(filter: &HappeningFilter, o: &Observed) -> (r: bool)
    ensures
        r == wanted(*filter, *o),
{
    let plugin: Option<&str> = match &o.plugin {
        Some(p) => Some(p.as_str()),
        None => None,
    };
    let shelf: Option<&str> = match &o.shelf {
        Some(s) => Some(s.as_str()),
        None => None,
    };
    filter.accepts(o.happening.kind(), plugin, shelf)
}

/// The frame of a happening.
pub open spec fn happening_frame(
    seq: u64,
    happening: Happening,
    steward: Seq<char>,
) -> ClientResponse {
    ClientResponse::Happening { seq, happening: HappeningWire::of(happening, steward) }
}

/// The frames of stored happenings: one for each that can be decoded and that
/// the filter lets through, in their order.
pub open spec fn replayed(
    rows: Seq<ReplayRow>,
    filter: HappeningFilter,
    steward: Seq<char>,
) -> Seq<ClientResponse>
    decreases rows.len(),
{
    if rows.len() == 0 {
        Seq::empty()
    } else {
        let before = replayed(rows.drop_last(), filter, steward);
        match rows.last().decoded {
            Ok(o) => if wanted(filter, o) {
                before.push(happening_frame(rows.last().seq, o.happening, steward))
            } else {
                before
            },
            Err(_) => before,
        }
    }
}

/// The plugins that the frames of stored happenings show by their tokens, frame
/// by frame.
pub open spec fn replayed_plugins(rows: Seq<ReplayRow>, filter: HappeningFilter) -> Seq<
    Seq<Seq<char>>,
>
    decreases rows.len(),
{
    if rows.len() == 0 {
        Seq::empty()
    } else {
        let before = replayed_plugins(rows.drop_last(), filter);
        match rows.last().decoded {
            Ok(o) => if wanted(filter, o) {
                before.push(o.happening.plugins())
            } else {
                before
            },
            Err(_) => before,
        }
    }
}

/// The rows before the first that cannot be decoded.
pub open spec fn readable(rows: Seq<ReplayRow>) -> Seq<ReplayRow> {
    if all_sound(rows) {
        rows
    } else {
        rows.take(choose|k: int| #[trigger] bad_at(rows, k))
    }
}

/// Row `k` is the first that cannot be decoded.
pub open spec fn bad_at(rows: Seq<ReplayRow>, k: int) -> bool {
    0 <= k < rows.len() && rows[k].decoded is Err && forall|j: int|
        0 <= j < k ==> (#[trigger] rows[j]).decoded is Ok
}

/// Every row can be decoded.
pub open spec fn all_sound(rows: Seq<ReplayRow>) -> bool {
    forall|j: int| 0 <= j < rows.len() ==> (#[trigger] rows[j]).decoded is Ok
}

/// The largest sequence number that the replay covers.
pub open spec fn covered(since: u64, rows: Seq<ReplayRow>) -> u64 {
    if rows.len() == 0 {
        since
    } else {
        rows.last().seq
    }
}

/// The frames that a live happening leads to: none if the replay has covered it
/// or if the filter does not let it through.
pub open spec fn live_frames(
    boundary: u64,
    filter: HappeningFilter,
    steward: Seq<char>,
    env: Envelope,
) -> Seq<ClientResponse> {
    if env.seq > boundary && wanted(filter, env.observed) {
        seq![happening_frame(env.seq, env.observed.happening, steward)]
    } else {
        Seq::empty()
    }
}

/// The cursor lies before everything that is still stored.
pub open spec fn window_exceeded(since: u64, oldest: u64) -> bool {
    oldest > 0 && since < oldest
}

/// The error for a cursor that is too old. It says where the consumer can
/// resume.
pub open spec fn is_window_error(e: ApiError, since: u64, oldest: u64, current_seq: u64) -> bool {
    &&& e.class == ErrorClass::ContractViolation
    &&& e.message@ == "since="@ + decimal(since as nat)
        + " is older than the durable retention window (oldest available seq is "@ + decimal(
        oldest as nat,
    ) + ")"@
    &&& e.details == Some(
        object_value(
            map![
                "subclass"@ => text_value("replay_window_exceeded"@),
                "oldest_available_seq"@ => number_value(oldest),
                "current_seq"@ => number_value(current_seq),
            ],
        ),
    )
}

fn window_error(since: u64, oldest: u64, current_seq: u64) -> (e: ApiError)
    ensures
        is_window_error(e, since, oldest, current_seq),
{
    let cursor = decimal_text(since);
    let first = decimal_text(oldest);
    let message = concat5(
        "since=",
        cursor.as_str(),
        " is older than the durable retention window (oldest available seq is ",
        first.as_str(),
        ")",
    );
    proof {
        reveal_strlit("subclass");
        reveal_strlit("oldest_available_seq");
        reveal_strlit("current_seq");
        assert("subclass"@.len() == 8);
        assert("oldest_available_seq"@.len() == 20);
        assert("current_seq"@.len() == 11);
    }
    ApiError::new(ErrorClass::ContractViolation, message.as_str()).with_details(
        object3(
            "subclass",
            text_of_value("replay_window_exceeded"),
            "oldest_available_seq",
            number_of_value(oldest),
            "current_seq",
            number_of_value(current_seq),
        ),
    )
}

/// Where a subscription stands.
#[derive(Debug, Clone, Copy, PartialEq, Eq, Structural)]
pub enum Phase {
    /// The oldest stored sequence number is being asked for.
    Window,
    /// The stored happenings after the cursor are being asked for.
    Replay,
    /// Happenings come from the bus; up to the boundary they have been replayed.
    Live { boundary: u64 },
    /// The subscription is over.
    Done,
}

/// What comes next.
#[derive(Debug)]
pub enum Next {
    /// Ask for the oldest stored sequence number.
    QueryOldest,
    /// Ask for every stored happening after the cursor.
    QueryRows { since: u64 },
    /// Show the happening to the coalescer.
    Coalesce(Envelope),
    /// Wait for the bus, or for the coalescer's next deadline.
    Receive,
    /// Close the connection.
    End,
}

/// The frames to write, and what comes after them.
#[derive(Debug)]
pub struct Turn {
    pub frames: Vec<ClientResponse>,
    pub next: Next,
}

/// What came of a turn.
#[derive(Debug)]
pub enum Event {
    /// The oldest stored sequence number, zero if nothing is stored.
    Oldest(Result<u64, String>),
    /// The stored happenings after the cursor.
    Rows(Result<Vec<ReplayRow>, String>),
    /// A happening came from the bus.
    Live(Envelope),
    /// The coalescer let these through.
    Released(Vec<Envelope>),
    /// The bus dropped happenings before they were received.
    Lagged { missed: u64, oldest: Option<u64>, live_seq: u64 },
    /// The bus is gone, or a frame could not be written.
    Gone,
}

/// A subscription.
#[derive(Debug)]
pub struct Subscription {
    pub since: Option<u64>,
    pub filter: HappeningFilter,
    /// Whether happenings go through a coalescer.
    pub coalescing: bool,
    /// The latest sequence number at the time of the registration.
    pub current_seq: u64,
    pub phase: Phase,
}

/// The acknowledgement.
pub open spec fn ack(current_seq: u64) -> ClientResponse {
    ClientResponse::Subscribed { subscribed: true, current_seq }
}

/// Frames that hold one error and end the subscription.
pub open spec fn ends_with(
    turn: Turn,
    class: ErrorClass,
    message: Seq<char>,
    subclass: Seq<char>,
) -> bool {
    &&& turn.frames@.len() == 1
    &&& turn.frames@[0] matches ClientResponse::Error { error }
    &&& is_error(error, class, message, subclass)
    &&& turn.next is End
}

/// The frames of released happenings.
pub open spec fn released(envs: Seq<Envelope>, steward: Seq<char>) -> Seq<ClientResponse> {
    envs.map_values(|e: Envelope| happening_frame(e.seq, e.observed.happening, steward))
}

/// The signal of a gap. What is stored counts as nothing if the store does not
/// say.
pub open spec fn lag_signal(missed: u64, oldest: Option<u64>, live_seq: u64) -> ClientResponse {
    ClientResponse::Lagged {
        lagged: LaggedSignal {
            missed_count: missed,
            oldest_available_seq: match oldest {
                Some(n) => n,
                None => 0,
            },
            current_seq: live_seq,
        },
    }
}

/// The signal of a gap.
pub(crate) fn lagged_frame(missed: u64, oldest: Option<u64>, live_seq: u64) -> (r: ClientResponse)
    ensures
        r == lag_signal(missed, oldest, live_seq),
{
    let oldest_available_seq: u64 = match oldest {
        Some(n) => n,
        None => 0,
    };
    ClientResponse::Lagged {
        lagged: LaggedSignal {
            missed_count: missed,
            oldest_available_seq,
            current_seq: live_seq,
        },
    }
}

fn failure(class: ErrorClass, message: &str, subclass: &str) -> (r: Turn)
    ensures
        ends_with(r, class, message@, subclass@),
{
    let mut frames: Vec<ClientResponse> = Vec::new();
    frames.push(ClientResponse::Error { error: refusal(class, message, subclass) });
    Turn { frames, next: Next::End }
}

fn frame_of(seq: u64, happening: Happening, issuer: &mut ClaimantTokenIssuer) -> (r: ClientResponse)
    ensures
        r == happening_frame(seq, happening, old(issuer).instance_id@),
        final(issuer).instance_id == old(issuer).instance_id,
        learns(*old(issuer), *final(issuer), happening.plugins().to_set()),
{
    ClientResponse::Happening { seq, happening: HappeningWire::from_happening(happening, issuer) }
}

/// The refusal of a stored happening that cannot be decoded.
pub open spec fn is_undecodable(error: ApiError, seq: u64, why: Seq<char>) -> bool {
    is_error(
        error,
        ErrorClass::Internal,
        "replay decode failed at seq "@ + decimal(seq as nat) + ": "@ + why,
        "replay_decode_failed"@,
    )
}

fn undecodable(seq: u64, why: &str) -> (r: ApiError)
    ensures
        is_undecodable(r, seq, why@),
{
    let at = decimal_text(seq);
    let message = concat4("replay decode failed at seq ", at.as_str(), ": ", why);
    refusal(ErrorClass::Internal, message.as_str(), "replay_decode_failed")
}

fn show(
    seq: u64,
    o: Observed,
    filter: &HappeningFilter,
    frames: &mut Vec<ClientResponse>,
    issuer: &mut ClaimantTokenIssuer,
)
    ensures
        final(issuer).instance_id == old(issuer).instance_id,
        if wanted(*filter, o) {
            &&& final(frames)@ == old(frames)@.push(
                happening_frame(seq, o.happening, old(issuer).instance_id@),
            )
            &&& learns(*old(issuer), *final(issuer), o.happening.plugins().to_set())
        } else {
            &&& final(frames)@ == old(frames)@
            &&& *final(issuer) == *old(issuer)
        },
{
    if wants(filter, &o) {
        frames.push(frame_of(seq, o.happening, issuer));
    }
}

proof fn lemma_replay_step(
    rows: Seq<ReplayRow>,
    k: int,
    filter: HappeningFilter,
    steward: Seq<char>,
)
    requires
        0 <= k < rows.len(),
        rows[k].decoded is Ok,
    ensures
        covered(rows[k].seq, rows.take(k + 1)) == rows[k].seq,
        rows.take(k + 1).len() == k + 1,
        rows.take(k + 1).last() == rows[k],
        if wanted(filter, rows[k].decoded->Ok_0) {
            let h = rows[k].decoded->Ok_0.happening;
            &&& replayed(rows.take(k + 1), filter, steward) == replayed(
                rows.take(k),
                filter,
                steward,
            ).push(happening_frame(rows[k].seq, h, steward))
            &&& replayed_plugins(rows.take(k + 1), filter) == replayed_plugins(
                rows.take(k),
                filter,
            ).push(h.plugins())
        } else {
            &&& replayed(rows.take(k + 1), filter, steward) == replayed(
                rows.take(k),
                filter,
                steward,
            )
            &&& replayed_plugins(rows.take(k + 1), filter) == replayed_plugins(
                rows.take(k),
                filter,
            )
        },
{
    assert(rows.take(k + 1).drop_last() =~= rows.take(k));
    assert(rows.take(k + 1).last() == rows[k]);
}

impl Subscription {
    /// Begins a subscription that is registered on the bus. Only one with a
    /// cursor looks at what is stored; another is acknowledged at once.
    pub fn begin(
        since: Option<u64>,
        filter: HappeningFilter,
        coalescing: bool,
        current_seq: u64,
    ) -> (r: (Subscription, Turn))
        ensures
            r.0.since == since,
            r.0.filter == filter,
            r.0.coalescing == coalescing,
            r.0.current_seq == current_seq,
            match since {
                Some(_) => r.0.phase is Window && r.1.frames@.len() == 0 && r.1.next
                    is QueryOldest,
                None => r.0.phase == (Phase::Live { boundary: 0 }) && r.1.frames@ == seq![
                    ack(current_seq),
                ] && r.1.next is Receive,
            },
    {
        let mut frames: Vec<ClientResponse> = Vec::new();
        match since {
            Some(_) => {
                let s = Subscription {
                    since,
                    filter,
                    coalescing,
                    current_seq,
                    phase: Phase::Window,
                };
                (s, Turn { frames, next: Next::QueryOldest })
            },
            None => {
                frames.push(ClientResponse::Subscribed { subscribed: true, current_seq });
                assert(frames@ =~= seq![ack(current_seq)]);
                let s = Subscription {
                    since,
                    filter,
                    coalescing,
                    current_seq,
                    phase: Phase::Live { boundary: 0 },
                };
                (s, Turn { frames, next: Next::Receive })
            },
        }
    }

    /// The subscription waits for such an event.
    pub open spec fn expects(self, event: Event) -> bool {
        match event {
            Event::Oldest(_) => self.phase is Window && self.since is Some,
            Event::Rows(_) => self.phase is Replay && self.since is Some,
            Event::Live(_) => self.phase is Live,
            Event::Released(_) => self.phase is Live && self.coalescing,
            Event::Lagged { .. } => self.phase is Live,
            Event::Gone => !(self.phase is Done),
        }
    }

    /// The subscription in another phase.
    pub open spec fn in_phase(self, phase: Phase) -> Subscription {
        Subscription { phase, ..self }
    }

    /// What an event leads to.
    pub open spec fn takes(
        self,
        event: Event,
        steward: Seq<char>,
        after: Subscription,
        turn: Turn,
    ) -> bool {
        match event {
            Event::Oldest(Ok(oldest)) => if window_exceeded(self.since->0, oldest) {
                &&& after == self.in_phase(Phase::Done)
                &&& turn.frames@.len() == 1
                &&& turn.frames@[0] matches ClientResponse::Error { error }
                &&& is_window_error(error, self.since->0, oldest, self.current_seq)
                &&& turn.next is End
            } else {
                &&& after == self.in_phase(Phase::Replay)
                &&& turn.frames@ == seq![ack(self.current_seq)]
                &&& turn.next == (Next::QueryRows { since: self.since->0 })
            },
            Event::Oldest(Err(why)) => {
                &&& after == self.in_phase(Phase::Done)
                &&& ends_with(
                    turn,
                    ErrorClass::Internal,
                    "oldest-seq query failed: "@ + why@,
                    "replay_window_query_failed"@,
                )
            },
            Event::Rows(Ok(rows)) => if all_sound(rows@) {
                &&& after == self.in_phase(
                    Phase::Live { boundary: covered(self.since->0, rows@) },
                )
                &&& turn.frames@ == replayed(rows@, self.filter, steward)
                &&& turn.next is Receive
            } else {
                &&& after == self.in_phase(Phase::Done)
                &&& turn.next is End
                &&& exists|k: int| #[trigger]
                    bad_at(rows@, k) && {
                        &&& turn.frames@.len() == replayed(
                            rows@.take(k),
                            self.filter,
                            steward,
                        ).len() + 1
                        &&& turn.frames@.drop_last() == replayed(
                            rows@.take(k),
                            self.filter,
                            steward,
                        )
                        &&& turn.frames@.last() matches ClientResponse::Error { error }
                        &&& is_undecodable(error, rows@[k].seq, rows@[k].decoded->Err_0@)
                    }
            },
            Event::Rows(Err(why)) => {
                &&& after == self.in_phase(Phase::Done)
                &&& ends_with(
                    turn,
                    ErrorClass::Internal,
                    "replay query failed: "@ + why@,
                    "replay_query_failed"@,
                )
            },
            Event::Live(env) => {
                let boundary = self.phase->boundary;
                &&& after == self
                &&& if self.coalescing && env.seq > boundary && wanted(self.filter, env.observed) {
                    turn.frames@.len() == 0 && turn.next == Next::Coalesce(env)
                } else {
                    &&& turn.frames@ == live_frames(boundary, self.filter, steward, env)
                    &&& turn.next is Receive
                }
            },
            Event::Released(envs) => {
                &&& after == self
                &&& turn.frames@ == released(envs@, steward)
                &&& turn.next is Receive
            },
            Event::Lagged { missed, oldest, live_seq } => {
                &&& after == self
                &&& turn.frames@ == seq![lag_signal(missed, oldest, live_seq)]
                &&& turn.next is Receive
            },
            Event::Gone => {
                &&& after == self.in_phase(Phase::Done)
                &&& turn.frames@.len() == 0
                &&& turn.next is End
            },
        }
    }

    /// The plugins that the frames of an event's turn show by their tokens, frame
    /// by frame.
    pub open spec fn plugins(self, event: Event) -> Seq<Seq<Seq<char>>> {
        match event {
            Event::Rows(Ok(rows)) => replayed_plugins(readable(rows@), self.filter),
            Event::Live(env) => if !self.coalescing && env.seq > self.phase->boundary && wanted(
                self.filter,
                env.observed,
            ) {
                seq![env.observed.happening.plugins()]
            } else {
                Seq::empty()
            },
            Event::Released(envs) => envs@.map_values(
                |e: Envelope| e.observed.happening.plugins(),
            ),
            _ => Seq::empty(),
        }
    }

    fn replay(&self, rows: Vec<ReplayRow>, issuer: &mut ClaimantTokenIssuer) -> (r: (
        Vec<ClientResponse>,
        Option<u64>,
    ))
        requires
            self.since is Some,
        ensures
            match r.1 {
                Some(boundary) => {
                    &&& all_sound(rows@)
                    &&& boundary == covered(self.since->0, rows@)
                    &&& r.0@ == replayed(rows@, self.filter, old(issuer).instance_id@)
                },
                None => exists|k: int| #[trigger]
                    bad_at(rows@, k) && {
                        &&& r.0@.len() > 0
                        &&& r.0@.drop_last() == replayed(
                            rows@.take(k),
                            self.filter,
                            old(issuer).instance_id@,
                        )
                        &&& r.0@.last() matches ClientResponse::Error { error }
                        &&& is_undecodable(error, rows@[k].seq, rows@[k].decoded->Err_0@)
                    },
            },
            final(issuer).instance_id == old(issuer).instance_id,
            learns(
                *old(issuer),
                *final(issuer),
                all_names(replayed_plugins(readable(rows@), self.filter)),
            ),
    {
        let ghost before = *issuer;
        let ghost all = rows@;
        proof {
            lemma_learns_no_list(before);
        }
        let mut frames: Vec<ClientResponse> = Vec::new();
        let mut boundary: u64 = match self.since {
            Some(n) => n,
            None => 0,
        };
        assert(all.take(0) =~= Seq::<ReplayRow>::empty());
        for row in it: rows
            invariant
                it.seq() == all,
                before == *old(issuer),
                self.since is Some,
                boundary == covered(self.since->0, all.take(it.index() as int)),
                frames@ == replayed(
                    all.take(it.index() as int),
                    self.filter,
                    before.instance_id@,
                ),
                issuer.instance_id == before.instance_id,
                learns(
                    before,
                    *issuer,
                    all_names(replayed_plugins(all.take(it.index() as int), self.filter)),
                ),
                forall|j: int| 0 <= j < it.index() ==> (#[trigger] all[j]).decoded is Ok,
        {
            let ghost k = it.index() as int;
            let ghost between = *issuer;
            assert(row == all[k]);
            boundary = row.seq;
            match row.decoded {
                Ok(o) => {
                    let ghost seen = o;
                    show(row.seq, o, &self.filter, &mut frames, issuer);
                    proof {
                        lemma_replay_step(all, k, self.filter, before.instance_id@);
                        if wanted(self.filter, seen) {
                            lemma_learns_list(
                                before,
                                between,
                                *issuer,
                                replayed_plugins(all.take(k), self.filter),
                                seen.happening.plugins(),
                            );
                        }
                    }
                },
                Err(why) => {
                    let error = undecodable(row.seq, why.as_str());
                    let ghost written = frames@;
                    frames.push(ClientResponse::Error { error });
                    proof {
                        assert(bad_at(all, k));
                        assert(frames@.drop_last() =~= written);
                        lemma_first_bad(all, k);
                    }
                    return (frames, None);
                },
            }
        }
        assert(all.take(all.len() as int) =~= all);
        (frames, Some(boundary))
    }

    /// Takes an event that the subscription waits for.
    pub fn step(&mut self, event: Event, issuer: &mut ClaimantTokenIssuer) -> (turn: Turn)
        requires
            old(self).expects(event),
        ensures
            old(self).takes(event, old(issuer).instance_id@, *final(self), turn),
            final(issuer).instance_id == old(issuer).instance_id,
            learns(*old(issuer), *final(issuer), all_names(old(self).plugins(event))),
    {
        let ghost before = *issuer;
        proof {
            lemma_learns_no_list(before);
        }
        let mut frames: Vec<ClientResponse> = Vec::new();
        match event {
            Event::Oldest(Ok(oldest)) => {
                let since: u64 = match self.since {
                    Some(n) => n,
                    None => 0,
                };
                if oldest > 0 && since < oldest {
                    self.phase = Phase::Done;
                    frames.push(
                        ClientResponse::Error {
                            error: window_error(since, oldest, self.current_seq),
                        },
                    );
                    return Turn { frames, next: Next::End };
                }
                self.phase = Phase::Replay;
                frames.push(
                    ClientResponse::Subscribed { subscribed: true, current_seq: self.current_seq },
                );
                assert(frames@ =~= seq![ack(self.current_seq)]);
                Turn { frames, next: Next::QueryRows { since } }
            },
            Event::Oldest(Err(why)) => {
                self.phase = Phase::Done;
                let message = concat2("oldest-seq query failed: ", why.as_str());
                failure(ErrorClass::Internal, message.as_str(), "replay_window_query_failed")
            },
            Event::Rows(Ok(rows)) => {
                let ghost all = rows@;
                let (frames, reached) = self.replay(rows, issuer);
                match reached {
                    Some(boundary) => {
                        self.phase = Phase::Live { boundary };
                        Turn { frames, next: Next::Receive }
                    },
                    None => {
                        proof {
                            let k = choose|k: int| #[trigger] bad_at(all, k);
                            assert(bad_at(all, k));
                            assert(!all_sound(all));
                        }
                        self.phase = Phase::Done;
                        Turn { frames, next: Next::End }
                    },
                }
            },
            Event::Rows(Err(why)) => {
                self.phase = Phase::Done;
                let message = concat2("replay query failed: ", why.as_str());
                failure(ErrorClass::Internal, message.as_str(), "replay_query_failed")
            },
            Event::Live(env) => {
                let boundary: u64 = match self.phase {
                    Phase::Live { boundary } => boundary,
                    _ => 0,
                };
                if env.seq <= boundary || !wants(&self.filter, &env.observed) {
                    return Turn { frames, next: Next::Receive };
                }
                if self.coalescing {
                    return Turn { frames, next: Next::Coalesce(env) };
                }
                let ghost shown = happening_frame(
                    env.seq,
                    env.observed.happening,
                    before.instance_id@,
                );
                let ghost named = env.observed.happening.plugins();
                frames.push(frame_of(env.seq, env.observed.happening, issuer));
                proof {
                    assert(frames@ =~= seq![shown]);
                    lemma_learns_list(before, before, *issuer, Seq::empty(), named);
                    assert(Seq::empty().push(named) =~= seq![named]);
                }
                Turn { frames, next: Next::Receive }
            },
            Event::Released(envs) => {
                let ghost all = envs@;
                let ghost lists = all.map_values(|e: Envelope| e.observed.happening.plugins());
                assert(lists.take(0) =~= Seq::empty());
                for e in it: envs
                    invariant
                        it.seq() == all,
                        lists == all.map_values(|e: Envelope| e.observed.happening.plugins()),
                        frames@ == released(all, before.instance_id@).take(it.index() as int),
                        issuer.instance_id == before.instance_id,
                        learns(before, *issuer, all_names(lists.take(it.index() as int))),
                {
                    let ghost k = it.index() as int;
                    let ghost between = *issuer;
                    assert(e == all[k]);
                    frames.push(frame_of(e.seq, e.observed.happening, issuer));
                    proof {
                        assert(frames@ =~= released(all, before.instance_id@).take(k + 1));
                        lemma_learns_list(before, between, *issuer, lists.take(k), lists[k]);
                        assert(lists.take(k + 1) =~= lists.take(k).push(lists[k]));
                    }
                }
                assert(frames@ =~= released(all, before.instance_id@));
                assert(lists.take(all.len() as int) =~= lists);
                Turn { frames, next: Next::Receive }
            },
            Event::Lagged { missed, oldest, live_seq } => {
                frames.push(lagged_frame(missed, oldest, live_seq));
                assert(frames@ =~= seq![lag_signal(missed, oldest, live_seq)]);
                Turn { frames, next: Next::Receive }
            },
            Event::Gone => {
                self.phase = Phase::Done;
                Turn { frames, next: Next::End }
            },
        }
    }
}

pub(crate) proof fn lemma_first_bad(rows: Seq<ReplayRow>, k: int)
    requires
        bad_at(rows, k),
    ensures
        !all_sound(rows),
        readable(rows) == rows.take(k),
{
    let c = choose|c: int| #[trigger] bad_at(rows, c);
    assert(bad_at(rows, c));
    assert(c == k) by {
        if c < k {
            assert(rows[c].decoded is Ok);
        }
        if k < c {
            assert(rows[k].decoded is Ok);
        }
    }
}

/// The frames that live happenings lead to, one after the other.
pub open spec fn live_run(
    boundary: u64,
    filter: HappeningFilter,
    steward: Seq<char>,
    envs: Seq<Envelope>,
) -> Seq<ClientResponse>
    decreases envs.len(),
{
    if envs.len() == 0 {
        Seq::empty()
    } else {
        live_run(boundary, filter, steward, envs.drop_last()) + live_frames(
            boundary,
            filter,
            steward,
            envs.last(),
        )
    }
}

/// Everything that a subscriber with a cursor sees after the acknowledgement.
pub open spec fn seen(
    since: u64,
    rows: Seq<ReplayRow>,
    filter: HappeningFilter,
    steward: Seq<char>,
    envs: Seq<Envelope>,
) -> Seq<ClientResponse> {
    replayed(rows, filter, steward) + live_run(covered(since, rows), filter, steward, envs)
}

/// The sequence number of a frame.
pub open spec fn seq_of(frame: ClientResponse) -> u64 {
    match frame {
        ClientResponse::Happening { seq, .. } => seq,
        _ => 0,
    }
}

/// The sequence numbers of frames strictly ascend, and lie after `low` and not
/// after `high`.
pub open spec fn climbs(frames: Seq<ClientResponse>, low: u64, high: u64) -> bool {
    &&& forall|i: int|
        0 <= i < frames.len() ==> low < seq_of(#[trigger] frames[i]) <= high
    &&& forall|i: int, j: int|
        0 <= i < j < frames.len() ==> seq_of(#[trigger] frames[i]) < seq_of(#[trigger] frames[j])
}

/// Stored happenings come in ascending order, all of them after the cursor.
pub open spec fn rows_ascend(since: u64, rows: Seq<ReplayRow>) -> bool {
    &&& forall|i: int| 0 <= i < rows.len() ==> since < (#[trigger] rows[i]).seq
    &&& forall|i: int, j: int|
        0 <= i < j < rows.len() ==> (#[trigger] rows[i]).seq < (#[trigger] rows[j]).seq
}

/// Happenings come from the bus in ascending order.
pub open spec fn envs_ascend(envs: Seq<Envelope>) -> bool {
    forall|i: int, j: int|
        0 <= i < j < envs.len() ==> (#[trigger] envs[i]).seq < (#[trigger] envs[j]).seq
}

proof fn lemma_replay_climbs(
    since: u64,
    rows: Seq<ReplayRow>,
    filter: HappeningFilter,
    steward: Seq<char>,
)
    requires
        rows_ascend(since, rows),
    ensures
        climbs(replayed(rows, filter, steward), since, covered(since, rows)),
    decreases rows.len(),
{
    if rows.len() > 0 {
        let rest = rows.drop_last();
        assert(rows_ascend(since, rest)) by {
            assert forall|i: int| 0 <= i < rest.len() implies since < (#[trigger] rest[i]).seq by {
                assert(rest[i] == rows[i]);
            }
            assert forall|i: int, j: int| 0 <= i < j < rest.len() implies (#[trigger] rest[i]).seq
                < (#[trigger] rest[j]).seq by {
                assert(rest[i] == rows[i] && rest[j] == rows[j]);
            }
        }
        lemma_replay_climbs(since, rest, filter, steward);
        assert(rows[rows.len() - 1] == rows.last());
        if rest.len() > 0 {
            assert(rest.last() == rows[rows.len() - 2]);
        }
    }
}

proof fn lemma_live_climbs(
    boundary: u64,
    filter: HappeningFilter,
    steward: Seq<char>,
    envs: Seq<Envelope>,
)
    requires
        envs_ascend(envs),
    ensures
        climbs(
            live_run(boundary, filter, steward, envs),
            boundary,
            if envs.len() > 0 {
                envs.last().seq
            } else {
                boundary
            },
        ),
    decreases envs.len(),
{
    if envs.len() > 0 {
        let rest = envs.drop_last();
        assert(envs_ascend(rest)) by {
            assert forall|i: int, j: int| 0 <= i < j < rest.len() implies (#[trigger] rest[i]).seq
                < (#[trigger] rest[j]).seq by {
                assert(rest[i] == envs[i] && rest[j] == envs[j]);
            }
        }
        lemma_live_climbs(boundary, filter, steward, rest);
        assert(envs[envs.len() - 1] == envs.last());
        if rest.len() > 0 {
            assert(rest.last() == envs[envs.len() - 2]);
        }
        let before = live_run(boundary, filter, steward, rest);
        let more = live_frames(boundary, filter, steward, envs.last());
        let all = before + more;
        assert forall|i: int| 0 <= i < all.len() implies boundary < seq_of(#[trigger] all[i])
            <= envs.last().seq by {
            if i < before.len() {
                assert(all[i] == before[i]);
            } else {
                assert(all[i] == more[i - before.len()]);
            }
        }
        assert forall|i: int, j: int| 0 <= i < j < all.len() implies seq_of(#[trigger] all[i])
            < seq_of(#[trigger] all[j]) by {
            assert(all[i] == before[i]);
            if j < before.len() {
                assert(all[j] == before[j]);
            } else {
                assert(all[j] == more[j - before.len()]);
            }
        }
    }
}

/// A subscriber never sees a sequence number twice, and sees them in ascending
/// order, across the boundary between the replay and the live phase.
pub proof fn law_never_twice(
    since: u64,
    rows: Seq<ReplayRow>,
    filter: HappeningFilter,
    steward: Seq<char>,
    envs: Seq<Envelope>,
)
    requires
        rows_ascend(since, rows),
        envs_ascend(envs),
    ensures
        ({
            let frames = seen(since, rows, filter, steward, envs);
            forall|i: int, j: int|
                0 <= i < j < frames.len() ==> seq_of(#[trigger] frames[i]) < seq_of(
                    #[trigger] frames[j],
                )
        }),
{
    let boundary = covered(since, rows);
    lemma_replay_climbs(since, rows, filter, steward);
    lemma_live_climbs(boundary, filter, steward, envs);
    let first = replayed(rows, filter, steward);
    let second = live_run(boundary, filter, steward, envs);
    let frames = seen(since, rows, filter, steward, envs);
    assert forall|i: int, j: int| 0 <= i < j < frames.len() implies seq_of(#[trigger] frames[i])
        < seq_of(#[trigger] frames[j]) by {
        if j < first.len() {
            assert(frames[i] == first[i] && frames[j] == first[j]);
        } else {
            assert(frames[j] == second[j - first.len()]);
            if i < first.len() {
                assert(frames[i] == first[i]);
            } else {
                assert(frames[i] == second[i - first.len()]);
            }
        }
    }
}

proof fn lemma_row_is_replayed(
    rows: Seq<ReplayRow>,
    filter: HappeningFilter,
    steward: Seq<char>,
    k: int,
)
    requires
        0 <= k < rows.len(),
        rows[k].decoded is Ok,
        wanted(filter, rows[k].decoded->Ok_0),
    ensures
        replayed(rows, filter, steward).contains(
            happening_frame(rows[k].seq, rows[k].decoded->Ok_0.happening, steward),
        ),
    decreases rows.len(),
{
    let rest = rows.drop_last();
    let before = replayed(rest, filter, steward);
    let all = replayed(rows, filter, steward);
    let frame = happening_frame(rows[k].seq, rows[k].decoded->Ok_0.happening, steward);
    if k == rows.len() - 1 {
        assert(all[before.len() as int] == frame);
    } else {
        assert(rest[k] == rows[k]);
        lemma_row_is_replayed(rest, filter, steward, k);
        let i = choose|i: int| 0 <= i < before.len() && before[i] == frame;
        assert(all[i] == frame);
    }
}

proof fn lemma_env_is_delivered(
    boundary: u64,
    filter: HappeningFilter,
    steward: Seq<char>,
    envs: Seq<Envelope>,
    k: int,
)
    requires
        0 <= k < envs.len(),
        envs[k].seq > boundary,
        wanted(filter, envs[k].observed),
    ensures
        live_run(boundary, filter, steward, envs).contains(
            happening_frame(envs[k].seq, envs[k].observed.happening, steward),
        ),
    decreases envs.len(),
{
    let rest = envs.drop_last();
    let before = live_run(boundary, filter, steward, rest);
    let all = live_run(boundary, filter, steward, envs);
    let frame = happening_frame(envs[k].seq, envs[k].observed.happening, steward);
    if k == envs.len() - 1 {
        assert(all[before.len() as int] == frame);
    } else {
        assert(rest[k] == envs[k]);
        lemma_env_is_delivered(boundary, filter, steward, rest, k);
        let i = choose|i: int| 0 <= i < before.len() && before[i] == frame;
        assert(all[i] == frame);
    }
}

/// A subscriber misses nothing that it asked for: a stored happening after the
/// cursor is replayed, and one that comes from the bus is delivered, unless the
/// replay has covered it, in which case it was among the stored ones.
pub proof fn law_nothing_is_lost(
    since: u64,
    rows: Seq<ReplayRow>,
    filter: HappeningFilter,
    steward: Seq<char>,
    envs: Seq<Envelope>,
    k: int,
)
    requires
        0 <= k < envs.len(),
        wanted(filter, envs[k].observed),
        envs[k].seq <= covered(since, rows) ==> exists|j: int|
            0 <= j < rows.len() && (#[trigger] rows[j]).seq == envs[k].seq && rows[j].decoded
                == Ok::<Observed, String>(envs[k].observed),
    ensures
        seen(since, rows, filter, steward, envs).contains(
            happening_frame(envs[k].seq, envs[k].observed.happening, steward),
        ),
{
    let boundary = covered(since, rows);
    let first = replayed(rows, filter, steward);
    let second = live_run(boundary, filter, steward, envs);
    let frame = happening_frame(envs[k].seq, envs[k].observed.happening, steward);
    let all = seen(since, rows, filter, steward, envs);
    if envs[k].seq <= boundary {
        let j = choose|j: int|
            0 <= j < rows.len() && (#[trigger] rows[j]).seq == envs[k].seq && rows[j].decoded
                == Ok::<Observed, String>(envs[k].observed);
        lemma_row_is_replayed(rows, filter, steward, j);
        let i = choose|i: int| 0 <= i < first.len() && first[i] == frame;
        assert(all[i] == frame);
    } else {
        lemma_env_is_delivered(boundary, filter, steward, envs, k);
        let i = choose|i: int| 0 <= i < second.len() && second[i] == frame;
        assert(all[first.len() + i] == frame);
    }
}

/// A stored happening after the cursor that the filter lets through is replayed.
pub proof fn law_stored_is_replayed(
    since: u64,
    rows: Seq<ReplayRow>,
    filter: HappeningFilter,
    steward: Seq<char>,
    envs: Seq<Envelope>,
    k: int,
)
    requires
        0 <= k < rows.len(),
        rows[k].decoded is Ok,
        wanted(filter, rows[k].decoded->Ok_0),
    ensures
        seen(since, rows, filter, steward, envs).contains(
            happening_frame(rows[k].seq, rows[k].decoded->Ok_0.happening, steward),
        ),
{
    lemma_row_is_replayed(rows, filter, steward, k);
    let first = replayed(rows, filter, steward);
    let frame = happening_frame(rows[k].seq, rows[k].decoded->Ok_0.happening, steward);
    let i = choose|i: int| 0 <= i < first.len() && first[i] == frame;
    assert(seen(since, rows, filter, steward, envs)[i] == frame);
}

/// In the live phase a subscriber sees only happenings that came from the bus
/// and that its filter lets through.
pub proof fn law_live_is_filtered(
    boundary: u64,
    filter: HappeningFilter,
    steward: Seq<char>,
    envs: Seq<Envelope>,
    i: int,
)
    requires
        0 <= i < live_run(boundary, filter, steward, envs).len(),
    ensures
        exists|k: int|
            0 <= k < envs.len() && wanted(filter, (#[trigger] envs[k]).observed) && live_run(
                boundary,
                filter,
                steward,
                envs,
            )[i] == happening_frame(envs[k].seq, envs[k].observed.happening, steward),
    decreases envs.len(),
{
    if envs.len() > 0 {
        let rest = envs.drop_last();
        let before = live_run(boundary, filter, steward, rest);
        if i < before.len() {
            law_live_is_filtered(boundary, filter, steward, rest, i);
            let k = choose|k: int|
                0 <= k < rest.len() && wanted(filter, (#[trigger] rest[k]).observed) && before[i]
                    == happening_frame(rest[k].seq, rest[k].observed.happening, steward);
            assert(envs[k] == rest[k]);
        } else {
            let k = envs.len() - 1;
            assert(envs[k] == envs.last());
            assert(live_run(boundary, filter, steward, envs)[i] == live_frames(
                boundary,
                filter,
                steward,
                envs.last(),
            )[i - before.len()]);
        }
    }
}

/// The frames of some turns, one after the other.
pub open spec fn written(turns: Seq<Turn>) -> Seq<ClientResponse>
    decreases turns.len(),
{
    if turns.len() == 0 {
        Seq::empty()
    } else {
        written(turns.drop_last()) + turns.last().frames@
    }
}

/// A subscription without coalescing that takes happenings from the bus one
/// after the other writes the frames of a live run.
pub proof fn law_live_turns(
    states: Seq<Subscription>,
    envs: Seq<Envelope>,
    turns: Seq<Turn>,
    boundary: u64,
    steward: Seq<char>,
)
    requires
        states.len() == envs.len() + 1,
        turns.len() == envs.len(),
        states[0].phase == (Phase::Live { boundary }),
        !states[0].coalescing,
        forall|i: int|
            0 <= i < envs.len() ==> (#[trigger] states[i]).takes(
                Event::Live(envs[i]),
                steward,
                states[i + 1],
                turns[i],
            ),
    ensures
        written(turns) == live_run(boundary, states[0].filter, steward, envs),
        states.last() == states[0],
    decreases envs.len(),
{
    if envs.len() > 0 {
        let n = envs.len() - 1;
        let earlier = states.drop_last();
        assert forall|i: int| 0 <= i < n implies (#[trigger] earlier[i]).takes(
            Event::Live(envs.drop_last()[i]),
            steward,
            earlier[i + 1],
            turns.drop_last()[i],
        ) by {
            assert(earlier[i] == states[i] && earlier[i + 1] == states[i + 1]);
        }
        law_live_turns(earlier, envs.drop_last(), turns.drop_last(), boundary, steward);
        assert(earlier.last() == states[n]);
        assert(states[n].takes(Event::Live(envs[n]), steward, states[n + 1], turns[n]));
        assert(turns.last() == turns[n] && envs.last() == envs[n]);
    }
}

}
