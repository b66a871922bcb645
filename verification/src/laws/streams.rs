//! Laws of the streams: what a producer emits reaches its consumers, each by its policy.

use crate::streams::{
    accepting, accepts, emitted, feeds, law_earliest_wins, law_emission_is_confined,
    law_fan_out, law_latest_wins, law_unsubscribe, lemma_view_wf, BackpressurePolicy,
    ConsumerEntry, ConsumerHandle, ConsumerRx, ConsumerSlot, EmitResult, FrameView, HubView,
    Received, SlotView, StreamCoordinator, StreamError, StreamFrame, StreamHandle, StreamId,
    StreamSpec,
};
use crate::text::debug_text;
use vstd::prelude::*;

verus! {

/// A stream id is its text, a copy of it is the same id, and a handle is for the id that
/// it was made of.
pub proof fn law_stream_ids_are_their_texts(
    text: &str,
    id: StreamId,
    copy: StreamId,
    shown: &str,
    handle: StreamHandle,
    of: &StreamId,
)
    requires
        call_ensures(StreamId::new, (text,), id),
        call_ensures(StreamId::duplicate, (&id,), copy),
        call_ensures(StreamId::as_str, (&id,), shown),
        call_ensures(StreamHandle::for_id, (id,), handle),
        call_ensures(StreamHandle::stream_id, (&handle,), of),
    ensures
        id.id@ == text@,
        copy.id@ == text@,
        shown@ == text@,
        of.id@ == text@,
{
}

/// Two specifications are the same if they agree in every part, and a policy is accepted
/// if it is listed.
pub proof fn law_specs_are_compared_part_by_part(
    a: StreamSpec,
    b: StreamSpec,
    same: bool,
    policy: BackpressurePolicy,
    accepted: bool,
)
    requires
        call_ensures(StreamSpec::same, (&a, &b), same),
        call_ensures(StreamSpec::accepts_policy, (&a, policy), accepted),
    ensures
        same ==> ({
            &&& a.schema@ == b.schema@
            &&& a.codecs@.len() == b.codecs@.len()
            &&& forall|i: int|
                0 <= i < a.codecs@.len() ==> (#[trigger] a.codecs@[i])@ == b.codecs@[i]@
            &&& a.max_rate_hz == b.max_rate_hz
            &&& a.typical_payload_bytes == b.typical_payload_bytes
            &&& a.backpressure_policies@ == b.backpressure_policies@
        }),
        a.schema@ == b.schema@ && a.codecs@ == b.codecs@ && a.max_rate_hz == b.max_rate_hz
            && a.typical_payload_bytes == b.typical_payload_bytes && a.backpressure_policies@
            == b.backpressure_policies@ ==> same,
        accepted <==> exists|i: int|
            0 <= i < a.backpressure_policies@.len() && #[trigger] a.backpressure_policies@[i]
                == policy,
{
    if same {
        let left = a@.codecs;
        let right = b@.codecs;
        assert(left == right);
        assert(left.len() == a.codecs@.len());
        assert(right.len() == b.codecs@.len());
        assert forall|i: int| 0 <= i < a.codecs@.len() implies (#[trigger] a.codecs@[i])@
            == b.codecs@[i]@ by {
            assert(left[i] == a.codecs@[i]@);
            assert(right[i] == b.codecs@[i]@);
        }
    }
    if a.schema@ == b.schema@ && a.codecs@ == b.codecs@ && a.backpressure_policies@
        == b.backpressure_policies@ {
        assert(a@.codecs =~= b@.codecs);
    }
    if exists|i: int|
        0 <= i < a.backpressure_policies@.len() && #[trigger] a.backpressure_policies@[i]
            == policy {
        assert(a@.backpressure_policies.contains(policy));
    }
}

/// A slot holds one frame. Where the oldest is dropped, a new frame takes its place; where
/// the newest is, it stays. A closed slot takes nothing.
pub proof fn law_slots_hold_one_frame(
    fresh: ConsumerSlot,
    slot: &mut ConsumerSlot,
    frame: StreamFrame,
    was_empty: bool,
    other: &mut ConsumerSlot,
    taken: bool,
)
    requires
        call_ensures(ConsumerSlot::new, (), fresh),
        call_ensures(ConsumerSlot::put_drop_oldest, (slot, frame), was_empty),
        call_ensures(ConsumerSlot::put_drop_newest, (other, frame), taken),
    ensures
        fresh@.frame is None,
        !fresh@.closed,
        was_empty <==> !old(slot)@.closed && old(slot)@.frame is None,
        !old(slot)@.closed ==> final(slot)@.frame == Some(frame@) && !final(slot)@.closed,
        old(slot)@.closed ==> final(slot)@ == old(slot)@,
        taken <==> !old(other)@.closed && old(other)@.frame is None,
        taken ==> final(other)@.frame == Some(frame@) && !final(other)@.closed,
        !taken ==> final(other)@ == old(other)@,
{
}

/// A frame is taken out of its slot once, also after the slot was closed; an empty slot
/// says whether a frame may still come.
pub proof fn law_slots_are_drained(
    slot: &mut ConsumerSlot,
    received: Received,
    other: &mut ConsumerSlot,
    taken: Option<StreamFrame>,
    closing: &mut ConsumerSlot,
)
    requires
        call_ensures(ConsumerSlot::take, (slot,), received),
        call_ensures(ConsumerSlot::try_take, (other,), taken),
        call_ensures(ConsumerSlot::close, (closing,), ()),
    ensures
        received is Frame <==> old(slot)@.frame is Some,
        received is Frame ==> old(slot)@.frame == Some(received->Frame_0@),
        received is Closed ==> old(slot)@.closed,
        received is Pending ==> !old(slot)@.closed,
        final(slot)@.frame is None,
        final(slot)@.closed == old(slot)@.closed,
        taken is Some <==> old(other)@.frame is Some,
        taken is Some ==> old(other)@.frame == Some(taken->Some_0@),
        final(other)@.frame is None,
        final(other)@.closed == old(other)@.closed,
        final(closing)@.closed,
        final(closing)@.frame == old(closing)@.frame,
{
}

/// A hub begins without streams and receivers.
pub proof fn law_hubs_begin_empty(hub: StreamCoordinator, default: StreamCoordinator)
    requires
        call_ensures(StreamCoordinator::new, (), hub),
        call_ensures(<StreamCoordinator as Default>::default, (), default),
    ensures
        forall|id: Seq<char>| !#[trigger] hub@.streams.contains_key(id),
        forall|k: u64| !#[trigger] hub@.slots.contains_key(k),
        forall|id: Seq<char>| !#[trigger] default@.streams.contains_key(id),
        forall|k: u64| !#[trigger] default@.slots.contains_key(k),
{
}

/// The streams other than this one are the same in both hubs.
pub open spec fn others_stay(before: HubView, after: HubView, id: Seq<char>) -> bool {
    forall|other: Seq<char>|
        other != id ==> (#[trigger] after.streams.contains_key(other)
            <==> before.streams.contains_key(other)) && (before.streams.contains_key(other)
            ==> after.streams[other] == before.streams[other])
}

/// Opening a stream makes it known under its id, with nobody subscribed. An open stream is
/// opened again by the same specification only, and nothing changes by that.
pub proof fn law_streams_are_opened_once(
    hub: &mut StreamCoordinator,
    id: StreamId,
    spec: StreamSpec,
    r: Result<StreamHandle, StreamError>,
)
    requires
        old(hub).wf(),
        call_ensures(StreamCoordinator::open, (hub, id, spec), r),
    ensures
        r is Ok ==> r->Ok_0@ == id.id@,
        !old(hub)@.streams.contains_key(id.id@) ==> ({
            &&& r is Ok
            &&& final(hub)@.streams.contains_key(id.id@)
            &&& final(hub)@.streams[id.id@].spec == spec@
            &&& final(hub)@.streams[id.id@].consumers.len() == 0
            &&& others_stay(old(hub)@, final(hub)@, id.id@)
            &&& final(hub)@.slots == old(hub)@.slots
        }),
        old(hub)@.streams.contains_key(id.id@) ==> ({
            &&& final(hub)@ == old(hub)@
            &&& r is Ok <==> old(hub)@.streams[id.id@].spec == spec@
            &&& r is Err ==> r->Err_0 is Invalid && r->Err_0->Invalid_0@ == "stream "@ + id.id@
                + " already open with different spec; existing schema="@ + debug_text(
                old(hub)@.streams[id.id@].spec.schema,
            ) + ", requested schema="@ + debug_text(spec.schema@)
        }),
{
}

/// The consumer of the stream that receives in slot `k`.
pub open spec fn receives_in(hub: HubView, id: Seq<char>, k: u64) -> bool {
    hub.streams.contains_key(id) && exists|a: int|
        0 <= a < hub.streams[id].consumers.len() && (
        #[trigger] hub.streams[id].consumers[a]).consumer_id == k
}

/// Closing a stream makes it unknown and closes the slots of its consumers, with the frames
/// that are still in them; every other stream and slot stays as it is. A stream that is not
/// open cannot be closed.
pub proof fn law_streams_are_closed(
    hub: &mut StreamCoordinator,
    handle: StreamHandle,
    r: Result<(), StreamError>,
    k: u64,
)
    requires
        old(hub).wf(),
        call_ensures(StreamCoordinator::close, (hub, &handle), r),
    ensures
        r is Ok <==> old(hub)@.streams.contains_key(handle@),
        r is Ok ==> ({
            &&& !final(hub)@.streams.contains_key(handle@)
            &&& others_stay(old(hub)@, final(hub)@, handle@)
            &&& final(hub)@.slots.contains_key(k) <==> old(hub)@.slots.contains_key(k)
            &&& old(hub)@.slots.contains_key(k) ==> final(hub)@.slots[k].frame
                == old(hub)@.slots[k].frame
            &&& old(hub)@.slots.contains_key(k) && receives_in(old(hub)@, handle@, k)
                ==> final(hub)@.slots[k].closed
            &&& old(hub)@.slots.contains_key(k) && !receives_in(old(hub)@, handle@, k)
                ==> final(hub)@.slots[k].closed == old(hub)@.slots[k].closed
        }),
        r is Err ==> r->Err_0 is Closed && r->Err_0->Closed_0@ == handle@ && final(hub)@
            == old(hub)@,
{
    let id = handle@;
    if r is Ok && old(hub)@.slots.contains_key(k) {
        let consumers = old(hub)@.streams[id].consumers;
        assert(receives_in(old(hub)@, id, k) == feeds(consumers, consumers.len() as int, k));
    }
}

/// The frame that a consumer is offered: the producer's, with the consumer's own number.
pub open spec fn offered(
    c: ConsumerEntry,
    produced_at_ns: u64,
    codec: Seq<char>,
    payload: Seq<u8>,
    f: FrameView,
) -> bool {
    &&& f.seq == c.next_seq
    &&& f.produced_at_ns == produced_at_ns
    &&& f.codec == codec
    &&& f.payload == payload
}

/// An emitted frame reaches every consumer of the stream by its policy: where the oldest is
/// dropped, the frame is there afterwards; where the newest is, it is there if the slot was
/// empty, and the pending frame is if it was not. Each consumer's number goes up by one
/// whether or not the frame was taken, and slots of others are not touched.
pub proof fn law_frames_reach_the_consumers(
    hub: &mut StreamCoordinator,
    handle: StreamHandle,
    produced_at_ns: u64,
    codec: String,
    payload: Vec<u8>,
    r: Result<EmitResult, StreamError>,
    a: int,
    k: u64,
)
    requires
        old(hub).wf(),
        old(hub)@.streams.contains_key(handle@) ==> old(hub)@.streams[handle@].consumers.len()
            <= u32::MAX,
        call_ensures(
            StreamCoordinator::emit,
            (hub, &handle, produced_at_ns, codec, payload),
            r,
        ),
    ensures
        r is Ok <==> old(hub)@.streams.contains_key(handle@),
        r is Err ==> r->Err_0 is Closed && r->Err_0->Closed_0@ == handle@ && final(hub)@
            == old(hub)@,
        r is Ok ==> ({
            &&& final(hub)@.streams.contains_key(handle@)
            &&& final(hub)@.streams[handle@].spec == old(hub)@.streams[handle@].spec
            &&& final(hub)@.streams[handle@].consumers.len()
                == old(hub)@.streams[handle@].consumers.len()
            &&& others_stay(old(hub)@, final(hub)@, handle@)
        }),
        r is Ok && 0 <= a < old(hub)@.streams[handle@].consumers.len() ==> ({
            let c = old(hub)@.streams[handle@].consumers[a];
            let d = final(hub)@.streams[handle@].consumers[a];
            let before = old(hub)@.slots[c.consumer_id];
            let after = final(hub)@.slots[c.consumer_id];
            &&& d.consumer_id == c.consumer_id
            &&& d.policy == c.policy
            &&& c.next_seq < u64::MAX ==> d.next_seq == c.next_seq + 1
            &&& c.next_seq == u64::MAX ==> d.next_seq == 0
            &&& final(hub)@.slots.contains_key(c.consumer_id)
            &&& !after.closed
            &&& c.policy == BackpressurePolicy::DropOldest || before.frame is None
                ==> after.frame is Some && offered(
                c,
                produced_at_ns,
                codec@,
                payload@,
                after.frame->Some_0,
            )
            &&& c.policy == BackpressurePolicy::DropNewest && before.frame is Some
                ==> after.frame == before.frame
        }),
        r is Ok && !receives_in(old(hub)@, handle@, k) ==> ({
            &&& final(hub)@.slots.contains_key(k) <==> old(hub)@.slots.contains_key(k)
            &&& old(hub)@.slots.contains_key(k) ==> final(hub)@.slots[k] == old(hub)@.slots[k]
        }),
{
    let before = old(hub)@;
    let id = handle@;
    lemma_view_wf(&*old(hub));
    lemma_view_wf(&*final(hub));
    if r is Ok {
        let after = emitted(before, id, produced_at_ns, codec@, payload@);
        assert(final(hub)@ == after);
        if 0 <= a < before.streams[id].consumers.len() {
            let c = before.streams[id].consumers[a];
            assert(before.subscribed(id, a));
            assert(after.subscribed(id, a));
            if before.slots[c.consumer_id].frame is None {
                law_fan_out(before, id, a, produced_at_ns, codec@, payload@);
            } else if c.policy == BackpressurePolicy::DropOldest {
                law_latest_wins(before, id, a, produced_at_ns, codec@, payload@);
            } else if c.policy == BackpressurePolicy::DropNewest {
                law_earliest_wins(before, id, a, produced_at_ns, codec@, payload@);
            }
        }
        if !receives_in(before, id, k) && before.slots.contains_key(k) {
            assert forall|b: int| #[trigger] before.subscribed(id, b) implies before.slot_of(id, b)
                != k by {
                assert(before.streams[id].consumers[b].consumer_id == before.slot_of(id, b));
            }
            law_emission_is_confined(before, id, k, produced_at_ns, codec@, payload@);
        }
    }
}

/// How many of the consumers take a frame: those that drop the oldest, and those whose slot
/// is open and empty.
pub open spec fn takers(slots: Map<u64, SlotView>, consumers: Seq<ConsumerEntry>) -> nat
    decreases consumers.len(),
{
    if consumers.len() == 0 {
        0
    } else {
        let c = consumers.last();
        let slot = slots[c.consumer_id];
        takers(slots, consumers.drop_last()) + (if c.policy == BackpressurePolicy::DropOldest || (
        !slot.closed && slot.frame is None) {
            1nat
        } else {
            0nat
        })
    }
}

proof fn lemma_takers(slots: Map<u64, SlotView>, consumers: Seq<ConsumerEntry>)
    ensures
        takers(slots, consumers) == accepting(slots, consumers),
        takers(slots, consumers) <= consumers.len(),
    decreases consumers.len(),
{
    let wants = |c: ConsumerEntry| accepts(c.policy, slots[c.consumer_id]);
    if consumers.len() > 0 {
        let init = consumers.drop_last();
        lemma_takers(slots, init);
        assert(consumers =~= init.push(consumers.last()));
        init.lemma_filter_push(consumers.last(), wants);
    } else {
        assert(consumers.filter(wants) =~= Seq::empty());
    }
}

/// A producer is told how an emission went: that there was nobody, how many took the frame
/// if any did, and how many dropped it if none did.
pub proof fn law_producers_are_told_how_it_went(
    hub: &mut StreamCoordinator,
    handle: StreamHandle,
    produced_at_ns: u64,
    codec: String,
    payload: Vec<u8>,
    r: EmitResult,
)
    requires
        old(hub).wf(),
        old(hub)@.streams.contains_key(handle@) ==> old(hub)@.streams[handle@].consumers.len()
            <= u32::MAX,
        call_ensures(
            StreamCoordinator::emit,
            (hub, &handle, produced_at_ns, codec, payload),
            Ok(r),
        ),
    ensures
        ({
            let consumers = old(hub)@.streams[handle@].consumers;
            let n = takers(old(hub)@.slots, consumers);
            &&& consumers.len() == 0 <==> r is NoConsumers
            &&& consumers.len() > 0 && n > 0 <==> r is Queued
            &&& r is Queued ==> r->Queued_consumer_count == n
            &&& r is Dropped ==> r->Dropped_consumer_count == consumers.len()
        }),
{
    lemma_takers(old(hub)@.slots, old(hub)@.streams[handle@].consumers);
}

/// A consumer joins an open stream under a policy that the stream accepts, with an empty
/// slot of its own and its numbers from zero on. Blocking is accepted nowhere.
pub proof fn law_consumers_join_under_an_accepted_policy(
    hub: &mut StreamCoordinator,
    id: StreamId,
    policy: BackpressurePolicy,
    r: Result<ConsumerRx, StreamError>,
)
    requires
        old(hub).wf(),
        old(hub)@.next_consumer_id < u64::MAX,
        call_ensures(StreamCoordinator::subscribe, (hub, &id, policy), r),
    ensures
        r is Ok <==> ({
            &&& policy != BackpressurePolicy::Block
            &&& old(hub)@.streams.contains_key(id.id@)
            &&& exists|i: int|
                0 <= i < old(hub)@.streams[id.id@].spec.backpressure_policies.len()
                    && #[trigger] old(hub)@.streams[id.id@].spec.backpressure_policies[i] == policy
        }),
        r is Ok ==> ({
            let k = r->Ok_0.handle.consumer_id;
            let consumers = old(hub)@.streams[id.id@].consumers;
            &&& r->Ok_0.handle.stream_id.id@ == id.id@
            &&& !old(hub)@.slots.contains_key(k)
            &&& final(hub)@.slots.contains_key(k)
            &&& final(hub)@.slots[k].frame is None
            &&& !final(hub)@.slots[k].closed
            &&& forall|j: u64|
                j != k ==> (#[trigger] final(hub)@.slots.contains_key(j)
                    <==> old(hub)@.slots.contains_key(j))
            &&& forall|j: u64|
                j != k && old(hub)@.slots.contains_key(j) ==> #[trigger] final(hub)@.slots[j]
                    == old(hub)@.slots[j]
            &&& final(hub)@.streams.contains_key(id.id@)
            &&& final(hub)@.streams[id.id@].spec == old(hub)@.streams[id.id@].spec
            &&& final(hub)@.streams[id.id@].consumers.len() == consumers.len() + 1
            &&& forall|a: int|
                0 <= a < consumers.len() ==> #[trigger] final(hub)@.streams[id.id@].consumers[a]
                    == consumers[a]
            &&& final(hub)@.streams[id.id@].consumers.last().consumer_id == k
            &&& final(hub)@.streams[id.id@].consumers.last().policy == policy
            &&& final(hub)@.streams[id.id@].consumers.last().next_seq == 0
            &&& others_stay(old(hub)@, final(hub)@, id.id@)
        }),
        r is Err ==> final(hub)@.streams == old(hub)@.streams && final(hub)@.slots
            == old(hub)@.slots,
        policy == BackpressurePolicy::Block ==> r->Err_0 is UnsupportedBackpressure
            && r->Err_0->accepted@ == seq![
            BackpressurePolicy::DropOldest,
            BackpressurePolicy::DropNewest,
        ],
        policy != BackpressurePolicy::Block && !old(hub)@.streams.contains_key(id.id@)
            ==> r->Err_0 is Closed && r->Err_0->Closed_0@ == id.id@,
        r is Err && r->Err_0 is UnsupportedBackpressure ==> ({
            &&& r->Err_0->stream_id@ == id.id@
            &&& r->Err_0->policy == policy
            &&& policy != BackpressurePolicy::Block ==> r->Err_0->accepted@
                == old(hub)@.streams[id.id@].spec.backpressure_policies
        }),
{
    lemma_view_wf(&*old(hub));
    let before = old(hub)@;
    if before.streams.contains_key(id.id@) {
        let list = before.streams[id.id@].spec.backpressure_policies;
        if list.contains(policy) {
            let i = choose|i: int| 0 <= i < list.len() && list[i] == policy;
            assert(list[i] == policy);
        }
    }
    if r is Ok {
        assert(!before.slots.contains_key(before.next_consumer_id));
    }
}

/// A consumer that leaves is not among the consumers of its stream any more; the others
/// stay, and so do all slots.
pub proof fn law_consumers_leave(
    hub: &mut StreamCoordinator,
    handle: ConsumerHandle,
    c: ConsumerEntry,
)
    requires
        old(hub).wf(),
        call_ensures(StreamCoordinator::unsubscribe, (hub, &handle), ()),
    ensures
        final(hub)@.slots == old(hub)@.slots,
        others_stay(old(hub)@, final(hub)@, handle.stream_id.id@),
        old(hub)@.streams.contains_key(handle.stream_id.id@) ==> ({
            let id = handle.stream_id.id@;
            &&& final(hub)@.streams.contains_key(id)
            &&& final(hub)@.streams[id].spec == old(hub)@.streams[id].spec
            &&& final(hub)@.streams[id].consumers.contains(c) <==> old(
                hub,
            )@.streams[id].consumers.contains(c) && c.consumer_id != handle.consumer_id
        }),
        !old(hub)@.streams.contains_key(handle.stream_id.id@) ==> final(hub)@ == old(hub)@,
{
    let id = handle.stream_id.id@;
    if old(hub)@.streams.contains_key(id) {
        let all = old(hub)@.streams[id].consumers;
        lemma_kept(all, handle.consumer_id, c);
    }
}

/// A consumer that leaves makes the stream's count less by one.
pub proof fn law_leaving_makes_one_less(
    hub: &mut StreamCoordinator,
    handle: ConsumerHandle,
    a: int,
)
    requires
        old(hub).wf(),
        call_ensures(StreamCoordinator::unsubscribe, (hub, &handle), ()),
        old(hub)@.streams.contains_key(handle.stream_id.id@),
        0 <= a < old(hub)@.streams[handle.stream_id.id@].consumers.len(),
        old(hub)@.streams[handle.stream_id.id@].consumers[a].consumer_id == handle.consumer_id,
    ensures
        final(hub)@.streams[handle.stream_id.id@].consumers.len() == old(
            hub,
        )@.streams[handle.stream_id.id@].consumers.len() - 1,
{
    lemma_view_wf(&*old(hub));
    assert(old(hub)@.subscribed(handle.stream_id.id@, a));
    law_unsubscribe(old(hub)@, handle.stream_id.id@, a);
}

/// The count of a stream's consumers is that of its subscriptions, and zero where the
/// stream is not open.
pub proof fn law_consumers_are_counted(hub: StreamCoordinator, id: StreamId, n: usize)
    requires
        hub.wf(),
        call_ensures(StreamCoordinator::consumer_count, (&hub, &id), n),
    ensures
        hub@.streams.contains_key(id.id@) ==> n == hub@.streams[id.id@].consumers.len(),
        !hub@.streams.contains_key(id.id@) ==> n == 0,
{
}

/// A receiver takes the frame out of its own slot and touches nothing else. It is told that
/// a frame may still come while its slot is open, and that none will once it is closed.
pub proof fn law_receivers_drain_their_slots(
    rx: &mut ConsumerRx,
    hub: &mut StreamCoordinator,
    r: Received,
    other: u64,
)
    requires
        old(hub).wf(),
        call_ensures(ConsumerRx::recv, (rx, hub), r),
    ensures
        *final(rx) == *old(rx),
        final(hub)@.streams == old(hub)@.streams,
        final(hub)@.slots.contains_key(other) <==> old(hub)@.slots.contains_key(other),
        old(hub)@.slots.contains_key(other) && other != old(rx).handle.consumer_id
            ==> final(hub)@.slots[other] == old(hub)@.slots[other],
        old(hub)@.slots.contains_key(old(rx).handle.consumer_id) ==> ({
            let before = old(hub)@.slots[old(rx).handle.consumer_id];
            let after = final(hub)@.slots[old(rx).handle.consumer_id];
            &&& after.frame is None
            &&& after.closed == before.closed
            &&& before.frame is Some ==> r is Frame && before.frame == Some(r->Frame_0@)
            &&& before.frame is None && before.closed ==> r is Closed
            &&& before.frame is None && !before.closed ==> r is Pending
        }),
        !old(hub)@.slots.contains_key(old(rx).handle.consumer_id) ==> r is Closed,
{
}

/// A receiver that does not wait takes what is there.
pub proof fn law_receivers_take_what_is_there(
    rx: &mut ConsumerRx,
    hub: &mut StreamCoordinator,
    r: Option<StreamFrame>,
    other: u64,
)
    requires
        old(hub).wf(),
        call_ensures(ConsumerRx::try_recv, (rx, hub), r),
    ensures
        *final(rx) == *old(rx),
        final(hub)@.streams == old(hub)@.streams,
        final(hub)@.slots.contains_key(other) <==> old(hub)@.slots.contains_key(other),
        old(hub)@.slots.contains_key(other) && other != old(rx).handle.consumer_id
            ==> final(hub)@.slots[other] == old(hub)@.slots[other],
        old(hub)@.slots.contains_key(old(rx).handle.consumer_id) ==> ({
            let before = old(hub)@.slots[old(rx).handle.consumer_id];
            let after = final(hub)@.slots[old(rx).handle.consumer_id];
            &&& after.frame is None
            &&& after.closed == before.closed
            &&& before.frame is Some ==> r is Some && before.frame == Some(r->Some_0@)
            &&& before.frame is None ==> r is None
        }),
        !old(hub)@.slots.contains_key(old(rx).handle.consumer_id) ==> r is None,
{
}

/// A receiver that goes away takes its slot with it, unless a subscription still feeds it;
/// its handle is the one that it got.
pub proof fn law_receivers_go_away(
    rx: ConsumerRx,
    hub: &mut StreamCoordinator,
    shown: &ConsumerHandle,
    other: u64,
)
    requires
        old(hub).wf(),
        call_ensures(ConsumerRx::release, (rx, hub), ()),
        call_ensures(ConsumerRx::handle, (&rx,), shown),
    ensures
        *shown == rx.handle,
        final(hub)@.streams == old(hub)@.streams,
        other != rx.handle.consumer_id ==> (final(hub)@.slots.contains_key(other)
            <==> old(hub)@.slots.contains_key(other)),
        other != rx.handle.consumer_id && old(hub)@.slots.contains_key(other)
            ==> final(hub)@.slots[other] == old(hub)@.slots[other],
        (forall|id: Seq<char>| !#[trigger] receives_in(old(hub)@, id, rx.handle.consumer_id))
            ==> !final(hub)@.slots.contains_key(rx.handle.consumer_id),
        (exists|id: Seq<char>| #[trigger] receives_in(old(hub)@, id, rx.handle.consumer_id))
            ==> final(hub)@ == old(hub)@,
{
    let k = rx.handle.consumer_id;
    let before = old(hub)@;
    if exists|id: Seq<char>| #[trigger] receives_in(before, id, k) {
        let id = choose|id: Seq<char>| #[trigger] receives_in(before, id, k);
        let a = choose|a: int|
            0 <= a < before.streams[id].consumers.len() && (
            #[trigger] before.streams[id].consumers[a]).consumer_id == k;
        assert(before.subscribed(id, a) && before.slot_of(id, a) == k);
    }
    if crate::streams::is_fed(before, k) {
        let (id, a) = choose|id: Seq<char>, a: int| #[trigger]
            before.subscribed(id, a) && before.slot_of(id, a) == k;
        assert(before.streams[id].consumers[a].consumer_id == k);
        assert(receives_in(before, id, k));
    }
}

proof fn lemma_kept(all: Seq<ConsumerEntry>, k: u64, c: ConsumerEntry)
    ensures
        all.filter(|e: ConsumerEntry| e.consumer_id != k).contains(c) <==> all.contains(c)
            && c.consumer_id != k,
    decreases all.len(),
{
    let keep = |e: ConsumerEntry| e.consumer_id != k;
    let kept = all.filter(keep);
    if all.len() > 0 {
        let init = all.drop_last();
        let last = all.last();
        lemma_kept(init, k, c);
        assert(all =~= init.push(last));
        init.lemma_filter_push(last, keep);
        let before = init.filter(keep);
        if before.contains(c) {
            let i = choose|i: int| 0 <= i < before.len() && before[i] == c;
            assert(kept[i] == c);
        }
        if init.contains(c) {
            let i = choose|i: int| 0 <= i < init.len() && init[i] == c;
            assert(all[i] == c);
        }
        assert(all[all.len() - 1] == last);
        if last.consumer_id != k {
            assert(kept == before.push(last));
            assert(kept[before.len() as int] == last);
        }
        if kept.contains(c) && !before.contains(c) {
            let i = choose|i: int| 0 <= i < kept.len() && kept[i] == c;
            if i < before.len() {
                assert(before[i] == c);
            }
            assert(c == last);
        }
        if all.contains(c) && !init.contains(c) {
            let i = choose|i: int| 0 <= i < all.len() && all[i] == c;
            if i < init.len() {
                assert(init[i] == c);
            }
            assert(c == last);
        }
    } else {
        assert(kept =~= Seq::empty());
    }
}

}
