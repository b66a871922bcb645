//! In-memory fan-out of stream frames.
//!
//! A producer opens a stream under an id and emits frames against the handle
//! that it got; consumers subscribe and take frames. Each consumer has a slot
//! that holds at most one frame, and its backpressure policy says what happens
//! to a frame that finds the slot full: `DropOldest` overwrites (latest wins),
//! `DropNewest` rejects (earliest wins). `Block` is refused at subscription.
//!
//! Sequence numbers are per consumer. Closing a stream closes the slots of its
//! consumers; a frame that is still pending can be drained afterwards.

use crate::text::{debug_text, quoted};
use std::collections::HashMap;
use vstd::prelude::*;
use vstd::string::*;

verus! {

broadcast use vstd::std_specs::hash::group_hash_axioms;

/// What happens to a frame that finds a consumer's slot full.
#[derive(Debug, Clone, Copy, PartialEq, Eq, Structural)]
pub enum BackpressurePolicy {
    DropOldest,
    DropNewest,
    Block,
}

/// The name of a stream.
#[derive(Debug)]
pub struct StreamId {
    pub id: String,
}

impl View for StreamId {
    type V = Seq<char>;

    open spec fn view(&self) -> Seq<char> {
        self.id@
    }
}

impl StreamId {
    /// The stream id with this text.
    pub fn new(id: &str) -> (r: StreamId)
        ensures
            r@ == id@,
    {
        StreamId { id: id.to_owned() }
    }

    /// A copy of this id.
    pub fn duplicate(&self) -> (r: StreamId)
        ensures
            r == *self,
    {
        StreamId { id: self.id.clone() }
    }

    /// The id's text.
    pub fn as_str(&self) -> (r: &str)
        ensures
            r@ == self@,
    {
        self.id.as_str()
    }
}

/// What a producer declares of its stream.
#[derive(Debug)]
pub struct StreamSpec {
    pub schema: String,
    pub codecs: Vec<String>,
    pub max_rate_hz: u32,
    pub typical_payload_bytes: u32,
    pub backpressure_policies: Vec<BackpressurePolicy>,
}

/// The contents of a [`StreamSpec`].
pub struct StreamSpecView {
    pub schema: Seq<char>,
    pub codecs: Seq<Seq<char>>,
    pub max_rate_hz: u32,
    pub typical_payload_bytes: u32,
    pub backpressure_policies: Seq<BackpressurePolicy>,
}

impl View for StreamSpec {
    type V = StreamSpecView;

    open spec fn view(&self) -> StreamSpecView {
        StreamSpecView {
            schema: self.schema@,
            codecs: self.codecs@.map_values(|c: String| c@),
            max_rate_hz: self.max_rate_hz,
            typical_payload_bytes: self.typical_payload_bytes,
            backpressure_policies: self.backpressure_policies@,
        }
    }
}

/// One frame of a stream as one consumer receives it.
#[derive(Debug)]
pub struct StreamFrame {
    pub seq: u64,
    pub produced_at_ns: u64,
    pub codec: String,
    pub payload: Vec<u8>,
}

/// The contents of a [`StreamFrame`].
pub struct FrameView {
    pub seq: u64,
    pub produced_at_ns: u64,
    pub codec: Seq<char>,
    pub payload: Seq<u8>,
}

impl View for StreamFrame {
    type V = FrameView;

    open spec fn view(&self) -> FrameView {
        FrameView {
            seq: self.seq,
            produced_at_ns: self.produced_at_ns,
            codec: self.codec@,
            payload: self.payload@,
        }
    }
}

/// What became of one emitted frame over all consumers of the stream.
#[derive(Debug, Clone, Copy, PartialEq, Eq, Structural)]
pub enum EmitResult {
    /// Nobody is subscribed.
    NoConsumers,
    /// At least one consumer accepted the frame.
    Queued { consumer_count: u32 },
    /// Every consumer rejected the frame.
    Dropped { consumer_count: u32 },
}

/// Why a stream operation was refused.
#[derive(Debug)]
pub enum StreamError {
    /// The stream is not open.
    Closed(String),
    /// The request contradicts the stream that is open.
    Invalid(String),
    /// The policy is not one that the stream accepts.
    UnsupportedBackpressure {
        stream_id: String,
        policy: BackpressurePolicy,
        accepted: Vec<BackpressurePolicy>,
    },
}

/// One consumer's single-frame slot.
#[derive(Debug)]
pub struct ConsumerSlot {
    frame: Option<StreamFrame>,
    closed: bool,
}

/// The contents of a [`ConsumerSlot`].
pub struct SlotView {
    pub frame: Option<FrameView>,
    pub closed: bool,
}

impl View for ConsumerSlot {
    type V = SlotView;

    closed spec fn view(&self) -> SlotView {
        SlotView {
            frame: match self.frame {
                Some(f) => Some(f@),
                None => None,
            },
            closed: self.closed,
        }
    }
}

/// What a receive finds in a slot.
#[derive(Debug)]
pub enum Received {
    /// A frame was waiting.
    Frame(StreamFrame),
    /// The slot is empty and still open: a frame may follow.
    Pending,
    /// The slot is empty and closed: no frame will follow.
    Closed,
}

impl ConsumerSlot {
    /// An empty, open slot.
    pub fn new() -> (r: ConsumerSlot)
        ensures
            r@ == (SlotView { frame: None, closed: false }),
    {
        ConsumerSlot { frame: None, closed: false }
    }

    /// Overwrites the slot, unless it is closed. Returns whether the slot was
    /// open and empty.
    pub fn put_drop_oldest(&mut self, frame: StreamFrame) -> (r: bool)
        ensures
            r == (!old(self)@.closed && old(self)@.frame is None),
            final(self)@ == slot_after(BackpressurePolicy::DropOldest, old(self)@, frame@),
    {
        if self.closed {
            return false;
        }
        let was_empty = self.frame.is_none();
        self.frame = Some(frame);
        was_empty
    }

    /// Fills the slot if it is open and empty; returns whether it was.
    pub fn put_drop_newest(&mut self, frame: StreamFrame) -> (r: bool)
        ensures
            r == accepts(BackpressurePolicy::DropNewest, old(self)@),
            final(self)@ == slot_after(BackpressurePolicy::DropNewest, old(self)@, frame@),
    {
        if self.closed || self.frame.is_some() {
            return false;
        }
        self.frame = Some(frame);
        true
    }

    /// Marks the slot closed. A pending frame stays to be drained.
    pub fn close(&mut self)
        ensures
            final(self)@ == (SlotView { frame: old(self)@.frame, closed: true }),
    {
        self.closed = true;
    }

    /// Takes the pending frame, or says whether one may still come.
    pub fn take(&mut self) -> (r: Received)
        ensures
            match r {
                Received::Frame(f) => old(self)@.frame == Some(f@),
                Received::Pending => old(self)@.frame is None && !old(self)@.closed,
                Received::Closed => old(self)@.frame is None && old(self)@.closed,
            },
            final(self)@ == (SlotView { frame: None, closed: old(self)@.closed }),
    {
        match self.frame.take() {
            Some(frame) => Received::Frame(frame),
            None => if self.closed {
                Received::Closed
            } else {
                Received::Pending
            },
        }
    }

    /// Takes the pending frame if there is one.
    pub fn try_take(&mut self) -> (r: Option<StreamFrame>)
        ensures
            match r {
                Some(f) => old(self)@.frame == Some(f@),
                None => old(self)@.frame is None,
            },
            final(self)@ == (SlotView { frame: None, closed: old(self)@.closed }),
    {
        self.frame.take()
    }
}

/// Whether a slot takes a frame under `policy`.
pub open spec fn accepts(policy: BackpressurePolicy, slot: SlotView) -> bool {
    match policy {
        BackpressurePolicy::DropOldest => true,
        _ => !slot.closed && slot.frame is None,
    }
}

/// A slot after a frame was offered to it under `policy`.
pub open spec fn slot_after(
    policy: BackpressurePolicy,
    slot: SlotView,
    frame: FrameView,
) -> SlotView {
    if slot.closed || (policy != BackpressurePolicy::DropOldest && slot.frame is Some) {
        slot
    } else {
        SlotView { frame: Some(frame), closed: false }
    }
}

/// One subscription: which slot it feeds, how, and the sequence number that
/// its next frame gets.
#[derive(Debug, Clone, Copy, PartialEq, Eq, Structural)]
pub struct ConsumerEntry {
    pub consumer_id: u64,
    pub policy: BackpressurePolicy,
    pub next_seq: u64,
}

#[derive(Debug)]
struct StreamRegistration {
    stream_id: StreamId,
    spec: StreamSpec,
    consumers: Vec<ConsumerEntry>,
}

/// An open stream: what its producer declared, and who is subscribed.
pub struct StreamView {
    pub spec: StreamSpecView,
    pub consumers: Seq<ConsumerEntry>,
}

impl StreamRegistration {
    spec fn summary(self) -> StreamView {
        StreamView { spec: self.spec@, consumers: self.consumers@ }
    }
}

/// Handle of an open stream, which its producer passes to `emit` and `close`.
#[derive(Debug)]
pub struct StreamHandle {
    stream_id: StreamId,
}

impl View for StreamHandle {
    type V = Seq<char>;

    closed spec fn view(&self) -> Seq<char> {
        self.stream_id@
    }
}

impl StreamHandle {
    /// The id of the stream.
    pub fn stream_id(&self) -> (r: &StreamId)
        ensures
            r@ == self@,
    {
        &self.stream_id
    }

    /// A handle for an id that need not be open: operations on it report
    /// [`StreamError::Closed`] unless it is.
    pub fn for_id(stream_id: StreamId) -> (r: StreamHandle)
        ensures
            r@ == stream_id@,
    {
        StreamHandle { stream_id }
    }
}

/// Handle of one subscription.
#[derive(Debug)]
pub struct ConsumerHandle {
    pub stream_id: StreamId,
    pub consumer_id: u64,
}

/// The receiving end of one subscription.
#[derive(Debug)]
pub struct ConsumerRx {
    pub handle: ConsumerHandle,
}

/// The hub: the open streams with their subscriptions, and the slots of all
/// receivers.
#[derive(Debug)]
pub struct StreamCoordinator {
    streams: Vec<StreamRegistration>,
    slots: HashMap<u64, ConsumerSlot>,
    next_consumer_id: u64,
}

/// The contents of a [`StreamCoordinator`].
pub struct HubView {
    pub streams: Map<Seq<char>, StreamView>,
    pub slots: Map<u64, SlotView>,
    pub next_consumer_id: u64,
}

impl HubView {
    /// Position `a` of stream `id` holds a subscription.
    pub open spec fn subscribed(self, id: Seq<char>, a: int) -> bool {
        self.streams.contains_key(id) && 0 <= a < self.streams[id].consumers.len()
    }

    /// The slot number of the subscription at position `a` of stream `id`.
    pub open spec fn slot_of(self, id: Seq<char>, a: int) -> u64 {
        self.streams[id].consumers[a].consumer_id
    }

    /// Every subscription feeds an open slot of its own, and slot numbers have
    /// all been handed out.
    pub open spec fn wf(self) -> bool {
        &&& forall|id: Seq<char>, a: int| #[trigger]
            self.subscribed(id, a) ==> self.slots.contains_key(self.slot_of(id, a))
                && !self.slots[self.slot_of(id, a)].closed
        &&& forall|id: Seq<char>, a: int, other: Seq<char>, b: int|
            (#[trigger] self.subscribed(id, a) && #[trigger] self.subscribed(other, b)
                && self.slot_of(id, a) == self.slot_of(other, b)) ==> id == other && a == b
        &&& forall|k: u64| #[trigger] self.slots.contains_key(k) ==> k < self.next_consumer_id
    }
}

spec fn has_stream(regs: Seq<StreamRegistration>, id: Seq<char>) -> bool {
    exists|i: int| 0 <= i < regs.len() && (#[trigger] regs[i]).stream_id@ == id
}

spec fn position_of(regs: Seq<StreamRegistration>, id: Seq<char>) -> int {
    choose|i: int| 0 <= i < regs.len() && (#[trigger] regs[i]).stream_id@ == id
}

spec fn unique_ids(regs: Seq<StreamRegistration>) -> bool {
    forall|i: int, j: int|
        0 <= i < regs.len() && 0 <= j < regs.len() && (#[trigger] regs[i]).stream_id@ == (
        #[trigger] regs[j]).stream_id@ ==> i == j
}

spec fn stream_map(regs: Seq<StreamRegistration>) -> Map<Seq<char>, StreamView> {
    Map::new(
        |id: Seq<char>| has_stream(regs, id),
        |id: Seq<char>| regs[position_of(regs, id)].summary(),
    )
}

proof fn lemma_stream_at(regs: Seq<StreamRegistration>, i: int)
    requires
        unique_ids(regs),
        0 <= i < regs.len(),
    ensures
        stream_map(regs).contains_key(regs[i].stream_id@),
        stream_map(regs)[regs[i].stream_id@] == regs[i].summary(),
{
    assert(has_stream(regs, regs[i].stream_id@));
}

proof fn lemma_stream_update(regs: Seq<StreamRegistration>, i: int, r: StreamRegistration)
    requires
        unique_ids(regs),
        0 <= i < regs.len(),
        r.stream_id@ == regs[i].stream_id@,
    ensures
        unique_ids(regs.update(i, r)),
        stream_map(regs.update(i, r)) == stream_map(regs).insert(r.stream_id@, r.summary()),
{
    let after = regs.update(i, r);
    assert(unique_ids(after)) by {
        assert forall|j: int, k: int|
            0 <= j < after.len() && 0 <= k < after.len() && (#[trigger] after[j]).stream_id@ == (
            #[trigger] after[k]).stream_id@ implies j == k by {
            assert(after[j].stream_id@ == regs[j].stream_id@);
            assert(after[k].stream_id@ == regs[k].stream_id@);
        }
    }
    let want = stream_map(regs).insert(r.stream_id@, r.summary());
    assert forall|id: Seq<char>| has_stream(after, id) == #[trigger] want.contains_key(id) by {
        if has_stream(after, id) {
            let j = position_of(after, id);
            assert(regs[j].stream_id@ == id);
        }
        if has_stream(regs, id) {
            let j = position_of(regs, id);
            assert(after[j].stream_id@ == id);
        }
        if id == r.stream_id@ {
            assert(after[i].stream_id@ == id);
        }
    }
    assert forall|id: Seq<char>| has_stream(after, id) implies #[trigger] stream_map(after)[id]
        == want[id] by {
        let j = position_of(after, id);
        assert(after[j].stream_id@ == id);
        assert(regs[j].stream_id@ == id);
        lemma_stream_at(regs, j);
        lemma_stream_at(after, j);
    }
    assert(stream_map(after) =~= want);
}

proof fn lemma_stream_push(regs: Seq<StreamRegistration>, r: StreamRegistration)
    requires
        unique_ids(regs),
        !has_stream(regs, r.stream_id@),
    ensures
        unique_ids(regs.push(r)),
        stream_map(regs.push(r)) == stream_map(regs).insert(r.stream_id@, r.summary()),
{
    let after = regs.push(r);
    let want = stream_map(regs).insert(r.stream_id@, r.summary());
    assert(unique_ids(after)) by {
        assert forall|j: int, k: int|
            0 <= j < after.len() && 0 <= k < after.len() && (#[trigger] after[j]).stream_id@ == (
            #[trigger] after[k]).stream_id@ implies j == k by {
            if j < regs.len() {
                assert(after[j] == regs[j]);
            }
            if k < regs.len() {
                assert(after[k] == regs[k]);
            }
        }
    }
    assert forall|id: Seq<char>| has_stream(after, id) == #[trigger] want.contains_key(id) by {
        if has_stream(after, id) {
            let j = position_of(after, id);
            if j < regs.len() {
                assert(regs[j].stream_id@ == id);
            }
        }
        if has_stream(regs, id) {
            let j = position_of(regs, id);
            assert(after[j].stream_id@ == id);
        }
        assert(after[regs.len() as int].stream_id@ == r.stream_id@);
    }
    assert forall|id: Seq<char>| has_stream(after, id) implies #[trigger] stream_map(after)[id]
        == want[id] by {
        let j = position_of(after, id);
        assert(after[j].stream_id@ == id);
        lemma_stream_at(after, j);
        if j < regs.len() {
            assert(regs[j].stream_id@ == id);
            lemma_stream_at(regs, j);
        }
    }
    assert(stream_map(after) =~= want);
}

proof fn lemma_stream_remove(regs: Seq<StreamRegistration>, i: int)
    requires
        unique_ids(regs),
        0 <= i < regs.len(),
    ensures
        unique_ids(regs.remove(i)),
        stream_map(regs.remove(i)) == stream_map(regs).remove(regs[i].stream_id@),
{
    let after = regs.remove(i);
    let want = stream_map(regs).remove(regs[i].stream_id@);
    assert forall|j: int| 0 <= j < after.len() implies #[trigger] after[j] == regs[if j < i {
        j
    } else {
        j + 1
    }] by {}
    assert(unique_ids(after));
    assert forall|id: Seq<char>| has_stream(after, id) == #[trigger] want.contains_key(id) by {
        if has_stream(after, id) {
            let j = position_of(after, id);
            assert(after[j].stream_id@ == id);
            let k = if j < i { j } else { j + 1 };
            assert(regs[k].stream_id@ == id);
        }
        if has_stream(regs, id) && id != regs[i].stream_id@ {
            let k = position_of(regs, id);
            let j = if k < i { k } else { k - 1 };
            assert(after[j].stream_id@ == id);
        }
    }
    assert forall|id: Seq<char>| has_stream(after, id) implies #[trigger] stream_map(after)[id]
        == want[id] by {
        let j = position_of(after, id);
        assert(after[j].stream_id@ == id);
        let k = if j < i { j } else { j + 1 };
        lemma_stream_at(after, j);
        lemma_stream_at(regs, k);
    }
    assert(stream_map(after) =~= want);
}

/// What a producer is told whose spec differs from that of the open stream.
pub open spec fn spec_mismatch_text(
    id: Seq<char>,
    existing: Seq<char>,
    requested: Seq<char>,
) -> Seq<char> {
    "stream "@ + id + " already open with different spec; existing schema="@ + debug_text(existing)
        + ", requested schema="@ + debug_text(requested)
}

fn mismatch_text(id: &str, existing: &str, requested: &str) -> (r: String)
    ensures
        r@ == spec_mismatch_text(id@, existing@, requested@),
{
    let mut out = "stream ".to_owned();
    out.append(id);
    out.append(" already open with different spec; existing schema=");
    out.append(quoted(existing).as_str());
    out.append(", requested schema=");
    out.append(quoted(requested).as_str());
    out
}

fn same_codecs(a: &Vec<String>, b: &Vec<String>) -> (r: bool)
    ensures
        r == (a@.map_values(|c: String| c@) == b@.map_values(|c: String| c@)),
{
    let ghost left = a@.map_values(|c: String| c@);
    let ghost right = b@.map_values(|c: String| c@);
    if a.len() != b.len() {
        assert(left.len() != right.len());
        return false;
    }
    let mut i: usize = 0;
    while i < a.len()
        invariant
            i <= a.len(),
            a.len() == b.len(),
            left == a@.map_values(|c: String| c@),
            right == b@.map_values(|c: String| c@),
            forall|j: int| 0 <= j < i ==> left[j] == right[j],
        decreases a.len() - i,
    {
        if a[i] != b[i] {
            assert(left[i as int] != right[i as int]);
            return false;
        }
        i += 1;
    }
    assert(left =~= right);
    true
}

fn same_policies(a: &Vec<BackpressurePolicy>, b: &Vec<BackpressurePolicy>) -> (r: bool)
    ensures
        r == (a@ == b@),
{
    if a.len() != b.len() {
        return false;
    }
    let mut i: usize = 0;
    while i < a.len()
        invariant
            i <= a.len(),
            a.len() == b.len(),
            forall|j: int| 0 <= j < i ==> a@[j] == b@[j],
        decreases a.len() - i,
    {
        if a[i] != b[i] {
            return false;
        }
        i += 1;
    }
    assert(a@ =~= b@);
    true
}

impl StreamSpec {
    /// Whether two specs declare the same.
    pub fn same(&self, other: &StreamSpec) -> (r: bool)
        ensures
            r == (self@ == other@),
    {
        self.schema == other.schema && same_codecs(&self.codecs, &other.codecs) && self.max_rate_hz
            == other.max_rate_hz && self.typical_payload_bytes == other.typical_payload_bytes
            && same_policies(&self.backpressure_policies, &other.backpressure_policies)
    }

    /// Whether the stream accepts subscriptions under `policy`.
    pub fn accepts_policy(&self, policy: BackpressurePolicy) -> (r: bool)
        ensures
            r == self@.backpressure_policies.contains(policy),
    {
        let mut i: usize = 0;
        while i < self.backpressure_policies.len()
            invariant
                i <= self.backpressure_policies.len(),
                forall|j: int| 0 <= j < i ==> self.backpressure_policies@[j] != policy,
            decreases self.backpressure_policies.len() - i,
        {
            if self.backpressure_policies[i] == policy {
                return true;
            }
            i += 1;
        }
        false
    }
}

/// A subscription after one more frame was numbered for it.
pub open spec fn bumped(c: ConsumerEntry) -> ConsumerEntry {
    ConsumerEntry {
        consumer_id: c.consumer_id,
        policy: c.policy,
        next_seq: if c.next_seq == u64::MAX {
            0
        } else {
            (c.next_seq + 1) as u64
        },
    }
}

/// One of the first `n` of `consumers` feeds slot `k`.
pub open spec fn feeds(consumers: Seq<ConsumerEntry>, n: int, k: u64) -> bool {
    exists|a: int| 0 <= a < n && (#[trigger] consumers[a]).consumer_id == k
}

/// Which of the first `n` of `consumers` feeds slot `k`.
pub open spec fn feeder(consumers: Seq<ConsumerEntry>, n: int, k: u64) -> ConsumerEntry {
    consumers[choose|a: int| 0 <= a < n && (#[trigger] consumers[a]).consumer_id == k]
}

/// The frame that a subscription is offered for one emission.
pub open spec fn frame_for(
    c: ConsumerEntry,
    produced_at_ns: u64,
    codec: Seq<char>,
    payload: Seq<u8>,
) -> FrameView {
    FrameView { seq: c.next_seq, produced_at_ns, codec, payload }
}

/// The slots after one emission was offered to the first `n` of `consumers`.
pub open spec fn slots_after(
    slots: Map<u64, SlotView>,
    consumers: Seq<ConsumerEntry>,
    n: int,
    produced_at_ns: u64,
    codec: Seq<char>,
    payload: Seq<u8>,
) -> Map<u64, SlotView> {
    Map::new(
        |k: u64| slots.contains_key(k),
        |k: u64|
            if feeds(consumers, n, k) {
                let c = feeder(consumers, n, k);
                slot_after(c.policy, slots[k], frame_for(c, produced_at_ns, codec, payload))
            } else {
                slots[k]
            },
    )
}

/// How many of `consumers` accept a frame, given the slots before it.
pub open spec fn accepting(
    slots: Map<u64, SlotView>,
    consumers: Seq<ConsumerEntry>,
) -> nat {
    consumers.filter(|c: ConsumerEntry| accepts(c.policy, slots[c.consumer_id])).len()
}

/// The hub after one frame was emitted on the open stream `id`.
pub open spec fn emitted(
    hub: HubView,
    id: Seq<char>,
    produced_at_ns: u64,
    codec: Seq<char>,
    payload: Seq<u8>,
) -> HubView {
    let stream = hub.streams[id];
    HubView {
        streams: hub.streams.insert(
            id,
            StreamView {
                spec: stream.spec,
                consumers: stream.consumers.map_values(|c: ConsumerEntry| bumped(c)),
            },
        ),
        slots: slots_after(
            hub.slots,
            stream.consumers,
            stream.consumers.len() as int,
            produced_at_ns,
            codec,
            payload,
        ),
        next_consumer_id: hub.next_consumer_id,
    }
}

/// What the producer is told of an emission on the open stream `id`.
pub open spec fn emit_outcome(hub: HubView, id: Seq<char>) -> EmitResult {
    let consumers = hub.streams[id].consumers;
    let queued = accepting(hub.slots, consumers);
    if consumers.len() == 0 {
        EmitResult::NoConsumers
    } else if queued > 0 {
        EmitResult::Queued { consumer_count: queued as u32 }
    } else {
        EmitResult::Dropped { consumer_count: consumers.len() as u32 }
    }
}

/// The slots after those of the first `n` of `consumers` were closed.
pub open spec fn slots_closed(
    slots: Map<u64, SlotView>,
    consumers: Seq<ConsumerEntry>,
    n: int,
) -> Map<u64, SlotView> {
    Map::new(
        |k: u64| slots.contains_key(k),
        |k: u64|
            if feeds(consumers, n, k) {
                SlotView { frame: slots[k].frame, closed: true }
            } else {
                slots[k]
            },
    )
}

/// The hub after the open stream `id` was closed.
pub open spec fn without_stream(hub: HubView, id: Seq<char>) -> HubView {
    let consumers = hub.streams[id].consumers;
    HubView {
        streams: hub.streams.remove(id),
        slots: slots_closed(hub.slots, consumers, consumers.len() as int),
        next_consumer_id: hub.next_consumer_id,
    }
}

impl View for StreamCoordinator {
    type V = HubView;

    closed spec fn view(&self) -> HubView {
        HubView {
            streams: stream_map(self.streams@),
            slots: self.slots@.map_values(|s: ConsumerSlot| s@),
            next_consumer_id: self.next_consumer_id,
        }
    }
}

impl Default for StreamCoordinator {
    /// A hub without streams.
    fn default() -> (r: StreamCoordinator)
        ensures
            r.wf(),
            r@.streams == Map::<Seq<char>, StreamView>::empty(),
            r@.slots == Map::<u64, SlotView>::empty(),
            r@.next_consumer_id == 0,
    {
        Self::new()
    }
}

impl StreamCoordinator {
    /// Stream ids are unique, and the contents are well formed.
    pub closed spec fn wf(&self) -> bool {
        unique_ids(self.streams@) && self@.wf()
    }

    /// A hub without streams.
    pub fn new() -> (r: StreamCoordinator)
        ensures
            r.wf(),
            r@.streams == Map::<Seq<char>, StreamView>::empty(),
            r@.slots == Map::<u64, SlotView>::empty(),
            r@.next_consumer_id == 0,
    {
        let r = StreamCoordinator {
            streams: Vec::new(),
            slots: HashMap::new(),
            next_consumer_id: 0,
        };
        assert(r@.streams =~= Map::<Seq<char>, StreamView>::empty());
        assert(r@.slots =~= Map::<u64, SlotView>::empty());
        r
    }

    fn find(&self, id: &str) -> (r: Option<usize>)
        ensures
            match r {
                Some(i) => i < self.streams.len() && self.streams@[i as int].stream_id@ == id@,
                None => !has_stream(self.streams@, id@),
            },
    {
        let mut i: usize = 0;
        while i < self.streams.len()
            invariant
                i <= self.streams.len(),
                forall|j: int|
                    0 <= j < i ==> (#[trigger] self.streams@[j]).stream_id@ != id@,
            decreases self.streams.len() - i,
        {
            if crate::text::same_text(self.streams[i].stream_id.as_str(), id) {
                return Some(i);
            }
            i += 1;
        }
        None
    }

    /// Opens a stream. Opening an open stream again with the same spec is
    /// accepted and changes nothing; with another spec it is refused.
    pub fn open(&mut self, stream_id: StreamId, spec: StreamSpec) -> (r: Result<
        StreamHandle,
        StreamError,
    >)
        requires
            old(self).wf(),
        ensures
            final(self).wf(),
            match r {
                Ok(h) => {
                    &&& h@ == stream_id@
                    &&& !old(self)@.streams.contains_key(stream_id@) ==> final(self)@ == (HubView {
                        streams: old(self)@.streams.insert(
                            stream_id@,
                            StreamView { spec: spec@, consumers: Seq::empty() },
                        ),
                        ..old(self)@
                    })
                    &&& old(self)@.streams.contains_key(stream_id@) ==> old(
                        self,
                    )@.streams[stream_id@].spec == spec@ && final(self)@ == old(self)@
                },
                Err(e) => {
                    &&& old(self)@.streams.contains_key(stream_id@)
                    &&& old(self)@.streams[stream_id@].spec != spec@
                    &&& e matches StreamError::Invalid(text) && text@ == spec_mismatch_text(
                        stream_id@,
                        old(self)@.streams[stream_id@].spec.schema,
                        spec@.schema,
                    )
                    &&& final(self)@ == old(self)@
                },
            },
    {
        match self.find(stream_id.as_str()) {
            Some(i) => {
                proof {
                    lemma_stream_at(self.streams@, i as int);
                }
                if self.streams[i].spec.same(&spec) {
                    Ok(StreamHandle { stream_id })
                } else {
                    Err(
                        StreamError::Invalid(
                            mismatch_text(
                                stream_id.as_str(),
                                self.streams[i].spec.schema.as_str(),
                                spec.schema.as_str(),
                            ),
                        ),
                    )
                }
            },
            None => {
                let registration = StreamRegistration {
                    stream_id: stream_id.duplicate(),
                    spec,
                    consumers: Vec::new(),
                };
                proof {
                    lemma_stream_push(self.streams@, registration);
                    assert(registration.consumers@ =~= Seq::<ConsumerEntry>::empty());
                }
                let ghost before = self@;
                self.streams.push(registration);
                proof {
                    let id = stream_id@;
                    assert forall|s: Seq<char>, a: int| self@.subscribed(s, a) implies (
                    #[trigger] before.subscribed(s, a) && self@.slot_of(s, a) == before.slot_of(
                        s,
                        a,
                    )) by {}
                    assert(self@.wf()) by {
                        assert forall|s: Seq<char>, a: int| #[trigger]
                            self@.subscribed(s, a) implies before.subscribed(s, a) by {}
                    }
                }
                Ok(StreamHandle { stream_id })
            },
        }
    }

    /// Closes a stream: later emissions on it report [`StreamError::Closed`],
    /// and its receivers find their slots closed once they are drained.
    pub fn close(&mut self, handle: &StreamHandle) -> (r: Result<(), StreamError>)
        requires
            old(self).wf(),
        ensures
            final(self).wf(),
            match r {
                Ok(_) => old(self)@.streams.contains_key(handle@) && final(self)@
                    == without_stream(old(self)@, handle@),
                Err(e) => {
                    &&& !old(self)@.streams.contains_key(handle@)
                    &&& e matches StreamError::Closed(text) && text@ == handle@
                    &&& final(self)@ == old(self)@
                },
            },
    {
        let i: usize = match self.find(handle.stream_id.as_str()) {
            Some(i) => i,
            None => {
                return Err(StreamError::Closed(handle.stream_id.id.clone()));
            },
        };
        let ghost before = self@;
        let ghost id = handle@;
        proof {
            lemma_stream_at(self.streams@, i as int);
            lemma_stream_remove(self.streams@, i as int);
        }
        let registration = self.streams.remove(i);
        let consumers = registration.consumers;
        let mut n: usize = 0;
        while n < consumers.len()
            invariant
                n <= consumers.len(),
                before.wf(),
                before.streams.contains_key(id),
                before.streams[id].consumers == consumers@,
                self.next_consumer_id == before.next_consumer_id,
                unique_ids(self.streams@),
                stream_map(self.streams@) == before.streams.remove(id),
                self@.slots == slots_closed(before.slots, consumers@, n as int),
            decreases consumers.len() - n,
        {
            let k: u64 = consumers[n].consumer_id;
            proof {
                assert(before.subscribed(id, n as int));
                assert(before.slot_of(id, n as int) == k);
                assert(self@.slots.contains_key(k));
            }
            let ghost previous = self.slots@;
            let ghost views = self@.slots;
            match self.slots.remove(&k) {
                Some(mut slot) => {
                    assert(slot == previous[k]);
                    assert(slot@ == views[k]);
                    slot.close();
                    let ghost updated = slot;
                    self.slots.insert(k, slot);
                    assert(self.slots@ =~= previous.insert(k, updated));
                    assert(self@.slots =~= views.insert(k, updated@));
                },
                None => {
                    assert(previous.contains_key(k));
                    assert(false);
                },
            }
            proof {
                assert forall|j: u64| #[trigger] feeds(consumers@, n + 1, j) == (feeds(
                    consumers@,
                    n as int,
                    j,
                ) || j == k) by {
                    if feeds(consumers@, n as int, j) {
                        let a = choose|a: int|
                            0 <= a < n && (#[trigger] consumers@[a]).consumer_id == j;
                        assert(consumers@[a].consumer_id == j);
                    }
                    assert(consumers@[n as int].consumer_id == k);
                }
                assert(!feeds(consumers@, n as int, k)) by {
                    if feeds(consumers@, n as int, k) {
                        let a = choose|a: int|
                            0 <= a < n && (#[trigger] consumers@[a]).consumer_id == k;
                        assert(before.subscribed(id, a));
                        assert(before.slot_of(id, a) == before.slot_of(id, n as int));
                    }
                }
                assert(self@.slots =~= slots_closed(before.slots, consumers@, n + 1));
            }
            n += 1;
        }
        proof {
            assert(self@ == without_stream(before, id));
            assert(self@.wf()) by {
                assert forall|s: Seq<char>, a: int| #[trigger] self@.subscribed(s, a) implies
                    before.subscribed(s, a) && s != id && !feeds(
                    consumers@,
                    consumers.len() as int,
                    self@.slot_of(s, a),
                ) by {
                    if feeds(consumers@, consumers.len() as int, self@.slot_of(s, a)) {
                        let b = choose|b: int|
                            0 <= b < consumers.len() && (#[trigger] consumers@[b]).consumer_id
                                == self@.slot_of(s, a);
                        assert(before.subscribed(s, a));
                        assert(before.subscribed(id, b));
                        assert(before.slot_of(id, b) == before.slot_of(s, a));
                    }
                }
            }
        }
        Ok(())
    }

    /// Offers one frame to every consumer of a stream and tells how it went.
    pub fn emit(
        &mut self,
        handle: &StreamHandle,
        produced_at_ns: u64,
        codec: String,
        payload: Vec<u8>,
    ) -> (r: Result<EmitResult, StreamError>)
        requires
            old(self).wf(),
            old(self)@.streams.contains_key(handle@) ==> old(
                self,
            )@.streams[handle@].consumers.len() <= u32::MAX,
        ensures
            final(self).wf(),
            match r {
                Ok(outcome) => {
                    &&& old(self)@.streams.contains_key(handle@)
                    &&& outcome == emit_outcome(old(self)@, handle@)
                    &&& final(self)@ == emitted(
                        old(self)@,
                        handle@,
                        produced_at_ns,
                        codec@,
                        payload@,
                    )
                },
                Err(e) => {
                    &&& !old(self)@.streams.contains_key(handle@)
                    &&& e matches StreamError::Closed(text) && text@ == handle@
                    &&& final(self)@ == old(self)@
                },
            },
    {
        let i: usize = match self.find(handle.stream_id.as_str()) {
            Some(i) => i,
            None => {
                return Err(StreamError::Closed(handle.stream_id.id.clone()));
            },
        };
        let ghost before = self@;
        let ghost registrations = self.streams@;
        let ghost id = handle@;
        proof {
            lemma_stream_at(self.streams@, i as int);
        }
        let ghost consumers = self.streams@[i as int].consumers@;
        let ghost wants = |c: ConsumerEntry| accepts(c.policy, before.slots[c.consumer_id]);
        let total: usize = self.streams[i].consumers.len();
        let mut numbered: Vec<ConsumerEntry> = Vec::new();
        let mut queued: u32 = 0;
        let mut dropped: u32 = 0;
        proof {
            assert(consumers.take(0).filter(wants).len() == 0);
            assert(self@.slots =~= slots_after(
                before.slots,
                consumers,
                0,
                produced_at_ns,
                codec@,
                payload@,
            ));
        }
        let mut n: usize = 0;
        while n < total
            invariant
                n <= total,
                total <= u32::MAX,
                i < self.streams.len(),
                self.streams@ == registrations,
                registrations[i as int].consumers@ == consumers,
                consumers.len() == total,
                before.wf(),
                before.streams.contains_key(id),
                before.streams[id].consumers == consumers,
                self.next_consumer_id == before.next_consumer_id,
                wants == (|c: ConsumerEntry| accepts(c.policy, before.slots[c.consumer_id])),
                numbered@ == consumers.take(n as int).map_values(|c: ConsumerEntry| bumped(c)),
                queued + dropped == n,
                queued == consumers.take(n as int).filter(wants).len(),
                self@.slots == slots_after(
                    before.slots,
                    consumers,
                    n as int,
                    produced_at_ns,
                    codec@,
                    payload@,
                ),
            decreases total - n,
        {
            let c: ConsumerEntry = self.streams[i].consumers[n];
            let k: u64 = c.consumer_id;
            proof {
                assert(before.subscribed(id, n as int));
                assert(before.slot_of(id, n as int) == k);
                assert(self@.slots.contains_key(k));
                assert(!feeds(consumers, n as int, k)) by {
                    if feeds(consumers, n as int, k) {
                        let a = choose|a: int|
                            0 <= a < n && (#[trigger] consumers[a]).consumer_id == k;
                        assert(before.subscribed(id, a));
                        assert(before.slot_of(id, a) == before.slot_of(id, n as int));
                    }
                }
                assert(self@.slots[k] == before.slots[k]);
                assert(consumers.take(n + 1) =~= consumers.take(n as int).push(c));
                consumers.take(n as int).lemma_filter_push(c, wants);
            }
            let frame = StreamFrame {
                seq: c.next_seq,
                produced_at_ns,
                codec: codec.clone(),
                payload: payload.clone(),
            };
            assert(frame.payload@ =~= payload@);
            let ghost offered = frame@;
            let next_seq: u64 = c.next_seq.wrapping_add(1);
            numbered.push(
                ConsumerEntry { consumer_id: c.consumer_id, policy: c.policy, next_seq },
            );
            let ghost previous = self.slots@;
            let ghost views = self@.slots;
            let mut delivered: bool = false;
            match self.slots.remove(&k) {
                Some(mut slot) => {
                    assert(slot == previous[k]);
                    assert(slot@ == views[k]);
                    delivered = match c.policy {
                        BackpressurePolicy::DropNewest => slot.put_drop_newest(frame),
                        BackpressurePolicy::DropOldest => {
                            slot.put_drop_oldest(frame);
                            true
                        },
                        BackpressurePolicy::Block => slot.put_drop_newest(frame),
                    };
                    let ghost updated = slot;
                    assert(updated@ == slot_after(c.policy, before.slots[k], offered));
                    self.slots.insert(k, slot);
                    assert(self.slots@ =~= previous.insert(k, updated));
                    assert(self@.slots =~= views.insert(k, updated@));
                },
                None => {
                    assert(previous.contains_key(k));
                    assert(false);
                },
            }
            assert(delivered == wants(c));
            if delivered {
                queued += 1;
            } else {
                dropped += 1;
            }
            proof {
                assert(numbered@ =~= consumers.take(n + 1).map_values(
                    |c: ConsumerEntry| bumped(c),
                ));
                let want = slots_after(
                    before.slots,
                    consumers,
                    n + 1,
                    produced_at_ns,
                    codec@,
                    payload@,
                );
                assert forall|j: u64| #[trigger] feeds(consumers, n + 1, j) == (feeds(
                    consumers,
                    n as int,
                    j,
                ) || j == k) by {
                    if feeds(consumers, n as int, j) {
                        let a = choose|a: int|
                            0 <= a < n && (#[trigger] consumers[a]).consumer_id == j;
                        assert(consumers[a].consumer_id == j);
                    }
                    assert(consumers[n as int].consumer_id == k);
                }
                assert forall|j: u64| feeds(consumers, n + 1, j) implies #[trigger] feeder(
                    consumers,
                    n + 1,
                    j,
                ) == (if j == k {
                    c
                } else {
                    feeder(consumers, n as int, j)
                }) by {
                    lemma_feeder(before, id, n + 1, j);
                    if j == k {
                        lemma_feeder(before, id, n + 1, k);
                        assert(consumers[n as int].consumer_id == k);
                    } else {
                        lemma_feeder(before, id, n as int, j);
                    }
                }
                assert(self@.slots =~= want);
            }
            n += 1;
        }
        let registration = &mut self.streams[i];
        registration.consumers = numbered;
        proof {
            assert(consumers.take(total as int) =~= consumers);
            let r = self.streams@[i as int];
            lemma_stream_update(registrations, i as int, r);
            assert(self.streams@ =~= registrations.update(i as int, r));
            assert(self@ == emitted(before, id, produced_at_ns, codec@, payload@));
            lemma_emitted_wf(before, id, produced_at_ns, codec@, payload@);
            if total == 0 {
                assert(consumers.filter(wants).len() == 0);
            }
        }
        if total == 0 {
            Ok(EmitResult::NoConsumers)
        } else if queued > 0 {
            Ok(EmitResult::Queued { consumer_count: queued })
        } else {
            Ok(EmitResult::Dropped { consumer_count: dropped })
        }
    }

    /// Subscribes a consumer. The policy must be one that the stream's spec
    /// accepts; `Block` is refused whatever the spec says. A slot number is
    /// used up by every attempt that gets past the `Block` test.
    pub fn subscribe(&mut self, stream_id: &StreamId, policy: BackpressurePolicy) -> (r: Result<
        ConsumerRx,
        StreamError,
    >)
        requires
            old(self).wf(),
            old(self)@.next_consumer_id < u64::MAX,
        ensures
            final(self).wf(),
            match r {
                Ok(rx) => {
                    &&& policy != BackpressurePolicy::Block
                    &&& old(self)@.streams.contains_key(stream_id@)
                    &&& old(self)@.streams[stream_id@].spec.backpressure_policies.contains(policy)
                    &&& rx.handle.stream_id@ == stream_id@
                    &&& rx.handle.consumer_id == old(self)@.next_consumer_id
                    &&& final(self)@ == with_consumer(old(self)@, stream_id@, policy)
                },
                Err(StreamError::Closed(text)) => {
                    &&& policy != BackpressurePolicy::Block
                    &&& !old(self)@.streams.contains_key(stream_id@)
                    &&& text@ == stream_id@
                    &&& final(self)@ == with_number_used(old(self)@)
                },
                Err(StreamError::UnsupportedBackpressure { stream_id: id, policy: p, accepted }) => {
                    &&& id@ == stream_id@
                    &&& p == policy
                    &&& policy == BackpressurePolicy::Block ==> accepted@ == seq![
                        BackpressurePolicy::DropOldest,
                        BackpressurePolicy::DropNewest,
                    ] && final(self)@ == old(self)@
                    &&& policy != BackpressurePolicy::Block ==> {
                        &&& old(self)@.streams.contains_key(stream_id@)
                        &&& accepted@ == old(
                            self,
                        )@.streams[stream_id@].spec.backpressure_policies
                        &&& !accepted@.contains(policy)
                        &&& final(self)@ == with_number_used(old(self)@)
                    }
                },
                Err(StreamError::Invalid(_)) => false,
            },
    {
        if policy == BackpressurePolicy::Block {
            let mut accepted: Vec<BackpressurePolicy> = Vec::new();
            accepted.push(BackpressurePolicy::DropOldest);
            accepted.push(BackpressurePolicy::DropNewest);
            assert(accepted@ =~= seq![
                BackpressurePolicy::DropOldest,
                BackpressurePolicy::DropNewest,
            ]);
            return Err(
                StreamError::UnsupportedBackpressure {
                    stream_id: stream_id.id.clone(),
                    policy,
                    accepted,
                },
            );
        }
        let ghost before = self@;
        let ghost registrations = self.streams@;
        let consumer_id: u64 = self.next_consumer_id;
        self.next_consumer_id = consumer_id + 1;
        proof {
            assert(self@ == with_number_used(before));
            assert(self@.wf()) by {
                assert forall|s: Seq<char>, a: int| #[trigger] self@.subscribed(s, a) implies
                    before.subscribed(s, a) by {}
            }
        }
        let i: usize = match self.find(stream_id.as_str()) {
            Some(i) => i,
            None => {
                return Err(StreamError::Closed(stream_id.id.clone()));
            },
        };
        proof {
            lemma_stream_at(self.streams@, i as int);
        }
        if !self.streams[i].spec.accepts_policy(policy) {
            let accepted = self.streams[i].spec.backpressure_policies.clone();
            assert(accepted@ =~= self.streams@[i as int].spec.backpressure_policies@);
            return Err(
                StreamError::UnsupportedBackpressure {
                    stream_id: stream_id.id.clone(),
                    policy,
                    accepted,
                },
            );
        }
        let ghost slots = self.slots@;
        let slot = ConsumerSlot::new();
        let ghost fresh = slot;
        self.slots.insert(consumer_id, slot);
        let registration = &mut self.streams[i];
        registration.consumers.push(ConsumerEntry { consumer_id, policy, next_seq: 0 });
        proof {
            let r = self.streams@[i as int];
            lemma_stream_update(registrations, i as int, r);
            assert(self.streams@ =~= registrations.update(i as int, r));
            assert(self.slots@ =~= slots.insert(consumer_id, fresh));
            assert(self@.slots =~= before.slots.insert(consumer_id, fresh@));
            assert(self@ == with_consumer(before, stream_id@, policy));
            lemma_with_consumer_wf(before, stream_id@, policy);
        }
        Ok(
            ConsumerRx {
                handle: ConsumerHandle { stream_id: stream_id.duplicate(), consumer_id },
            },
        )
    }

    /// Ends a subscription. The receiver keeps its slot, open, with whatever
    /// frame is pending; no later emission reaches it.
    pub fn unsubscribe(&mut self, handle: &ConsumerHandle)
        requires
            old(self).wf(),
        ensures
            final(self).wf(),
            final(self)@ == without_consumer(
                old(self)@,
                handle.stream_id@,
                handle.consumer_id,
            ),
    {
        let ghost before = self@;
        let ghost registrations = self.streams@;
        let i: usize = match self.find(handle.stream_id.as_str()) {
            Some(i) => i,
            None => {
                return ;
            },
        };
        proof {
            lemma_stream_at(self.streams@, i as int);
        }
        let ghost consumers = self.streams@[i as int].consumers@;
        let ghost keep = |c: ConsumerEntry| c.consumer_id != handle.consumer_id;
        let mut kept: Vec<ConsumerEntry> = Vec::new();
        let mut n: usize = 0;
        assert(consumers.take(0).filter(keep) =~= Seq::<ConsumerEntry>::empty());
        while n < self.streams[i].consumers.len()
            invariant
                i < self.streams.len(),
                n <= self.streams@[i as int].consumers.len(),
                self.streams@[i as int].consumers@ == consumers,
                keep == (|c: ConsumerEntry| c.consumer_id != handle.consumer_id),
                kept@ == consumers.take(n as int).filter(keep),
            decreases consumers.len() - n,
        {
            let c: ConsumerEntry = self.streams[i].consumers[n];
            proof {
                assert(consumers.take(n + 1) =~= consumers.take(n as int).push(c));
                consumers.take(n as int).lemma_filter_push(c, keep);
            }
            if c.consumer_id != handle.consumer_id {
                kept.push(c);
            }
            n += 1;
        }
        let registration = &mut self.streams[i];
        registration.consumers = kept;
        proof {
            assert(consumers.take(consumers.len() as int) =~= consumers);
            let r = self.streams@[i as int];
            lemma_stream_update(registrations, i as int, r);
            assert(self.streams@ =~= registrations.update(i as int, r));
            assert(self@ == without_consumer(before, handle.stream_id@, handle.consumer_id));
            lemma_without_consumer_wf(before, handle.stream_id@, handle.consumer_id);
        }
    }

    /// How many consumers a stream has; none if it is not open.
    pub fn consumer_count(&self, stream_id: &StreamId) -> (r: usize)
        requires
            self.wf(),
        ensures
            r == (if self@.streams.contains_key(stream_id@) {
                self@.streams[stream_id@].consumers.len()
            } else {
                0
            }),
    {
        match self.find(stream_id.as_str()) {
            Some(i) => {
                proof {
                    lemma_stream_at(self.streams@, i as int);
                }
                self.streams[i].consumers.len()
            },
            None => 0,
        }
    }
}

/// The hub after a slot number was used up.
pub open spec fn with_number_used(hub: HubView) -> HubView {
    HubView { next_consumer_id: (hub.next_consumer_id + 1) as u64, ..hub }
}

/// The hub after a consumer joined the open stream `id`.
pub open spec fn with_consumer(
    hub: HubView,
    id: Seq<char>,
    policy: BackpressurePolicy,
) -> HubView {
    let stream = hub.streams[id];
    let number = hub.next_consumer_id;
    HubView {
        streams: hub.streams.insert(
            id,
            StreamView {
                spec: stream.spec,
                consumers: stream.consumers.push(
                    ConsumerEntry { consumer_id: number, policy, next_seq: 0 },
                ),
            },
        ),
        slots: hub.slots.insert(number, SlotView { frame: None, closed: false }),
        next_consumer_id: (number + 1) as u64,
    }
}

/// The hub after the subscription with slot number `k` left stream `id`.
pub open spec fn without_consumer(hub: HubView, id: Seq<char>, k: u64) -> HubView {
    if hub.streams.contains_key(id) {
        let stream = hub.streams[id];
        HubView {
            streams: hub.streams.insert(
                id,
                StreamView {
                    spec: stream.spec,
                    consumers: stream.consumers.filter(|c: ConsumerEntry| c.consumer_id != k),
                },
            ),
            ..hub
        }
    } else {
        hub
    }
}

proof fn lemma_with_consumer_wf(hub: HubView, id: Seq<char>, policy: BackpressurePolicy)
    requires
        hub.wf(),
        hub.streams.contains_key(id),
        hub.next_consumer_id < u64::MAX,
    ensures
        with_consumer(hub, id, policy).wf(),
{
    let after = with_consumer(hub, id, policy);
    let n = hub.streams[id].consumers.len() as int;
    assert forall|s: Seq<char>, a: int| #[trigger] after.subscribed(s, a) implies (if s == id && a
        == n {
        after.slot_of(s, a) == hub.next_consumer_id
    } else {
        hub.subscribed(s, a) && after.slot_of(s, a) == hub.slot_of(s, a) && after.slot_of(s, a)
            < hub.next_consumer_id
    }) by {
        if !(s == id && a == n) {
            assert(hub.subscribed(s, a));
        }
    }
}

proof fn lemma_without_consumer_wf(hub: HubView, id: Seq<char>, k: u64)
    requires
        hub.wf(),
    ensures
        without_consumer(hub, id, k).wf(),
{
    let after = without_consumer(hub, id, k);
    if hub.streams.contains_key(id) {
        let all = hub.streams[id].consumers;
        let keep = |c: ConsumerEntry| c.consumer_id != k;
        let kept = all.filter(keep);
        assert forall|a: int, b: int|
            0 <= a < kept.len() && 0 <= b < kept.len() && kept[a].consumer_id
                == kept[b].consumer_id implies a == b by {
            assert forall|x: int, y: int|
                0 <= x < all.len() && 0 <= y < all.len() && (#[trigger] all[x]).consumer_id == (
                #[trigger] all[y]).consumer_id implies x == y by {
                assert(hub.subscribed(id, x));
                assert(hub.subscribed(id, y));
                assert(hub.slot_of(id, x) == hub.slot_of(id, y));
            }
            lemma_filter_keeps_distinct(all, keep, a, b);
        }
        assert forall|s: Seq<char>, a: int| #[trigger] after.subscribed(s, a) implies exists|b: int|
            #[trigger] hub.subscribed(s, b) && after.slot_of(s, a) == hub.slot_of(s, b) by {
            if s == id {
                all.lemma_filter_contains_rev(keep, kept[a]);
                let b = choose|b: int| 0 <= b < all.len() && all[b] == kept[a];
                assert(hub.subscribed(s, b));
            } else {
                assert(hub.subscribed(s, a));
            }
        }
        assert forall|s: Seq<char>, a: int, t: Seq<char>, b: int|
            (#[trigger] after.subscribed(s, a) && #[trigger] after.subscribed(t, b)
                && after.slot_of(s, a) == after.slot_of(t, b)) implies s == t && a == b by {
            let x = choose|x: int|
                #[trigger] hub.subscribed(s, x) && after.slot_of(s, a) == hub.slot_of(s, x);
            let y = choose|y: int|
                #[trigger] hub.subscribed(t, y) && after.slot_of(t, b) == hub.slot_of(t, y);
            assert(s == t);
            if s != id {
                assert(hub.subscribed(s, a));
                assert(hub.subscribed(t, b));
            }
        }
    }
}

proof fn lemma_filter_keeps_distinct(
    all: Seq<ConsumerEntry>,
    keep: spec_fn(ConsumerEntry) -> bool,
    a: int,
    b: int,
)
    requires
        forall|x: int, y: int|
            0 <= x < all.len() && 0 <= y < all.len() && (#[trigger] all[x]).consumer_id == (
            #[trigger] all[y]).consumer_id ==> x == y,
        0 <= a < all.filter(keep).len(),
        0 <= b < all.filter(keep).len(),
        all.filter(keep)[a].consumer_id == all.filter(keep)[b].consumer_id,
    ensures
        a == b,
    decreases all.len(),
{
    let init = all.drop_last();
    let last = all.last();
    assert(all =~= init.push(last));
    init.lemma_filter_push(last, keep);
    let kept = init.filter(keep);
    assert forall|x: int, y: int|
        0 <= x < init.len() && 0 <= y < init.len() && (#[trigger] init[x]).consumer_id == (
        #[trigger] init[y]).consumer_id implies x == y by {
        assert(all[x] == init[x]);
        assert(all[y] == init[y]);
    }
    if a < kept.len() && b < kept.len() {
        lemma_filter_keeps_distinct(init, keep, a, b);
    } else if a != b {
        let low = if a < b { a } else { b };
        init.lemma_filter_contains_rev(keep, kept[low]);
        let x = choose|x: int| 0 <= x < init.len() && init[x] == kept[low];
        assert(all[x].consumer_id == all[all.len() - 1].consumer_id);
    }
}

/// Distinct subscriptions feed distinct slots, so a slot's feeder does not
/// depend on how many subscriptions are looked at.
proof fn lemma_feeder(hub: HubView, id: Seq<char>, n: int, k: u64)
    requires
        hub.wf(),
        hub.streams.contains_key(id),
        0 <= n <= hub.streams[id].consumers.len(),
        feeds(hub.streams[id].consumers, n, k),
    ensures
        forall|a: int|
            0 <= a < hub.streams[id].consumers.len() && (
            #[trigger] hub.streams[id].consumers[a]).consumer_id == k ==> feeder(
                hub.streams[id].consumers,
                n,
                k,
            ) == hub.streams[id].consumers[a],
{
    let consumers = hub.streams[id].consumers;
    let b = choose|b: int| 0 <= b < n && (#[trigger] consumers[b]).consumer_id == k;
    assert forall|a: int| 0 <= a < consumers.len() && (#[trigger] consumers[a]).consumer_id
        == k implies feeder(consumers, n, k) == consumers[a] by {
        assert(hub.subscribed(id, a));
        assert(hub.subscribed(id, b));
        assert(hub.slot_of(id, a) == hub.slot_of(id, b));
    }
}

/// An emission keeps a hub well formed.
proof fn lemma_emitted_wf(
    hub: HubView,
    id: Seq<char>,
    produced_at_ns: u64,
    codec: Seq<char>,
    payload: Seq<u8>,
)
    requires
        hub.wf(),
        hub.streams.contains_key(id),
    ensures
        emitted(hub, id, produced_at_ns, codec, payload).wf(),
{
    let after = emitted(hub, id, produced_at_ns, codec, payload);
    assert forall|s: Seq<char>, a: int| #[trigger] after.subscribed(s, a) implies hub.subscribed(
        s,
        a,
    ) && after.slot_of(s, a) == hub.slot_of(s, a) && after.slots.contains_key(
        after.slot_of(s, a),
    ) && !after.slots[after.slot_of(s, a)].closed by {
        assert(hub.subscribed(s, a));
    }
}

/// The hub after slot `k` was drained.
pub open spec fn drained(hub: HubView, k: u64) -> HubView {
    if hub.slots.contains_key(k) {
        HubView {
            slots: hub.slots.insert(k, SlotView { frame: None, closed: hub.slots[k].closed }),
            ..hub
        }
    } else {
        hub
    }
}

/// Some subscription feeds slot `k`.
pub open spec fn is_fed(hub: HubView, k: u64) -> bool {
    exists|id: Seq<char>, a: int| #[trigger] hub.subscribed(id, a) && hub.slot_of(id, a) == k
}

/// The hub after the receiver of slot `k` went away: the slot goes with it,
/// unless a subscription still feeds it.
pub open spec fn released(hub: HubView, k: u64) -> HubView {
    if is_fed(hub, k) {
        hub
    } else {
        HubView { slots: hub.slots.remove(k), ..hub }
    }
}

impl ConsumerRx {
    /// Takes the next frame, or says whether one may still come: `Pending`
    /// asks the caller to wait and try again, `Closed` that the stream is
    /// closed and drained.
    pub fn recv(&mut self, hub: &mut StreamCoordinator) -> (r: Received)
        requires
            old(hub).wf(),
        ensures
            *final(self) == *old(self),
            final(hub).wf(),
            final(hub)@ == drained(old(hub)@, old(self).handle.consumer_id),
            ({
                let slots = old(hub)@.slots;
                let k = old(self).handle.consumer_id;
                match r {
                    Received::Frame(f) => slots.contains_key(k) && slots[k].frame == Some(f@),
                    Received::Pending => slots.contains_key(k) && slots[k].frame is None
                        && !slots[k].closed,
                    Received::Closed => !slots.contains_key(k) || (slots[k].frame is None
                        && slots[k].closed),
                }
            }),
    {
        let k: u64 = self.handle.consumer_id;
        let ghost before = hub@;
        let ghost previous = hub.slots@;
        match hub.slots.remove(&k) {
            Some(mut slot) => {
                assert(slot == previous[k]);
                let r = slot.take();
                let ghost updated = slot;
                hub.slots.insert(k, slot);
                proof {
                    assert(hub.slots@ =~= previous.insert(k, updated));
                    assert(hub@.slots =~= before.slots.insert(k, updated@));
                    assert(hub@ == drained(before, k));
                    lemma_drained_wf(before, k);
                }
                r
            },
            None => {
                assert(hub.slots@ =~= previous);
                assert(hub@ == before);
                Received::Closed
            },
        }
    }

    /// Takes the next frame if one is pending.
    pub fn try_recv(&mut self, hub: &mut StreamCoordinator) -> (r: Option<StreamFrame>)
        requires
            old(hub).wf(),
        ensures
            *final(self) == *old(self),
            final(hub).wf(),
            final(hub)@ == drained(old(hub)@, old(self).handle.consumer_id),
            ({
                let slots = old(hub)@.slots;
                let k = old(self).handle.consumer_id;
                match r {
                    Some(f) => slots.contains_key(k) && slots[k].frame == Some(f@),
                    None => !slots.contains_key(k) || slots[k].frame is None,
                }
            }),
    {
        let k: u64 = self.handle.consumer_id;
        let ghost before = hub@;
        let ghost previous = hub.slots@;
        match hub.slots.remove(&k) {
            Some(mut slot) => {
                assert(slot == previous[k]);
                let r = slot.try_take();
                let ghost updated = slot;
                hub.slots.insert(k, slot);
                proof {
                    assert(hub.slots@ =~= previous.insert(k, updated));
                    assert(hub@.slots =~= before.slots.insert(k, updated@));
                    assert(hub@ == drained(before, k));
                    lemma_drained_wf(before, k);
                }
                r
            },
            None => {
                assert(hub.slots@ =~= previous);
                assert(hub@ == before);
                None
            },
        }
    }

    /// The handle with which the subscription can be ended.
    pub fn handle(&self) -> (r: &ConsumerHandle)
        ensures
            *r == self.handle,
    {
        &self.handle
    }

    /// Gives up the receiving end.
    pub fn release(self, hub: &mut StreamCoordinator)
        requires
            old(hub).wf(),
        ensures
            final(hub).wf(),
            final(hub)@ == released(old(hub)@, self.handle.consumer_id),
    {
        let k: u64 = self.handle.consumer_id;
        if !hub.feeds_slot(k) {
            let ghost before = hub@;
            let ghost previous = hub.slots@;
            hub.slots.remove(&k);
            proof {
                assert(hub.slots@ =~= previous.remove(k));
                assert(hub@.slots =~= before.slots.remove(k));
                assert(hub@.wf()) by {
                    assert forall|s: Seq<char>, a: int| #[trigger] hub@.subscribed(s, a) implies
                        before.subscribed(s, a) by {}
                }
            }
        }
    }
}

impl StreamCoordinator {
    fn feeds_slot(&self, k: u64) -> (r: bool)
        requires
            self.wf(),
        ensures
            r == is_fed(self@, k),
    {
        let mut i: usize = 0;
        while i < self.streams.len()
            invariant
                self.wf(),
                i <= self.streams.len(),
                forall|j: int, a: int|
                    0 <= j < i && 0 <= a < self.streams@[j].consumers.len() ==> (
                    #[trigger] self.streams@[j].consumers@[a]).consumer_id != k,
            decreases self.streams.len() - i,
        {
            let mut n: usize = 0;
            while n < self.streams[i].consumers.len()
                invariant
                    self.wf(),
                    i < self.streams.len(),
                    n <= self.streams@[i as int].consumers.len(),
                    forall|a: int|
                        0 <= a < n ==> (
                        #[trigger] self.streams@[i as int].consumers@[a]).consumer_id != k,
                decreases self.streams@[i as int].consumers.len() - n,
            {
                if self.streams[i].consumers[n].consumer_id == k {
                    proof {
                        lemma_stream_at(self.streams@, i as int);
                        assert(self@.subscribed(
                            self.streams@[i as int].stream_id@,
                            n as int,
                        ));
                    }
                    return true;
                }
                n += 1;
            }
            i += 1;
        }
        proof {
            assert forall|id: Seq<char>, a: int| #[trigger] self@.subscribed(id, a) implies
                self@.slot_of(id, a) != k by {
                let j = position_of(self.streams@, id);
                lemma_stream_at(self.streams@, j);
                assert(self.streams@[j].consumers@[a].consumer_id != k);
            }
        }
        false
    }
}

proof fn lemma_drained_wf(hub: HubView, k: u64)
    requires
        hub.wf(),
    ensures
        drained(hub, k).wf(),
{
    let after = drained(hub, k);
    assert forall|s: Seq<char>, a: int| #[trigger] after.subscribed(s, a) implies hub.subscribed(
        s,
        a,
    ) by {}
}

/// A well-formed hub has well-formed contents, which is what the laws below ask
/// for.
pub proof fn lemma_view_wf(hub: &StreamCoordinator)
    requires
        hub.wf(),
    ensures
        hub@.wf(),
{
}

/// After a close, the stream is not open any more (so that emissions and
/// subscriptions are refused until it is opened again), each of its receivers
/// finds its slot closed with the pending frame still in it, and nobody else
/// notices.
pub proof fn law_close(hub: HubView, id: Seq<char>, k: u64)
    requires
        hub.wf(),
        hub.streams.contains_key(id),
        hub.slots.contains_key(k),
    ensures
        !without_stream(hub, id).streams.contains_key(id),
        without_stream(hub, id).slots.contains_key(k),
        without_stream(hub, id).slots[k].frame == hub.slots[k].frame,
        without_stream(hub, id).slots[k].closed == (hub.slots[k].closed || feeds(
            hub.streams[id].consumers,
            hub.streams[id].consumers.len() as int,
            k,
        )),
        forall|other: Seq<char>|
            other != id && hub.streams.contains_key(other) ==> #[trigger] without_stream(
                hub,
                id,
            ).streams.contains_key(other) && without_stream(hub, id).streams[other]
                == hub.streams[other],
{
}

/// An emission reaches every consumer whose slot is empty, with the same
/// contents and the consumer's own sequence number.
pub proof fn law_fan_out(
    hub: HubView,
    id: Seq<char>,
    a: int,
    produced_at_ns: u64,
    codec: Seq<char>,
    payload: Seq<u8>,
)
    requires
        hub.wf(),
        hub.subscribed(id, a),
        hub.slots[hub.slot_of(id, a)].frame is None,
    ensures
        emitted(hub, id, produced_at_ns, codec, payload).slots[hub.slot_of(id, a)] == (SlotView {
            frame: Some(
                FrameView {
                    seq: hub.streams[id].consumers[a].next_seq,
                    produced_at_ns,
                    codec,
                    payload,
                },
            ),
            closed: false,
        }),
        emitted(hub, id, produced_at_ns, codec, payload).subscribed(id, a),
        emitted(hub, id, produced_at_ns, codec, payload).streams[id].consumers[a] == bumped(
            hub.streams[id].consumers[a],
        ),
{
    let consumers = hub.streams[id].consumers;
    assert(consumers[a].consumer_id == hub.slot_of(id, a));
    assert(feeds(consumers, consumers.len() as int, hub.slot_of(id, a)));
    lemma_feeder(hub, id, consumers.len() as int, hub.slot_of(id, a));
}

/// When every slot of a stream is empty, an emission is queued for all of its
/// consumers.
pub proof fn law_fan_out_count(hub: HubView, id: Seq<char>)
    requires
        hub.wf(),
        hub.streams.contains_key(id),
        0 < hub.streams[id].consumers.len() <= u32::MAX,
        forall|a: int| #[trigger]
            hub.subscribed(id, a) ==> hub.slots[hub.slot_of(id, a)].frame is None,
    ensures
        emit_outcome(hub, id) == (EmitResult::Queued {
            consumer_count: hub.streams[id].consumers.len() as u32,
        }),
{
    let consumers = hub.streams[id].consumers;
    assert forall|a: int| 0 <= a < consumers.len() implies accepts(
        (#[trigger] consumers[a]).policy,
        hub.slots[consumers[a].consumer_id],
    ) by {
        assert(hub.subscribed(id, a));
    }
    lemma_all_accept(hub.slots, consumers);
}

proof fn lemma_all_accept(slots: Map<u64, SlotView>, consumers: Seq<ConsumerEntry>)
    requires
        forall|a: int|
            0 <= a < consumers.len() ==> accepts(
                (#[trigger] consumers[a]).policy,
                slots[consumers[a].consumer_id],
            ),
    ensures
        accepting(slots, consumers) == consumers.len(),
    decreases consumers.len(),
{
    let wants = |c: ConsumerEntry| accepts(c.policy, slots[c.consumer_id]);
    if consumers.len() > 0 {
        let init = consumers.drop_last();
        assert(consumers =~= init.push(consumers.last()));
        init.lemma_filter_push(consumers.last(), wants);
        assert forall|a: int| 0 <= a < init.len() implies accepts(
            (#[trigger] init[a]).policy,
            slots[init[a].consumer_id],
        ) by {
            assert(init[a] == consumers[a]);
        }
        lemma_all_accept(slots, init);
    }
}

/// Latest wins: whatever a `DropOldest` consumer's slot holds, after an
/// emission it holds the emitted frame.
pub proof fn law_latest_wins(
    hub: HubView,
    id: Seq<char>,
    a: int,
    produced_at_ns: u64,
    codec: Seq<char>,
    payload: Seq<u8>,
)
    requires
        hub.wf(),
        hub.subscribed(id, a),
        hub.streams[id].consumers[a].policy == BackpressurePolicy::DropOldest,
    ensures
        emitted(hub, id, produced_at_ns, codec, payload).slots[hub.slot_of(id, a)].frame == Some(
            frame_for(hub.streams[id].consumers[a], produced_at_ns, codec, payload),
        ),
{
    let consumers = hub.streams[id].consumers;
    assert(consumers[a].consumer_id == hub.slot_of(id, a));
    assert(feeds(consumers, consumers.len() as int, hub.slot_of(id, a)));
    lemma_feeder(hub, id, consumers.len() as int, hub.slot_of(id, a));
}

/// Earliest wins: a `DropNewest` consumer's pending frame survives every
/// emission, and the rejected frame's sequence number is used up all the same.
pub proof fn law_earliest_wins(
    hub: HubView,
    id: Seq<char>,
    a: int,
    produced_at_ns: u64,
    codec: Seq<char>,
    payload: Seq<u8>,
)
    requires
        hub.wf(),
        hub.subscribed(id, a),
        hub.streams[id].consumers[a].policy == BackpressurePolicy::DropNewest,
        hub.slots[hub.slot_of(id, a)].frame is Some,
    ensures
        emitted(hub, id, produced_at_ns, codec, payload).slots[hub.slot_of(id, a)]
            == hub.slots[hub.slot_of(id, a)],
        emitted(hub, id, produced_at_ns, codec, payload).streams[id].consumers[a] == bumped(
            hub.streams[id].consumers[a],
        ),
{
    let consumers = hub.streams[id].consumers;
    assert(consumers[a].consumer_id == hub.slot_of(id, a));
    assert(feeds(consumers, consumers.len() as int, hub.slot_of(id, a)));
    lemma_feeder(hub, id, consumers.len() as int, hub.slot_of(id, a));
}

/// Sequence numbers are the consumer's own: every emission on its stream uses
/// one up, whether the frame is taken or not, and an emission on another stream
/// uses none.
pub proof fn law_numbering(
    hub: HubView,
    id: Seq<char>,
    a: int,
    on: Seq<char>,
    produced_at_ns: u64,
    codec: Seq<char>,
    payload: Seq<u8>,
)
    requires
        hub.wf(),
        hub.subscribed(id, a),
        hub.streams.contains_key(on),
    ensures
        emitted(hub, on, produced_at_ns, codec, payload).subscribed(id, a),
        emitted(hub, on, produced_at_ns, codec, payload).streams[id].consumers[a] == (if on == id {
            bumped(hub.streams[id].consumers[a])
        } else {
            hub.streams[id].consumers[a]
        }),
{
}

/// An emission touches no slot but those of the stream's own consumers; in
/// particular it reaches neither other streams nor a consumer that left.
pub proof fn law_emission_is_confined(
    hub: HubView,
    id: Seq<char>,
    k: u64,
    produced_at_ns: u64,
    codec: Seq<char>,
    payload: Seq<u8>,
)
    requires
        hub.wf(),
        hub.streams.contains_key(id),
        hub.slots.contains_key(k),
        forall|a: int| #[trigger] hub.subscribed(id, a) ==> hub.slot_of(id, a) != k,
    ensures
        emitted(hub, id, produced_at_ns, codec, payload).slots[k] == hub.slots[k],
{
    let consumers = hub.streams[id].consumers;
    if feeds(consumers, consumers.len() as int, k) {
        let a = choose|a: int|
            0 <= a < consumers.len() && (#[trigger] consumers[a]).consumer_id == k;
        assert(hub.subscribed(id, a));
    }
}

/// A consumer that unsubscribed is not among the stream's consumers, and the
/// count drops by one if it was.
pub proof fn law_unsubscribe(hub: HubView, id: Seq<char>, a: int)
    requires
        hub.wf(),
        hub.subscribed(id, a),
    ensures
        ({
            let k = hub.slot_of(id, a);
            let after = without_consumer(hub, id, k);
            &&& after.streams[id].consumers.len() == hub.streams[id].consumers.len() - 1
            &&& forall|b: int| #[trigger] after.subscribed(id, b) ==> after.slot_of(id, b) != k
            &&& after.slots == hub.slots
        }),
{
    let k = hub.slot_of(id, a);
    let all = hub.streams[id].consumers;
    let keep = |c: ConsumerEntry| c.consumer_id != k;
    assert forall|x: int, y: int|
        0 <= x < all.len() && 0 <= y < all.len() && (#[trigger] all[x]).consumer_id == (
        #[trigger] all[y]).consumer_id implies x == y by {
        assert(hub.subscribed(id, x));
        assert(hub.subscribed(id, y));
        assert(hub.slot_of(id, x) == hub.slot_of(id, y));
    }
    lemma_filter_drops_one(all, k, a);
    assert forall|b: int| #[trigger]
        without_consumer(hub, id, k).subscribed(id, b) implies without_consumer(
        hub,
        id,
        k,
    ).slot_of(id, b) != k by {
        all.lemma_filter_pred(keep, b);
    }
}

proof fn lemma_filter_drops_one(all: Seq<ConsumerEntry>, k: u64, a: int)
    requires
        0 <= a < all.len(),
        all[a].consumer_id == k,
        forall|x: int, y: int|
            0 <= x < all.len() && 0 <= y < all.len() && (#[trigger] all[x]).consumer_id == (
            #[trigger] all[y]).consumer_id ==> x == y,
    ensures
        all.filter(|c: ConsumerEntry| c.consumer_id != k).len() == all.len() - 1,
    decreases all.len(),
{
    let keep = |c: ConsumerEntry| c.consumer_id != k;
    let init = all.drop_last();
    assert(all =~= init.push(all.last()));
    init.lemma_filter_push(all.last(), keep);
    assert forall|x: int| 0 <= x < init.len() implies #[trigger] init[x] == all[x] by {}
    if a == all.len() - 1 {
        assert forall|x: int| 0 <= x < init.len() implies (#[trigger] init[x]).consumer_id != k by {
            assert(all[x].consumer_id != all[a].consumer_id);
        }
        lemma_filter_keeps_all(init, k);
    } else {
        assert(all[all.len() - 1].consumer_id != all[a].consumer_id);
        lemma_filter_drops_one(init, k, a);
    }
}

proof fn lemma_filter_keeps_all(all: Seq<ConsumerEntry>, k: u64)
    requires
        forall|x: int| 0 <= x < all.len() ==> (#[trigger] all[x]).consumer_id != k,
    ensures
        all.filter(|c: ConsumerEntry| c.consumer_id != k).len() == all.len(),
    decreases all.len(),
{
    let keep = |c: ConsumerEntry| c.consumer_id != k;
    if all.len() > 0 {
        let init = all.drop_last();
        assert(all =~= init.push(all.last()));
        init.lemma_filter_push(all.last(), keep);
        assert forall|x: int| 0 <= x < init.len() implies (#[trigger] init[x]).consumer_id != k by {
            assert(init[x] == all[x]);
        }
        lemma_filter_keeps_all(init, k);
    }
}

}
