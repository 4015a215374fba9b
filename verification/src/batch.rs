//! The batch/submission layer: many independently produced batches of
//! outbound messages are multiplexed onto one bounded messages channel; the
//! consumer polls for batches, submits them, and answers each batch's
//! private one-shot reply slot exactly once. Senders behave as if they had a
//! private synchronous submission call while the consumer amortizes real
//! submissions.
//!
//! Blocking is modelled as polling: an operation that would suspend returns
//! a value that says so (`ChannelFull` backpressure for a sender, `None` for
//! a reply not yet available), and the caller's event loop retries.

use std::collections::HashMap;
use vstd::assert_seqs_equal;
use vstd::map::*;
use vstd::prelude::*;

use crate::relay::IbcMessage;
use crate::types::Event;

verus! {

broadcast use
    vstd::std_specs::hash::group_hash_axioms,
    vstd::std_specs::vecdeque::group_vec_dequeue_axioms;

/// Application-level rejection of a submitted batch, reported by the chain
/// that executed the transaction; opaque to this layer and not retried by
/// it.
#[derive(Clone, Copy, PartialEq, Eq, Structural, Debug)]
pub struct SubmissionError {
    pub code: u64,
}

/// Transport-level failures of the channel pair itself, distinguished from
/// application rejection so callers can decide retry-ability.
#[derive(Clone, Copy, PartialEq, Eq, Structural, Debug)]
pub enum BatchError {
    /// The bounded messages queue is full; the send would suspend.
    ChannelFull,
    /// The reply slot is gone: nothing will ever arrive on it again.
    ChannelClosed,
    /// A reply was already sent on this slot; a second reply is a contract
    /// violation by the consumer.
    DuplicateReply,
    /// No fresh reply slot can be allocated.
    SlotsExhausted,
}

/// What one batch submission came to: the per-message events of the chain
/// transaction, or the application-level rejection.
pub type BatchOutcome = Result<Vec<Vec<Event>>, SubmissionError>;

/// Mathematical image of a `BatchOutcome`.
pub type BatchOutcomeView = Result<Seq<Seq<Event>>, SubmissionError>;

/// The events of a submitted batch, message by message, as a sequence of
/// sequences.
pub open spec fn events_view(v: Vec<Vec<Event>>) -> Seq<Seq<Event>> {
    v@.map_values(|inner: Vec<Event>| inner@)
}

/// Mathematical image of an outcome value.
pub open spec fn outcome_view(r: BatchOutcome) -> BatchOutcomeView {
    match r {
        Ok(v) => Ok(events_view(v)),
        Err(e) => Err(e),
    }
}

/// State of one one-shot reply slot: waiting for the consumer's reply, or
/// holding a reply not yet collected. A collected slot is absent.
pub enum SlotView {
    Open,
    Filled(BatchOutcomeView),
}

/// One enqueued batch: its messages, in the order the sender enqueued them,
/// and the slot its reply goes to.
#[verifier::ext_equal]
pub struct BatchEntry {
    pub messages: Seq<IbcMessage>,
    pub result_slot: u64,
}

/// Mathematical model of a batch channel pair: the bounded FIFO of pending
/// batches, its capacity, the reply slots, and the next fresh slot id.
/// Slot ids are never reused: every id ever handed out is below
/// `next_slot`.
#[verifier::ext_equal]
pub struct BatchView {
    pub queue: Seq<BatchEntry>,
    pub capacity: int,
    pub slots: Map<u64, SlotView>,
    pub next_slot: u64,
}

/// The model after a batch of `messages` replying to `result_slot` is
/// enqueued.
pub open spec fn send_messages_transition(
    s: BatchView,
    messages: Seq<IbcMessage>,
    result_slot: u64,
) -> BatchView {
    BatchView { queue: s.queue.push(BatchEntry { messages, result_slot }), ..s }
}

/// The model after the consumer takes the front batch.
pub open spec fn receive_messages_transition(s: BatchView) -> BatchView {
    BatchView { queue: s.queue.drop_first(), ..s }
}

/// The model after the consumer replies `outcome` on `slot`.
pub open spec fn send_result_transition(
    s: BatchView,
    slot: u64,
    outcome: BatchOutcomeView,
) -> BatchView {
    BatchView { slots: s.slots.insert(slot, SlotView::Filled(outcome)), ..s }
}

/// The model after the sender collects the reply held in `slot`.
pub open spec fn receive_result_transition(s: BatchView, slot: u64) -> BatchView {
    BatchView { slots: s.slots.remove(slot), ..s }
}

/// The model after a fresh reply slot — the next slot id — is allocated.
pub open spec fn new_result_channel_transition(s: BatchView) -> BatchView {
    BatchView {
        slots: s.slots.insert(s.next_slot, SlotView::Open),
        next_slot: (s.next_slot + 1) as u64,
        ..s
    }
}

/// The duplex channel-pair contract: a messages channel from many senders to
/// one consumer, and a private one-shot reply slot per batch.
pub trait BatchContext: Sized {
    /// The mathematical model of this channel pair.
    spec fn batch_view(&self) -> BatchView;

    /// The implementation's internal well-formedness; every operation
    /// requires and preserves it.
    spec fn inv(&self) -> bool;

    /// Allocates the private reply slot for a coming batch. The slot is
    /// fresh: it was never handed out before, so no earlier reply can land
    /// on it. Allocation fails only when every slot id has been used up, so
    /// until then every batch is owed its slot.
    fn new_result_channel(&mut self) -> (r: Result<u64, BatchError>)
        requires
            old(self).inv(),
        ensures
            final(self).inv(),
            match r {
                Ok(slot) => {
                    &&& slot == old(self).batch_view().next_slot
                    &&& slot < u64::MAX
                    &&& !old(self).batch_view().slots.dom().contains(slot)
                    &&& final(self).batch_view() == new_result_channel_transition(
                        old(self).batch_view(),
                    )
                },
                Err(e) => {
                    &&& e == BatchError::SlotsExhausted
                    &&& old(self).batch_view().next_slot == u64::MAX
                    &&& final(self).batch_view() == old(self).batch_view()
                },
            },
    ;

    /// Enqueues a batch together with its reply slot. Returns once
    /// enqueued, not once executed; when the bounded queue is full the
    /// send reports backpressure and changes nothing.
    fn send_messages(&mut self, messages: Vec<IbcMessage>, result_sender: u64) -> (r: Result<
        (),
        BatchError,
    >)
        requires
            old(self).inv(),
        ensures
            final(self).inv(),
            if old(self).batch_view().queue.len() < old(self).batch_view().capacity {
                &&& r == Ok::<(), BatchError>(())
                &&& final(self).batch_view() == send_messages_transition(
                    old(self).batch_view(),
                    messages@,
                    result_sender,
                )
            } else {
                &&& r == Err::<(), BatchError>(BatchError::ChannelFull)
                &&& final(self).batch_view() == old(self).batch_view()
            },
    ;

    /// The consumer's non-blocking poll for the next batch: the oldest
    /// pending batch with its reply slot, or nothing if no batch is ready.
    /// Polling rather than blocking is what lets the consumer pick its own
    /// batching window.
    fn try_receive_messages(&mut self) -> (r: Option<(Vec<IbcMessage>, u64)>)
        requires
            old(self).inv(),
        ensures
            final(self).inv(),
            match r {
                Some(received) => {
                    &&& old(self).batch_view().queue.len() > 0
                    &&& received.0@ == old(self).batch_view().queue[0].messages
                    &&& received.1 == old(self).batch_view().queue[0].result_slot
                    &&& final(self).batch_view() == receive_messages_transition(
                        old(self).batch_view(),
                    )
                },
                None => {
                    &&& old(self).batch_view().queue.len() == 0
                    &&& final(self).batch_view() == old(self).batch_view()
                },
            },
    ;

    /// The consumer's one-shot reply for a batch. Replying on a waiting
    /// slot always succeeds and fills it; a second reply on the same slot
    /// is refused; a reply on a slot whose receiver is gone is quietly
    /// dropped — a departed sender is not the consumer's error.
    fn send_result(&mut self, result_sender: u64, outcome: BatchOutcome) -> (r: Result<
        (),
        BatchError,
    >)
        requires
            old(self).inv(),
        ensures
            final(self).inv(),
            if old(self).batch_view().slots.dom().contains(result_sender) {
                if old(self).batch_view().slots[result_sender] == SlotView::Open {
                    &&& r == Ok::<(), BatchError>(())
                    &&& final(self).batch_view() == send_result_transition(
                        old(self).batch_view(),
                        result_sender,
                        outcome_view(outcome),
                    )
                } else {
                    &&& r == Err::<(), BatchError>(BatchError::DuplicateReply)
                    &&& final(self).batch_view() == old(self).batch_view()
                }
            } else {
                &&& r == Ok::<(), BatchError>(())
                &&& final(self).batch_view() == old(self).batch_view()
            },
    ;

    /// The sender's poll for its batch's outcome. A missing slot is a
    /// transport error: the reply was already collected or never existed. A
    /// waiting slot answers nothing yet. A filled slot hands out its
    /// outcome — transport success, application success or rejection inside
    /// — and closes, so the outcome is observed exactly once.
    fn receive_result(&mut self, result_receiver: u64) -> (r: Result<
        Option<BatchOutcome>,
        BatchError,
    >)
        requires
            old(self).inv(),
        ensures
            final(self).inv(),
            if old(self).batch_view().slots.dom().contains(result_receiver) {
                if old(self).batch_view().slots[result_receiver] == SlotView::Open {
                    &&& r == Ok::<Option<BatchOutcome>, BatchError>(None)
                    &&& final(self).batch_view() == old(self).batch_view()
                } else {
                    &&& match r {
                        Ok(Some(outcome)) => old(self).batch_view().slots[result_receiver]
                            == SlotView::Filled(outcome_view(outcome)),
                        _ => false,
                    }
                    &&& final(self).batch_view() == receive_result_transition(
                        old(self).batch_view(),
                        result_receiver,
                    )
                }
            } else {
                &&& r == Err::<Option<BatchOutcome>, BatchError>(BatchError::ChannelClosed)
                &&& final(self).batch_view() == old(self).batch_view()
            },
    ;
}

/// One enqueued batch as stored: the messages and the reply slot.
struct MessageBatch {
    messages: Vec<IbcMessage>,
    result_slot: u64,
}

/// Stored state of one reply slot.
enum SlotEntry {
    Open,
    Filled(BatchOutcome),
}

/// Stored slot state, mathematically.
spec fn slot_entry_view(e: SlotEntry) -> SlotView {
    match e {
        SlotEntry::Open => SlotView::Open,
        SlotEntry::Filled(outcome) => SlotView::Filled(outcome_view(outcome)),
    }
}

/// An in-memory channel pair: a bounded FIFO of batches and the reply
/// slots, one structure standing for both directions of the duplex pair.
pub struct BatchChannel {
    queue: std::collections::VecDeque<MessageBatch>,
    capacity: usize,
    slots: HashMap<u64, SlotEntry>,
    next_slot: u64,
}

impl BatchChannel {
    /// A fresh channel pair whose messages queue holds at most `capacity`
    /// batches.
    pub fn new_messages_channel(capacity: usize) -> (r: BatchChannel)
        ensures
            r.inv(),
            r.batch_view() == (BatchView {
                queue: Seq::<BatchEntry>::empty(),
                capacity: capacity as int,
                slots: Map::<u64, SlotView>::empty(),
                next_slot: 0,
            }),
    {
        let r = BatchChannel {
            queue: std::collections::VecDeque::new(),
            capacity,
            slots: HashMap::new(),
            next_slot: 0,
        };
        proof {
            assert(r.batch_view().queue =~= Seq::<BatchEntry>::empty());
            assert(r.batch_view().slots =~= Map::<u64, SlotView>::empty());
        }
        r
    }
}

impl BatchContext for BatchChannel {
    closed spec fn batch_view(&self) -> BatchView {
        BatchView {
            queue: self.queue@.map_values(
                |b: MessageBatch| BatchEntry { messages: b.messages@, result_slot: b.result_slot },
            ),
            capacity: self.capacity as int,
            slots: Map::new(
                |s: u64| self.slots@.contains_key(s),
                |s: u64| slot_entry_view(self.slots@[s]),
            ),
            next_slot: self.next_slot,
        }
    }

    closed spec fn inv(&self) -> bool {
        forall|s: u64| self.slots@.contains_key(s) ==> s < self.next_slot
    }

    fn new_result_channel(&mut self) -> (r: Result<u64, BatchError>) {
        if self.next_slot == u64::MAX {
            return Err(BatchError::SlotsExhausted);
        }
        let slot = self.next_slot;
        self.slots.insert(slot, SlotEntry::Open);
        self.next_slot = slot + 1;
        proof {
            let lhs = self.batch_view().slots;
            let rhs = old(self).batch_view().slots.insert(slot, SlotView::Open);
            assert_maps_equal!(lhs, rhs);
        }
        Ok(slot)
    }

    fn send_messages(&mut self, messages: Vec<IbcMessage>, result_sender: u64) -> (r: Result<
        (),
        BatchError,
    >) {
        if self.queue.len() >= self.capacity {
            return Err(BatchError::ChannelFull);
        }
        self.queue.push_back(MessageBatch { messages, result_slot: result_sender });
        proof {
            let lhs = self.batch_view().queue;
            let rhs = send_messages_transition(
                old(self).batch_view(),
                messages@,
                result_sender,
            ).queue;
            assert_seqs_equal!(lhs, rhs);
        }
        Ok(())
    }

    fn try_receive_messages(&mut self) -> (r: Option<(Vec<IbcMessage>, u64)>) {
        match self.queue.pop_front() {
            Some(batch) => {
                proof {
                    let lhs = self.batch_view().queue;
                    let rhs = receive_messages_transition(old(self).batch_view()).queue;
                    assert_seqs_equal!(lhs, rhs);
                }
                Some((batch.messages, batch.result_slot))
            },
            None => None,
        }
    }

    fn send_result(&mut self, result_sender: u64, outcome: BatchOutcome) -> (r: Result<
        (),
        BatchError,
    >) {
        match self.slots.get(&result_sender) {
            None => {
                return Ok(());
            },
            Some(SlotEntry::Filled(_)) => {
                return Err(BatchError::DuplicateReply);
            },
            Some(SlotEntry::Open) => {},
        };
        self.slots.insert(result_sender, SlotEntry::Filled(outcome));
        proof {
            let lhs = self.batch_view().slots;
            let rhs = send_result_transition(
                old(self).batch_view(),
                result_sender,
                outcome_view(outcome),
            ).slots;
            assert_maps_equal!(lhs, rhs);
        }
        Ok(())
    }

    fn receive_result(&mut self, result_receiver: u64) -> (r: Result<
        Option<BatchOutcome>,
        BatchError,
    >) {
        match self.slots.get(&result_receiver) {
            None => {
                return Err(BatchError::ChannelClosed);
            },
            Some(SlotEntry::Open) => {
                return Ok(None);
            },
            Some(SlotEntry::Filled(_)) => {},
        };
        match self.slots.remove(&result_receiver) {
            Some(SlotEntry::Filled(outcome)) => {
                proof {
                    let lhs = self.batch_view().slots;
                    let rhs = receive_result_transition(
                        old(self).batch_view(),
                        result_receiver,
                    ).slots;
                    assert_maps_equal!(lhs, rhs);
                }
                Ok(Some(outcome))
            },
            _ => {
                assert(false);
                Err(BatchError::ChannelClosed)
            },
        }
    }
}

/// Batch ordering: three batches sent in the order `m1`, `m2`, `m3` onto an
/// idle channel are observed by the consumer in exactly that order, each
/// with its messages exactly as enqueued — the front of the queue after
/// each receive is the next batch sent.
pub proof fn lemma_batch_ordering(
    s: BatchView,
    m1: Seq<IbcMessage>,
    slot1: u64,
    m2: Seq<IbcMessage>,
    slot2: u64,
    m3: Seq<IbcMessage>,
    slot3: u64,
)
    requires
        s.queue.len() == 0,
        s.capacity >= 3,
    ensures
        ({
            let sent = send_messages_transition(
                send_messages_transition(send_messages_transition(s, m1, slot1), m2, slot2),
                m3,
                slot3,
            );
            let after_first = receive_messages_transition(sent);
            let after_second = receive_messages_transition(after_first);
            let after_third = receive_messages_transition(after_second);
            &&& sent.queue[0] == BatchEntry { messages: m1, result_slot: slot1 }
            &&& after_first.queue[0] == BatchEntry { messages: m2, result_slot: slot2 }
            &&& after_second.queue[0] == BatchEntry { messages: m3, result_slot: slot3 }
            &&& after_third.queue.len() == 0
        }),
{
}

/// First-in, first-out in general: a newly sent batch goes to the back of
/// the queue, every batch already pending is observed before it, and
/// receiving takes exactly the oldest pending batch.
pub proof fn lemma_batch_fifo(s: BatchView, messages: Seq<IbcMessage>, result_slot: u64)
    ensures
        ({
            let sent = send_messages_transition(s, messages, result_slot);
            &&& sent.queue.len() == s.queue.len() + 1
            &&& sent.queue.last() == BatchEntry { messages, result_slot }
            &&& forall|i: int| 0 <= i < s.queue.len() ==> sent.queue[i] == s.queue[i]
            &&& forall|i: int|
                0 <= i < s.queue.len() - 1 ==> receive_messages_transition(s).queue[i]
                    == s.queue[i + 1]
        }),
{
}

/// One reply per batch: a reply on a waiting slot lands exactly there, the
/// waiting sender collects exactly that outcome, and collecting closes the
/// slot, so no second outcome can ever be observed for the same batch; no
/// other slot is disturbed at either step.
pub proof fn lemma_one_reply_per_batch(s: BatchView, slot: u64, outcome: BatchOutcomeView)
    requires
        s.slots.dom().contains(slot),
        s.slots[slot] == SlotView::Open,
    ensures
        ({
            let replied = send_result_transition(s, slot, outcome);
            let collected = receive_result_transition(replied, slot);
            &&& replied.slots[slot] == SlotView::Filled(outcome)
            &&& !collected.slots.dom().contains(slot)
            &&& forall|other: u64|
                other != slot && s.slots.dom().contains(other) ==> replied.slots.dom().contains(
                    other,
                ) && collected.slots.dom().contains(other) && #[trigger] replied.slots[other]
                    == s.slots[other] && collected.slots[other] == s.slots[other]
            &&& replied.queue == s.queue
            &&& collected.queue == s.queue
        }),
{
}

/// Locates the batch channel a relay context submits its messages through.
pub trait HasBatchContext: Sized {
    /// The channel-pair implementation this context uses.
    type Batch: BatchContext;

    /// The channel pair as a value, for specifications.
    spec fn spec_batch_context(&self) -> Self::Batch;

    /// Exclusive access to the channel pair.
    fn batch_context(&mut self) -> (r: &mut Self::Batch)
        ensures
            *r == old(self).spec_batch_context(),
            final(self).spec_batch_context() == *final(r),
    ;
}

/// The producer's single call per batch: allocates the private reply slot
/// and enqueues the messages behind every batch already pending, in exactly
/// their given order. Succeeds whenever slot ids remain and the queue has
/// room; on backpressure the freshly allocated slot stays open and unused —
/// a reply to it would be quietly dropped, as to any departed receiver.
pub fn submit_message_batch<B: BatchContext>(batch: &mut B, messages: Vec<IbcMessage>) -> (r:
    Result<u64, BatchError>)
    requires
        old(batch).inv(),
    ensures
        final(batch).inv(),
        match r {
            Ok(slot) => {
                &&& slot == old(batch).batch_view().next_slot
                &&& !old(batch).batch_view().slots.dom().contains(slot)
                &&& final(batch).batch_view() == send_messages_transition(
                    new_result_channel_transition(old(batch).batch_view()),
                    messages@,
                    slot,
                )
            },
            Err(e) => match e {
                BatchError::SlotsExhausted => {
                    &&& old(batch).batch_view().next_slot == u64::MAX
                    &&& final(batch).batch_view() == old(batch).batch_view()
                },
                BatchError::ChannelFull => {
                    &&& old(batch).batch_view().queue.len() >= old(batch).batch_view().capacity
                    &&& final(batch).batch_view() == new_result_channel_transition(
                        old(batch).batch_view(),
                    )
                },
                _ => false,
            },
        },
{
    let slot = match batch.new_result_channel() {
        Ok(slot) => slot,
        Err(e) => {
            return Err(e);
        },
    };
    match batch.send_messages(messages, slot) {
        Ok(()) => Ok(slot),
        Err(e) => Err(e),
    }
}

/// The round trip of one relay call's outbound batch, end to end: the
/// freshly allocated reply slot is new; the batch joins the queue with its
/// messages exactly as handed in, in their order, and on an idle channel it
/// is the very next batch the consumer observes; the consumer's one reply
/// lands on the waiting slot, and collecting it closes the slot, so the
/// sender sees exactly one outcome, never two and never a stale one.
pub proof fn lemma_batch_round_trip(s: BatchView, messages: Seq<IbcMessage>, outcome: BatchOutcomeView)
    requires
        s.queue.len() == 0,
        s.capacity >= 1,
        s.next_slot < u64::MAX,
        !s.slots.dom().contains(s.next_slot),
    ensures
        ({
            let slot = s.next_slot;
            let allocated = new_result_channel_transition(s);
            let sent = send_messages_transition(allocated, messages, slot);
            let taken = receive_messages_transition(sent);
            let replied = send_result_transition(taken, slot, outcome);
            let collected = receive_result_transition(replied, slot);
            &&& allocated.queue.len() < allocated.capacity
            &&& sent.queue.len() == 1
            &&& sent.queue[0] == BatchEntry { messages, result_slot: slot }
            &&& taken.queue.len() == 0
            &&& taken.slots[slot] == SlotView::Open
            &&& replied.slots[slot] == SlotView::Filled(outcome)
            &&& !collected.slots.dom().contains(slot)
        }),
{
}

/// A complete in-process relay context: the chain store it updates and the
/// batch channel it submits through.
pub struct InMemoryRelayContext {
    pub chain: crate::store::InMemoryChainContext,
    pub batch: BatchChannel,
}

impl HasBatchContext for InMemoryRelayContext {
    type Batch = BatchChannel;

    open spec fn spec_batch_context(&self) -> BatchChannel {
        self.batch
    }

    fn batch_context(&mut self) -> (r: &mut BatchChannel) {
        &mut self.batch
    }
}


} // verus!
