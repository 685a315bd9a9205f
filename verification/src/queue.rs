//! The delivery queue: a bounded, ordered, closeable buffer between the
//! polling loop (producer) and the consumer.
//!
//! Updates leave the queue in exactly the order they entered (FIFO), the
//! queue never holds more than its fixed capacity, and once it is closed
//! no further update is accepted while everything already buffered can
//! still be drained.

use vstd::prelude::*;
use std::collections::VecDeque;
use crate::models::Update;

verus! {

/// Capacity the reference configuration gives the delivery queue.
pub const DEFAULT_QUEUE_CAPACITY: usize = 100;

/// Abstract state of a delivery queue: the buffered updates in delivery
/// order, the fixed capacity, and whether the queue has been closed.
pub struct QueueModel {
    pub items: Seq<Update>,
    pub capacity: nat,
    pub closed: bool,
}

impl QueueModel {
    pub open spec fn wf(self) -> bool {
        1 <= self.capacity && self.items.len() <= self.capacity
    }
}

/// Whether a queue in state `q` accepts one more update.
pub open spec fn can_accept(q: QueueModel) -> bool {
    !q.closed && q.items.len() < q.capacity
}

/// The state after one accepted send.
pub open spec fn model_send(q: QueueModel, u: Update) -> QueueModel {
    QueueModel { items: q.items.push(u), capacity: q.capacity, closed: q.closed }
}

/// The state after the consumer drains one buffered update.
pub open spec fn model_receive(q: QueueModel) -> QueueModel {
    QueueModel {
        items: q.items.subrange(1, q.items.len() as int),
        capacity: q.capacity,
        closed: q.closed,
    }
}

/// The state after every update of `us` has been accepted in order.
pub open spec fn model_send_all(q: QueueModel, us: Seq<Update>) -> QueueModel
    decreases us.len(),
{
    if us.len() == 0 {
        q
    } else {
        model_send_all(model_send(q, us[0]), us.subrange(1, us.len() as int))
    }
}

/// Result of offering one update to the queue. A refused update is handed
/// back so the producer can retry it.
pub enum SendOutcome {
    /// The update was buffered.
    Accepted,
    /// The queue is at capacity; the producer must wait for the consumer.
    Full(Update),
    /// The queue was closed; no update will ever be accepted again.
    Closed(Update),
}

/// Result of asking the queue for its next update.
pub enum ReceiveOutcome {
    /// The oldest buffered update, now removed from the queue.
    Item(Update),
    /// Nothing is buffered yet, but the producer may still send more.
    Pending,
    /// The queue is closed and fully drained: end of stream.
    Done,
}

/// Bounded FIFO buffer of updates with an explicit closed state.
pub struct DeliveryQueue {
    buffer: VecDeque<Update>,
    capacity: usize,
    closed: bool,
}

impl View for DeliveryQueue {
    type V = QueueModel;

    closed spec fn view(&self) -> QueueModel {
        QueueModel {
            items: self.buffer@,
            capacity: self.capacity as nat,
            closed: self.closed,
        }
    }
}

impl DeliveryQueue {
    pub open spec fn wf(self) -> bool {
        self@.wf()
    }

    /// An open, empty queue with the given fixed capacity.
    pub fn new(capacity: usize) -> (queue: Self)
        requires
            capacity >= 1,
        ensures
            queue.wf(),
            queue@.items == Seq::<Update>::empty(),
            queue@.capacity == capacity as nat,
            !queue@.closed,
    {
        DeliveryQueue { buffer: VecDeque::new(), capacity, closed: false }
    }

    /// How many updates are currently buffered.
    pub fn len(&self) -> (n: usize)
        ensures
            n == self@.items.len(),
    {
        self.buffer.len()
    }

    /// Whether the queue has been closed.
    pub fn is_closed(&self) -> (b: bool)
        ensures
            b == self@.closed,
    {
        self.closed
    }

    /// Offer one update. It is buffered exactly when the queue is open and
    /// below capacity; otherwise it is handed back unchanged and the queue
    /// keeps its state.
    pub fn send(&mut self, update: Update) -> (outcome: SendOutcome)
        requires
            old(self).wf(),
        ensures
            final(self).wf(),
            final(self)@.capacity == old(self)@.capacity,
            final(self)@.closed == old(self)@.closed,
            can_accept(old(self)@) ==> {
                &&& outcome is Accepted
                &&& final(self)@ == model_send(old(self)@, update)
            },
            old(self)@.closed ==> {
                &&& outcome matches SendOutcome::Closed(u) && u == update
                &&& final(self)@ == old(self)@
            },
            !old(self)@.closed && !can_accept(old(self)@) ==> {
                &&& outcome matches SendOutcome::Full(u) && u == update
                &&& final(self)@ == old(self)@
            },
    {
        if self.closed {
            SendOutcome::Closed(update)
        } else if self.buffer.len() >= self.capacity {
            SendOutcome::Full(update)
        } else {
            self.buffer.push_back(update);
            SendOutcome::Accepted
        }
    }

    /// Take the oldest buffered update, if any. Once the queue is closed
    /// and drained the outcome is the end-of-stream signal.
    pub fn receive(&mut self) -> (outcome: ReceiveOutcome)
        requires
            old(self).wf(),
        ensures
            final(self).wf(),
            final(self)@.capacity == old(self)@.capacity,
            final(self)@.closed == old(self)@.closed,
            old(self)@.items.len() > 0 ==> {
                &&& outcome matches ReceiveOutcome::Item(u) && u == old(self)@.items[0]
                &&& final(self)@ == model_receive(old(self)@)
            },
            old(self)@.items.len() == 0 ==> {
                &&& final(self)@ == old(self)@
                &&& outcome is Done <==> old(self)@.closed
                &&& outcome is Pending <==> !old(self)@.closed
            },
    {
        match self.buffer.pop_front() {
            Some(update) => {
                assert(final(self)@.items =~= model_receive(old(self)@).items);
                ReceiveOutcome::Item(update)
            },
            None => {
                if self.closed {
                    ReceiveOutcome::Done
                } else {
                    ReceiveOutcome::Pending
                }
            },
        }
    }

    /// Close the queue: pending sends will be refused, while everything
    /// already buffered stays available to the consumer.
    pub fn close(&mut self)
        requires
            old(self).wf(),
        ensures
            final(self).wf(),
            final(self)@.items == old(self)@.items,
            final(self)@.capacity == old(self)@.capacity,
            final(self)@.closed,
    {
        self.closed = true;
    }
}

/// Filling a queue: when an open queue has room for all of `us`, every
/// send in the sequence is accepted and the buffer ends holding the old
/// contents followed by `us` in order.
pub proof fn lemma_fill_in_order(q: QueueModel, us: Seq<Update>)
    requires
        q.wf(),
        !q.closed,
        q.items.len() + us.len() <= q.capacity,
    ensures
        forall|i: int|
            0 <= i < us.len() ==> can_accept(model_send_all(q, us.subrange(0, i))),
        model_send_all(q, us).items == q.items + us,
        model_send_all(q, us).capacity == q.capacity,
        model_send_all(q, us).closed == q.closed,
    decreases us.len(),
{
    if us.len() == 0 {
        assert(model_send_all(q, us).items =~= q.items + us);
    } else {
        let q1 = model_send(q, us[0]);
        let rest = us.subrange(1, us.len() as int);
        lemma_fill_in_order(q1, rest);
        assert(model_send_all(q1, rest).items =~= q.items + us);
        assert forall|i: int| 0 <= i < us.len() implies can_accept(
            model_send_all(q, us.subrange(0, i)),
        ) by {
            if i == 0 {
                assert(model_send_all(q, us.subrange(0, 0)) == q);
            } else {
                assert(us.subrange(0, i).subrange(1, i) =~= rest.subrange(0, i - 1));
                assert(model_send_all(q, us.subrange(0, i)) == model_send_all(
                    q1,
                    rest.subrange(0, i - 1),
                ));
            }
        }
    }
}

/// Backpressure: starting from an empty open queue of capacity `C`, the
/// first `C` sends are all accepted, the send after them is refused, and
/// one drain by the consumer makes the next send acceptable again.
pub proof fn lemma_backpressure(q: QueueModel, us: Seq<Update>)
    requires
        q.wf(),
        !q.closed,
        q.items.len() == 0,
        us.len() == q.capacity,
    ensures
        forall|i: int|
            0 <= i < us.len() ==> can_accept(model_send_all(q, us.subrange(0, i))),
        !can_accept(model_send_all(q, us)),
        can_accept(model_receive(model_send_all(q, us))),
{
    lemma_fill_in_order(q, us);
}

} // verus!
