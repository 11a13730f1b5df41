use crate::events::Event;
use vstd::prelude::*;

verus! {

/// Slots of the bus that the daemon runs: enough for a burst from every
/// sampler.
pub const BUS_CAPACITY: usize = 32;

/// What became of one attempt to send.
#[derive(Clone, Copy, Debug, PartialEq, Eq, Structural)]
pub enum SendOutcome {
    /// The event is queued.
    Accepted,
    /// No slot is free: the event comes back and the sender has to wait.
    Full(Event),
    /// The bus is closed: the event comes back and the sender has to stop.
    Closed(Event),
}

/// What one attempt to receive found.
#[derive(Clone, Copy, Debug, PartialEq, Eq, Structural)]
pub enum RecvOutcome {
    /// The oldest queued event.
    Received(Event),
    /// Nothing is queued, but more may come: the receiver has to wait.
    Empty,
    /// The bus is closed and drained.
    Finished,
}

/// One operation on a bus.
pub enum BusOp {
    Send(Event),
    Recv,
    Close,
}

/// The bus as a mathematical value: the queued events, oldest first, the
/// number of slots, and whether the bus has been closed.
pub struct BusModel {
    pub queue: Seq<Event>,
    pub capacity: nat,
    pub closed: bool,
}

impl BusModel {
    pub open spec fn wf(self) -> bool {
        self.queue.len() <= self.capacity
    }

    pub open spec fn send_outcome(self, event: Event) -> SendOutcome {
        if self.closed {
            SendOutcome::Closed(event)
        } else if self.queue.len() >= self.capacity {
            SendOutcome::Full(event)
        } else {
            SendOutcome::Accepted
        }
    }

    /// The bus after an attempt to send: the event is appended when it is
    /// accepted, and nothing changes otherwise.
    pub open spec fn send(self, event: Event) -> BusModel {
        if self.send_outcome(event) == SendOutcome::Accepted {
            BusModel { queue: self.queue.push(event), ..self }
        } else {
            self
        }
    }

    pub open spec fn recv_outcome(self) -> RecvOutcome {
        if self.queue.len() > 0 {
            RecvOutcome::Received(self.queue[0])
        } else if self.closed {
            RecvOutcome::Finished
        } else {
            RecvOutcome::Empty
        }
    }

    /// The bus after an attempt to receive: the oldest event leaves.
    pub open spec fn recv(self) -> BusModel {
        if self.queue.len() > 0 {
            BusModel { queue: self.queue.drop_first(), ..self }
        } else {
            self
        }
    }

    /// The bus after `n` attempts to receive.
    pub open spec fn recv_many(self, n: nat) -> BusModel
        decreases n,
    {
        if n == 0 {
            self
        } else {
            self.recv().recv_many((n - 1) as nat)
        }
    }

    pub open spec fn close(self) -> BusModel {
        BusModel { closed: true, ..self }
    }

    pub open spec fn apply(self, op: BusOp) -> BusModel {
        match op {
            BusOp::Send(event) => self.send(event),
            BusOp::Recv => self.recv(),
            BusOp::Close => self.close(),
        }
    }

    /// The bus after a run of operations.
    pub open spec fn run(self, ops: Seq<BusOp>) -> BusModel
        decreases ops.len(),
    {
        if ops.len() == 0 {
            self
        } else {
            self.apply(ops[0]).run(ops.drop_first())
        }
    }

    /// The events that a run of operations got accepted, in the order of
    /// their sends.
    pub open spec fn accepted(self, ops: Seq<BusOp>) -> Seq<Event>
        decreases ops.len(),
    {
        if ops.len() == 0 {
            Seq::<Event>::empty()
        } else {
            let head: Seq<Event> = match ops[0] {
                BusOp::Send(event) => if self.send_outcome(event) == SendOutcome::Accepted {
                    seq![event]
                } else {
                    Seq::<Event>::empty()
                },
                _ => Seq::<Event>::empty(),
            };
            head + self.apply(ops[0]).accepted(ops.drop_first())
        }
    }

    /// The events that a run of operations handed to the receiver, in the
    /// order of their receipt.
    pub open spec fn delivered(self, ops: Seq<BusOp>) -> Seq<Event>
        decreases ops.len(),
    {
        if ops.len() == 0 {
            Seq::<Event>::empty()
        } else {
            let head: Seq<Event> = match ops[0] {
                BusOp::Recv => if self.queue.len() > 0 {
                    seq![self.queue[0]]
                } else {
                    Seq::<Event>::empty()
                },
                _ => Seq::<Event>::empty(),
            };
            head + self.apply(ops[0]).delivered(ops.drop_first())
        }
    }
}

/// A bounded first-in-first-out queue of events between the samplers and the
/// dispatcher.
pub struct EventBus {
    queue: Vec<Event>,
    capacity: usize,
    closed: bool,
}

impl View for EventBus {
    type V = BusModel;

    closed spec fn view(&self) -> BusModel {
        BusModel { queue: self.queue@, capacity: self.capacity as nat, closed: self.closed }
    }
}

impl EventBus {
    #[verifier::type_invariant]
    spec fn within_capacity(self) -> bool {
        self.queue@.len() <= self.capacity
    }

    /// An open, empty bus with the given number of slots. A bus without
    /// slots accepts nothing.
    pub fn new(capacity: usize) -> (bus: EventBus)
        ensures
            bus@ == (BusModel { queue: Seq::<Event>::empty(), capacity: capacity as nat, closed: false }),
            bus@.wf(),
    {
        EventBus { queue: Vec::new(), capacity, closed: false }
    }

    pub fn capacity(&self) -> (r: usize)
        ensures
            r == self@.capacity,
    {
        self.capacity
    }

    /// The number of queued events. It never exceeds the capacity.
    pub fn len(&self) -> (r: usize)
        ensures
            r == self@.queue.len(),
            self@.wf(),
    {
        proof {
            use_type_invariant(self);
        }
        self.queue.len()
    }

    pub fn is_closed(&self) -> (r: bool)
        ensures
            r == self@.closed,
    {
        self.closed
    }

    /// Queues the event if the bus is open and has a free slot. Otherwise
    /// the bus is unchanged and the event is handed back, so that nothing is
    /// lost while the sender waits.
    pub fn try_send(&mut self, event: Event) -> (r: SendOutcome)
        ensures
            r == old(self)@.send_outcome(event),
            final(self)@ == old(self)@.send(event),
            old(self)@.wf(),
            final(self)@.wf(),
    {
        proof {
            use_type_invariant(&*self);
        }
        if self.closed {
            SendOutcome::Closed(event)
        } else if self.queue.len() >= self.capacity {
            SendOutcome::Full(event)
        } else {
            // The queue is taken out while it grows, so that the bus stays
            // within its capacity at every step.
            let mut queue: Vec<Event> = Vec::new();
            core::mem::swap(&mut self.queue, &mut queue);
            queue.push(event);
            core::mem::swap(&mut self.queue, &mut queue);
            SendOutcome::Accepted
        }
    }

    /// Takes the oldest queued event, if there is one.
    pub fn try_recv(&mut self) -> (r: RecvOutcome)
        ensures
            r == old(self)@.recv_outcome(),
            final(self)@ == old(self)@.recv(),
            old(self)@.wf(),
            final(self)@.wf(),
    {
        proof {
            use_type_invariant(&*self);
        }
        if self.queue.len() > 0 {
            let mut queue: Vec<Event> = Vec::new();
            core::mem::swap(&mut self.queue, &mut queue);
            let event = queue.remove(0);
            assert(queue@ =~= old(self).queue@.drop_first());
            core::mem::swap(&mut self.queue, &mut queue);
            RecvOutcome::Received(event)
        } else if self.closed {
            RecvOutcome::Finished
        } else {
            RecvOutcome::Empty
        }
    }

    /// Closes the bus. What is queued can still be received.
    pub fn close(&mut self)
        ensures
            final(self)@ == old(self)@.close(),
            old(self)@.wf(),
            final(self)@.wf(),
    {
        proof {
            use_type_invariant(&*self);
        }
        self.closed = true;
    }
}

/// Two events sent one after the other, both accepted, stand in the queue in
/// that order, behind everything that was queued before them.
pub proof fn lemma_sends_queue_in_order(bus: BusModel, first: Event, second: Event)
    requires
        bus.wf(),
        !bus.closed,
        bus.queue.len() + 2 <= bus.capacity,
    ensures
        bus.send(first).send(second).queue == bus.queue + seq![first, second],
        bus.send(first).send(second).wf(),
{
    assert(bus.send(first).send(second).queue =~= bus.queue + seq![first, second]);
}

/// Two events sent one after the other, both accepted, are received in that
/// order, right after everything that was queued before them.
pub proof fn lemma_delivery_keeps_send_order(bus: BusModel, first: Event, second: Event)
    requires
        bus.wf(),
        !bus.closed,
        bus.queue.len() + 2 <= bus.capacity,
    ensures
        bus.send(first).send(second).recv_many(bus.queue.len()).recv_outcome()
            == RecvOutcome::Received(first),
        bus.send(first).send(second).recv_many(bus.queue.len() + 1).recv_outcome()
            == RecvOutcome::Received(second),
        bus.send(first).send(second).recv_many(bus.queue.len() + 2).recv_outcome()
            == RecvOutcome::Empty,
{
    let after = bus.send(first).send(second);
    let n = bus.queue.len();
    lemma_sends_queue_in_order(bus, first, second);
    lemma_recv_many(after, n);
    lemma_recv_many(after, n + 1);
    lemma_recv_many(after, n + 2);
}

/// Receiving `n` times takes the `n` oldest events, in their order.
pub proof fn lemma_recv_many(bus: BusModel, n: nat)
    requires
        n <= bus.queue.len(),
    ensures
        bus.recv_many(n) == (BusModel { queue: bus.queue.skip(n as int), ..bus }),
    decreases n,
{
    if n == 0 {
        assert(bus.queue.skip(0) =~= bus.queue);
    } else {
        lemma_recv_many(bus.recv(), (n - 1) as nat);
        assert(bus.queue.drop_first().skip(n - 1) =~= bus.queue.skip(n as int));
    }
}

/// A send to a full, open bus changes nothing and hands the event back; once
/// the receiver has taken one event, the same send is accepted. A send to a
/// closed bus is refused whatever room there is.
pub proof fn lemma_full_bus_keeps_events(bus: BusModel, event: Event)
    requires
        bus.wf(),
    ensures
        (!bus.closed && bus.queue.len() == bus.capacity) ==> {
            &&& bus.send_outcome(event) == SendOutcome::Full(event)
            &&& bus.send(event) == bus
        },
        (!bus.closed && bus.queue.len() == bus.capacity && bus.capacity > 0) ==> {
            &&& bus.recv().send_outcome(event) == SendOutcome::Accepted
            &&& bus.recv().send(event).queue == bus.queue.drop_first().push(event)
        },
        bus.closed ==> bus.send_outcome(event) == SendOutcome::Closed(event) && bus.send(event) == bus,
        bus.send(event).wf(),
        bus.send(event).queue.len() >= bus.queue.len(),
{
}

/// Over any run of sends, receipts and closings, what was queued at the
/// start followed by what was accepted equals what was delivered followed by
/// what is still queued: no event is lost, repeated or overtaken.
pub proof fn lemma_bus_neither_drops_nor_reorders(bus: BusModel, ops: Seq<BusOp>)
    requires
        bus.wf(),
    ensures
        bus.run(ops).wf(),
        bus.run(ops).capacity == bus.capacity,
        bus.queue + bus.accepted(ops) == bus.delivered(ops) + bus.run(ops).queue,
    decreases ops.len(),
{
    if ops.len() == 0 {
        assert(bus.queue + bus.accepted(ops) =~= bus.delivered(ops) + bus.run(ops).queue);
    } else {
        let next = bus.apply(ops[0]);
        let rest = ops.drop_first();
        lemma_bus_neither_drops_nor_reorders(next, rest);
        assert(next.queue + next.accepted(rest) == next.delivered(rest) + next.run(rest).queue);
        match ops[0] {
            BusOp::Send(event) => {
                if bus.send_outcome(event) == SendOutcome::Accepted {
                    assert(bus.queue + (seq![event] + next.accepted(rest)) =~= bus.queue.push(event)
                        + next.accepted(rest));
                } else {
                    assert(Seq::<Event>::empty() + next.accepted(rest) =~= next.accepted(rest));
                }
                assert(Seq::<Event>::empty() + next.delivered(rest) =~= next.delivered(rest));
            },
            BusOp::Recv => {
                assert(Seq::<Event>::empty() + next.accepted(rest) =~= next.accepted(rest));
                if bus.queue.len() > 0 {
                    assert(bus.queue =~= seq![bus.queue[0]] + bus.queue.drop_first());
                    assert(bus.queue + next.accepted(rest) =~= seq![bus.queue[0]] + (next.queue
                        + next.accepted(rest)));
                    assert((seq![bus.queue[0]] + next.delivered(rest)) + next.run(rest).queue
                        =~= seq![bus.queue[0]] + (next.delivered(rest) + next.run(rest).queue));
                } else {
                    assert(Seq::<Event>::empty() + next.delivered(rest) =~= next.delivered(rest));
                }
            },
            BusOp::Close => {
                assert(Seq::<Event>::empty() + next.accepted(rest) =~= next.accepted(rest));
                assert(Seq::<Event>::empty() + next.delivered(rest) =~= next.delivered(rest));
            },
        }
    }
}

} // verus!
