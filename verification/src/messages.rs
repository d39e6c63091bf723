//! Message envelopes and the bounded FIFO queue between the message callback
//! and the handle's reader.

use vstd::prelude::*;

verus! {

/// One message as the external client's message callback delivered it.
#[derive(Clone, Debug, PartialEq, Eq)]
pub struct MessageEnvelope {
    pub topic: String,
    pub payload: String,
}

/// Mathematical image of an envelope: its two strings as character sequences.
#[verifier::ext_equal]
pub ghost struct EnvelopeModel {
    pub topic: Seq<char>,
    pub payload: Seq<char>,
}

impl View for MessageEnvelope {
    type V = EnvelopeModel;

    open spec fn view(&self) -> EnvelopeModel {
        EnvelopeModel { topic: self.topic@, payload: self.payload@ }
    }
}

/// A fixed-capacity, order-preserving buffer. The message callback pushes at
/// the back; the reader pops at the front; nothing is ever reordered or
/// dropped while it sits in the queue.
pub struct MessageQueue {
    items: Vec<MessageEnvelope>,
    capacity: usize,
}

impl View for MessageQueue {
    type V = Seq<EnvelopeModel>;

    closed spec fn view(&self) -> Seq<EnvelopeModel> {
        self.items@.map_values(|e: MessageEnvelope| e@)
    }
}

impl MessageQueue {
    /// The capacity the queue was created with.
    pub closed spec fn spec_capacity(&self) -> nat {
        self.capacity as nat
    }

    /// The queue never holds more than its capacity, and the capacity is at
    /// least one.
    pub open spec fn wf(&self) -> bool {
        self@.len() <= self.spec_capacity() && self.spec_capacity() >= 1
    }

    /// An empty queue of the given capacity.
    pub fn new(capacity: usize) -> (q: MessageQueue)
        requires
            capacity >= 1,
        ensures
            q@ == Seq::<EnvelopeModel>::empty(),
            q.spec_capacity() == capacity,
            q.wf(),
    {
        let q = MessageQueue { items: Vec::new(), capacity };
        proof {
            assert(q@ =~= Seq::<EnvelopeModel>::empty());
        }
        q
    }

    /// How many messages are queued.
    pub fn len(&self) -> (n: usize)
        ensures
            n == self@.len(),
    {
        self.items.len()
    }

    /// The capacity the queue was created with.
    pub fn capacity(&self) -> (c: usize)
        ensures
            c == self.spec_capacity(),
    {
        self.capacity
    }

    /// Appends a message at the back. The caller has checked that there is
    /// room; nothing already queued moves.
    pub fn push_back(&mut self, env: MessageEnvelope)
        requires
            old(self)@.len() < old(self).spec_capacity(),
        ensures
            final(self)@ == old(self)@.push(env@),
            final(self).spec_capacity() == old(self).spec_capacity(),
    {
        self.items.push(env);
        proof {
            assert(self@ =~= old(self)@.push(env@));
        }
    }

    /// Removes and returns the oldest message.
    pub fn pop_front(&mut self) -> (env: MessageEnvelope)
        requires
            old(self)@.len() > 0,
        ensures
            env@ == old(self)@[0],
            final(self)@ == old(self)@.drop_first(),
            final(self).spec_capacity() == old(self).spec_capacity(),
    {
        let env = self.items.remove(0);
        proof {
            assert(self@ =~= old(self)@.drop_first());
        }
        env
    }
}

} // verus!
