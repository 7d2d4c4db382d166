//! FIFO buffers decoupling the protocol core from its surroundings: one
//! for responses addressed to counterparties, one for events handed to
//! the business layer.

use vstd::prelude::*;

use crate::event::LSPS1ServiceEvent;
use crate::msgs::{CounterpartyId, LSPS1Message};

verus! {

/// Append-only FIFO buffer of protocol messages, each addressed to a
/// counterparty; consumers drain it at their own pace.
pub struct MessageQueue {
    queue: Vec<(CounterpartyId, LSPS1Message)>,
}

impl View for MessageQueue {
    type V = Seq<(CounterpartyId, LSPS1Message)>;

    closed spec fn view(&self) -> Seq<(CounterpartyId, LSPS1Message)> {
        self.queue@
    }
}

impl MessageQueue {
    /// An empty queue.
    pub fn new() -> (r: Self)
        ensures
            r@ =~= Seq::<(CounterpartyId, LSPS1Message)>::empty(),
    {
        MessageQueue { queue: Vec::new() }
    }

    /// Appends a message addressed to a counterparty.
    pub fn enqueue(&mut self, counterparty_node_id: CounterpartyId, message: LSPS1Message)
        ensures
            final(self)@ =~= old(self)@.push((counterparty_node_id, message)),
    {
        self.queue.push((counterparty_node_id, message));
    }

    /// Removes and returns everything queued, in order.
    pub fn get_and_clear(&mut self) -> (r: Vec<(CounterpartyId, LSPS1Message)>)
        ensures
            r@ == old(self)@,
            final(self)@ =~= Seq::<(CounterpartyId, LSPS1Message)>::empty(),
    {
        let mut out: Vec<(CounterpartyId, LSPS1Message)> = Vec::new();
        core::mem::swap(&mut out, &mut self.queue);
        out
    }
}

/// Append-only FIFO buffer of events for the business layer; consumers
/// drain it at their own pace.
pub struct EventQueue {
    queue: Vec<LSPS1ServiceEvent>,
}

impl View for EventQueue {
    type V = Seq<LSPS1ServiceEvent>;

    closed spec fn view(&self) -> Seq<LSPS1ServiceEvent> {
        self.queue@
    }
}

impl EventQueue {
    /// An empty queue.
    pub fn new() -> (r: Self)
        ensures
            r@ =~= Seq::<LSPS1ServiceEvent>::empty(),
    {
        EventQueue { queue: Vec::new() }
    }

    /// Appends an event.
    pub fn enqueue(&mut self, event: LSPS1ServiceEvent)
        ensures
            final(self)@ =~= old(self)@.push(event),
    {
        self.queue.push(event);
    }

    /// Removes and returns everything queued, in order.
    pub fn get_and_clear(&mut self) -> (r: Vec<LSPS1ServiceEvent>)
        ensures
            r@ == old(self)@,
            final(self)@ =~= Seq::<LSPS1ServiceEvent>::empty(),
    {
        let mut out: Vec<LSPS1ServiceEvent> = Vec::new();
        core::mem::swap(&mut out, &mut self.queue);
        out
    }
}

} // verus!
