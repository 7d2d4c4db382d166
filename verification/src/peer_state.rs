//! The per-counterparty state: the counterparty's orders, the requests
//! awaiting a business-layer reply, and an auxiliary correlation map.

use vstd::prelude::*;

use crate::channel::OutboundCRChannel;
use crate::msgs::{CreateOrderRequest, LSPS1Request, OrderId, RequestId};
use crate::store::KvVec;

verus! {

/// The mathematical view of a counterparty's state: three maps keyed by
/// the views of the order and request identifiers.
#[verifier::ext_equal]
pub struct PeerView {
    /// Orders of the counterparty, by order id.
    pub orders: Map<Seq<char>, OutboundCRChannel>,
    /// Auxiliary correlation values, by request id.
    pub cids: Map<Seq<char>, u128>,
    /// Requests whose response awaits a business-layer callback, by
    /// request id.
    pub pending: Map<Seq<char>, LSPS1Request>,
}

/// The view of a counterparty with no recorded state.
pub open spec fn empty_peer() -> PeerView {
    PeerView {
        orders: Map::empty(),
        cids: Map::empty(),
        pending: Map::empty(),
    }
}

/// Mutable state of one counterparty.
pub struct PeerState {
    outbound_channels_by_order_id: KvVec<OrderId, OutboundCRChannel>,
    request_to_cid: KvVec<RequestId, u128>,
    pending_requests: KvVec<RequestId, LSPS1Request>,
}

impl View for PeerState {
    type V = PeerView;

    closed spec fn view(&self) -> PeerView {
        PeerView {
            orders: self.outbound_channels_by_order_id@,
            cids: self.request_to_cid@,
            pending: self.pending_requests@,
        }
    }
}

impl PeerState {
    /// The state's invariant: each of the three stores is well formed.
    pub closed spec fn wf(&self) -> bool {
        &&& self.outbound_channels_by_order_id.wf()
        &&& self.request_to_cid.wf()
        &&& self.pending_requests.wf()
    }

    /// A counterparty with no recorded state.
    pub fn new() -> (r: Self)
        ensures
            r.wf(),
            r@ =~~= empty_peer(),
    {
        PeerState {
            outbound_channels_by_order_id: KvVec::new(),
            request_to_cid: KvVec::new(),
            pending_requests: KvVec::new(),
        }
    }

    /// Records an order under its id, replacing any earlier order with
    /// the same id.
    pub fn insert_outbound_channel(&mut self, order_id: OrderId, channel: OutboundCRChannel)
        requires
            old(self).wf(),
        ensures
            final(self).wf(),
            final(self)@ =~~= (PeerView {
                orders: old(self)@.orders.insert(order_id@, channel),
                cids: old(self)@.cids,
                pending: old(self)@.pending,
            }),
    {
        self.outbound_channels_by_order_id.insert(order_id, channel);
    }

    /// Records a correlation value under a request id.
    pub fn insert_request(&mut self, request_id: RequestId, channel_id: u128)
        requires
            old(self).wf(),
        ensures
            final(self).wf(),
            final(self)@ =~~= (PeerView {
                orders: old(self)@.orders,
                cids: old(self)@.cids.insert(request_id@, channel_id),
                pending: old(self)@.pending,
            }),
    {
        self.request_to_cid.insert(request_id, channel_id);
    }

    /// Removes the order recorded under an id, if any.
    pub fn remove_outbound_channel(&mut self, order_id: &OrderId)
        requires
            old(self).wf(),
        ensures
            final(self).wf(),
            final(self)@ =~~= (PeerView {
                orders: old(self)@.orders.remove(order_id@),
                cids: old(self)@.cids,
                pending: old(self)@.pending,
            }),
    {
        self.outbound_channels_by_order_id.remove(order_id);
    }

    /// Removes and returns the order recorded under an id, if any.
    pub fn take_outbound_channel(&mut self, order_id: &OrderId) -> (r: Option<OutboundCRChannel>)
        requires
            old(self).wf(),
        ensures
            final(self).wf(),
            match r {
                Some(channel) => old(self)@.orders.contains_key(order_id@) && channel == old(
                    self,
                )@.orders[order_id@] && final(self)@ =~~= (PeerView {
                    orders: old(self)@.orders.remove(order_id@),
                    cids: old(self)@.cids,
                    pending: old(self)@.pending,
                }),
                None => !old(self)@.orders.contains_key(order_id@) && final(self)@ =~~= old(
                    self,
                )@,
            },
    {
        self.outbound_channels_by_order_id.take(order_id)
    }

    /// Records a request whose response is deferred until a
    /// business-layer callback supplies the missing data.
    pub fn insert_pending_request(&mut self, request_id: RequestId, request: LSPS1Request)
        requires
            old(self).wf(),
        ensures
            final(self).wf(),
            final(self)@ =~~= (PeerView {
                orders: old(self)@.orders,
                cids: old(self)@.cids,
                pending: old(self)@.pending.insert(request_id@, request),
            }),
    {
        self.pending_requests.insert(request_id, request);
    }

    /// Removes and returns the pending create-order request recorded
    /// under a request id. When the id holds no pending request, or one
    /// of another kind, nothing is changed.
    pub fn take_pending_create_order(&mut self, request_id: &RequestId) -> (r: Option<
        CreateOrderRequest,
    >)
        requires
            old(self).wf(),
        ensures
            final(self).wf(),
            match r {
                Some(params) => old(self)@.pending.contains_key(request_id@) && old(
                    self,
                )@.pending[request_id@] == LSPS1Request::CreateOrder(params) && final(self)@ =~~= (
                PeerView {
                    orders: old(self)@.orders,
                    cids: old(self)@.cids,
                    pending: old(self)@.pending.remove(request_id@),
                }),
                None => final(self)@ =~~= old(self)@ && !(old(self)@.pending.contains_key(
                    request_id@,
                ) && old(self)@.pending[request_id@] is CreateOrder),
            },
    {
        match self.pending_requests.take(request_id) {
            Some(request) => {
                match request {
                    LSPS1Request::CreateOrder(params) => Some(params),
                    other => {
                        let ghost pending0 = old(self)@.pending;
                        self.pending_requests.insert(request_id.clone(), other);
                        proof {
                            assert(pending0.remove(request_id@).insert(request_id@, other)
                                =~= pending0);
                        }
                        None
                    },
                }
            },
            None => None,
        }
    }

    /// The order recorded under an id, if any.
    pub fn get_outbound_channel(&self, order_id: &OrderId) -> (r: Option<&OutboundCRChannel>)
        requires
            self.wf(),
        ensures
            match r {
                Some(channel) => self@.orders.contains_key(order_id@) && *channel
                    == self@.orders[order_id@],
                None => !self@.orders.contains_key(order_id@),
            },
    {
        self.outbound_channels_by_order_id.get(order_id)
    }
}

} // verus!
