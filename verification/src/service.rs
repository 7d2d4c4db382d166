//! The main LSPS1 server object: routes client requests, owns the
//! per-counterparty state registry and the outbound message and event
//! queues, and exposes the two business-layer callback APIs.

use vstd::prelude::*;

use crate::channel::{OutboundCRChannel, OutboundLSPS1Config, OutboundRequestState};
use crate::errors::{APIError, ErrorAction, LightningError};
use crate::event::LSPS1ServiceEvent;
use crate::msgs::{
    ChannelInfo, CounterpartyId, CreateOrderRequest, CreateOrderResponse, GetInfoResponse,
    GetOrderRequest, LSPS1Message, LSPS1Request, LSPS1Response, OptionsSupported, OrderId,
    OrderPayment, OrderState, RequestId, ResponseError,
    LSPS1_CREATE_ORDER_REQUEST_ORDER_MISMATCH_ERROR_CODE,
};
use crate::peer_state::{empty_peer, PeerState, PeerView};
use crate::queues::{EventQueue, MessageQueue};
use crate::store::KvVec;
use crate::utils::{
    describe_options, hex_of, hex_str_prefix, is_valid, options_description, spec_is_valid,
};

verus! {

/// A source of cryptographically secure random bytes, supplied by the
/// embedding application at construction. Implementations must not
/// reuse state across calls; collision probability is the source's
/// responsibility.
pub trait EntropySource {
    /// Draws a fresh block of 32 secure random bytes.
    fn get_secure_random_bytes(&self) -> (r: Vec<u8>)
        ensures
            r@.len() == 32,
    ;
}

/// Server-side configuration options for LSPS1 channel requests.
#[derive(Debug)]
pub struct LSPS1ServiceConfig {
    /// A token to be sent with each channel request.
    pub token: Option<String>,
    /// The options supported by the LSP.
    pub options_supported: Option<OptionsSupported>,
    /// The LSP's website.
    pub website: Option<String>,
}

impl Clone for LSPS1ServiceConfig {
    fn clone(&self) -> (r: Self)
        ensures
            r == *self,
    {
        LSPS1ServiceConfig {
            token: match &self.token {
                Some(token) => Some(token.clone()),
                None => None,
            },
            options_supported: self.options_supported,
            website: match &self.website {
                Some(website) => Some(website.clone()),
                None => None,
            },
        }
    }
}

/// The human-readable message of the order-mismatch error response.
pub open spec fn order_mismatch_message() -> Seq<char> {
    "Order does not match options supported by LSP server"@
}

/// The main object allowing to send and receive LSPS1 messages.
pub struct LSPS1ServiceHandler<ES: EntropySource> {
    entropy_source: ES,
    pending_messages: MessageQueue,
    pending_events: EventQueue,
    per_peer_state: KvVec<CounterpartyId, PeerState>,
    config: LSPS1ServiceConfig,
}

impl<ES: EntropySource> LSPS1ServiceHandler<ES> {
    /// The per-counterparty state, as a map from counterparty identity
    /// to the counterparty's view.
    pub closed spec fn peers(&self) -> Map<Seq<char>, PeerView> {
        Map::new(
            |c: Seq<char>| self.per_peer_state@.contains_key(c),
            |c: Seq<char>| self.per_peer_state@[c]@,
        )
    }

    /// The view of one counterparty; a counterparty with no recorded
    /// state has the empty view.
    pub open spec fn peer_view(&self, c: Seq<char>) -> PeerView {
        if self.peers().contains_key(c) {
            self.peers()[c]
        } else {
            empty_peer()
        }
    }

    /// The responses queued for sending, oldest first.
    pub closed spec fn messages(&self) -> Seq<(CounterpartyId, LSPS1Message)> {
        self.pending_messages@
    }

    /// The events queued for the business layer, oldest first.
    pub closed spec fn events(&self) -> Seq<LSPS1ServiceEvent> {
        self.pending_events@
    }

    /// The configuration the handler was constructed with.
    pub closed spec fn configuration(&self) -> LSPS1ServiceConfig {
        self.config
    }

    /// The handler's invariant: the registry and every counterparty's
    /// state are well formed.
    pub closed spec fn wf(&self) -> bool {
        &&& self.per_peer_state.wf()
        &&& forall|c: Seq<char>|
            #[trigger] self.per_peer_state@.contains_key(c) ==> self.per_peer_state@[c].wf()
    }

    /// Neither the store, the queues, nor the configuration changed.
    pub open spec fn state_unchanged(pre: Self, post: Self) -> bool {
        &&& post.peers() =~~= pre.peers()
        &&& post.messages() == pre.messages()
        &&& post.events() == pre.events()
        &&& post.configuration() == pre.configuration()
    }

    /// Constructs an `LSPS1ServiceHandler` with an empty registry and
    /// empty queues.
    pub fn new(entropy_source: ES, config: LSPS1ServiceConfig) -> (r: Self)
        ensures
            r.wf(),
            r.peers() =~~= Map::<Seq<char>, PeerView>::empty(),
            r.messages() =~= Seq::<(CounterpartyId, LSPS1Message)>::empty(),
            r.events() =~= Seq::<LSPS1ServiceEvent>::empty(),
            r.configuration() == config,
    {
        LSPS1ServiceHandler {
            entropy_source,
            pending_messages: MessageQueue::new(),
            pending_events: EventQueue::new(),
            per_peer_state: KvVec::new(),
            config,
        }
    }

    /// Removes and returns all queued responses, in order.
    pub fn get_and_clear_pending_messages(&mut self) -> (r: Vec<(CounterpartyId, LSPS1Message)>)
        requires
            old(self).wf(),
        ensures
            final(self).wf(),
            r@ == old(self).messages(),
            final(self).messages() =~= Seq::<(CounterpartyId, LSPS1Message)>::empty(),
            final(self).peers() =~~= old(self).peers(),
            final(self).events() == old(self).events(),
            final(self).configuration() == old(self).configuration(),
    {
        self.pending_messages.get_and_clear()
    }

    /// Removes and returns all queued events, in order.
    pub fn get_and_clear_pending_events(&mut self) -> (r: Vec<LSPS1ServiceEvent>)
        requires
            old(self).wf(),
        ensures
            final(self).wf(),
            r@ == old(self).events(),
            final(self).events() =~= Seq::<LSPS1ServiceEvent>::empty(),
            final(self).peers() =~~= old(self).peers(),
            final(self).messages() == old(self).messages(),
            final(self).configuration() == old(self).configuration(),
    {
        self.pending_events.get_and_clear()
    }

    /// What one `GetInfo` request does: with website and supported
    /// options configured, it queues a `GetInfo` response for the
    /// counterparty; with either absent, the configuration fault is
    /// reported to the local caller and nothing changes.
    pub open spec fn get_info_effect(
        pre: Self,
        post: Self,
        request_id: RequestId,
        c: CounterpartyId,
        r: Result<(), LightningError>,
    ) -> bool {
        match (pre.configuration().website, pre.configuration().options_supported) {
            (Some(website), Some(options)) => {
                &&& r is Ok
                &&& post.messages() == pre.messages().push(
                    (
                        c,
                        LSPS1Message::Response(
                            request_id,
                            LSPS1Response::GetInfo(GetInfoResponse { website, options }),
                        ),
                    ),
                )
                &&& post.peers() =~~= pre.peers()
                &&& post.events() == pre.events()
                &&& post.configuration() == pre.configuration()
            },
            _ => {
                &&& r is Err
                &&& Self::state_unchanged(pre, post)
            },
        }
    }

    fn handle_get_info_request(
        &mut self,
        request_id: RequestId,
        counterparty_node_id: &CounterpartyId,
    ) -> (r: Result<(), LightningError>)
        requires
            old(self).wf(),
        ensures
            final(self).wf(),
            Self::get_info_effect(*old(self), *final(self), request_id, *counterparty_node_id, r),
    {
        let website = match &self.config.website {
            Some(website) => website.clone(),
            None => {
                return Err(
                    LightningError {
                        err: String::from_str("Configuration for LSP server not set."),
                        action: ErrorAction::IgnoreAndLog,
                    },
                );
            },
        };
        let options = match &self.config.options_supported {
            Some(options) => *options,
            None => {
                return Err(
                    LightningError {
                        err: String::from_str("Configuration for LSP server not set."),
                        action: ErrorAction::IgnoreAndLog,
                    },
                );
            },
        };
        self.enqueue_response(
            counterparty_node_id,
            request_id,
            LSPS1Response::GetInfo(GetInfoResponse { website, options }),
        );
        Ok(())
    }

    fn enqueue_response(
        &mut self,
        counterparty_node_id: &CounterpartyId,
        request_id: RequestId,
        response: LSPS1Response,
    )
        requires
            old(self).wf(),
        ensures
            final(self).wf(),
            final(self).messages() == old(self).messages().push(
                (*counterparty_node_id, LSPS1Message::Response(request_id, response)),
            ),
            final(self).peers() =~~= old(self).peers(),
            final(self).events() == old(self).events(),
            final(self).configuration() == old(self).configuration(),
    {
        self.pending_messages.enqueue(
            counterparty_node_id.clone(),
            LSPS1Message::Response(request_id, response),
        );
    }

    /// Binding a well-formed peer state in the registry updates the
    /// peers view at that counterparty and preserves the invariant.
    proof fn lemma_registry_insert(pre: Self, post: Self, cv: Seq<char>, ps: PeerState)
        requires
            pre.wf(),
            post.per_peer_state.wf(),
            ps.wf(),
            post.per_peer_state@ == pre.per_peer_state@.insert(cv, ps),
        ensures
            post.wf(),
            post.peers() =~~= pre.peers().insert(cv, ps@),
    {
        assert forall|c: Seq<char>| #[trigger] post.per_peer_state@.contains_key(c) implies post
            .per_peer_state@[c].wf() by {
            if c != cv {
                assert(post.per_peer_state@[c] == pre.per_peer_state@[c]);
            }
        }
    }

    /// Rebinding a counterparty to a state with its old view leaves the
    /// peers view unchanged.
    proof fn lemma_registry_reinsert(pre: Self, post: Self, cv: Seq<char>, ps: PeerState)
        requires
            pre.wf(),
            post.per_peer_state.wf(),
            ps.wf(),
            pre.per_peer_state@.contains_key(cv),
            ps@ =~~= pre.per_peer_state@[cv]@,
            post.per_peer_state@ == pre.per_peer_state@.insert(cv, ps),
        ensures
            post.wf(),
            post.peers() =~~= pre.peers(),
    {
        Self::lemma_registry_insert(pre, post, cv, ps);
    }

    fn generate_order_id(&self) -> (r: OrderId)
        ensures
            exists|b: Seq<u8>| b.len() == 16 && r@ == hex_of(b),
    {
        let bytes = self.entropy_source.get_secure_random_bytes();
        let encoded = hex_str_prefix(&bytes, 16);
        proof {
            assert(bytes@.take(16).len() == 16);
        }
        OrderId(encoded)
    }

    /// What one `CreateOrder` request does. With no supported options
    /// configured, the configuration fault is reported and nothing
    /// changes. With an order outside the advertised ranges, a
    /// `CreateOrderError` carrying the mismatch code and the supported
    /// options as diagnostic data is queued for the counterparty, the
    /// failure is reported locally, and no state is created. With a
    /// valid order, the request is recorded as pending under its id and
    /// a `RequestForPaymentDetails` event is emitted; no response is
    /// queued yet.
    pub open spec fn create_order_effect(
        pre: Self,
        post: Self,
        request_id: RequestId,
        c: CounterpartyId,
        params: CreateOrderRequest,
        r: Result<(), LightningError>,
    ) -> bool {
        match pre.configuration().options_supported {
            None => r is Err && Self::state_unchanged(pre, post),
            Some(options) => {
                if !spec_is_valid(params.order, options) {
                    &&& r is Err
                    &&& post.peers() =~~= pre.peers()
                    &&& post.events() == pre.events()
                    &&& post.configuration() == pre.configuration()
                    &&& exists|e: ResponseError|
                        #![auto]
                        {
                            &&& e.code == LSPS1_CREATE_ORDER_REQUEST_ORDER_MISMATCH_ERROR_CODE
                            &&& e.message@ == order_mismatch_message()
                            &&& e.data matches Some(d) && d@ == options_description(options)
                            &&& post.messages() == pre.messages().push(
                                (
                                    c,
                                    LSPS1Message::Response(
                                        request_id,
                                        LSPS1Response::CreateOrderError(e),
                                    ),
                                ),
                            )
                        }
                } else {
                    &&& r is Ok
                    &&& post.peers() =~~= pre.peers().insert(
                        c@,
                        PeerView {
                            orders: pre.peer_view(c@).orders,
                            cids: pre.peer_view(c@).cids,
                            pending: pre.peer_view(c@).pending.insert(
                                request_id@,
                                LSPS1Request::CreateOrder(params),
                            ),
                        },
                    )
                    &&& post.messages() == pre.messages()
                    &&& post.events() == pre.events().push(
                        LSPS1ServiceEvent::RequestForPaymentDetails {
                            request_id,
                            counterparty_node_id: c,
                            order: params.order,
                        },
                    )
                    &&& post.configuration() == pre.configuration()
                }
            },
        }
    }

    fn handle_create_order_request(
        &mut self,
        request_id: RequestId,
        counterparty_node_id: &CounterpartyId,
        params: CreateOrderRequest,
    ) -> (r: Result<(), LightningError>)
        requires
            old(self).wf(),
        ensures
            final(self).wf(),
            Self::create_order_effect(
                *old(self),
                *final(self),
                request_id,
                *counterparty_node_id,
                params,
                r,
            ),
    {
        let options = match &self.config.options_supported {
            Some(options) => *options,
            None => {
                return Err(
                    LightningError {
                        err: String::from_str("Configuration for LSP server not set."),
                        action: ErrorAction::IgnoreAndLog,
                    },
                );
            },
        };
        if !is_valid(&params.order, &options) {
            let error = ResponseError {
                code: LSPS1_CREATE_ORDER_REQUEST_ORDER_MISMATCH_ERROR_CODE,
                message: String::from_str("Order does not match options supported by LSP server"),
                data: Some(describe_options(&options)),
            };
            let ghost witness = error;
            self.enqueue_response(
                counterparty_node_id,
                request_id,
                LSPS1Response::CreateOrderError(error),
            );
            proof {
                assert(self.messages() == old(self).messages().push(
                    (
                        *counterparty_node_id,
                        LSPS1Message::Response(
                            request_id,
                            LSPS1Response::CreateOrderError(witness),
                        ),
                    ),
                ));
                assert(witness.code == LSPS1_CREATE_ORDER_REQUEST_ORDER_MISMATCH_ERROR_CODE);
                assert(witness.message@ == order_mismatch_message());
                assert(witness.data matches Some(d) && d@ == options_description(options));
                assert(exists|e: ResponseError|
                    #![auto]
                    {
                        &&& e.code == LSPS1_CREATE_ORDER_REQUEST_ORDER_MISMATCH_ERROR_CODE
                        &&& e.message@ == order_mismatch_message()
                        &&& e.data matches Some(d) && d@ == options_description(options)
                        &&& self.messages() == old(self).messages().push(
                            (
                                *counterparty_node_id,
                                LSPS1Message::Response(
                                    request_id,
                                    LSPS1Response::CreateOrderError(e),
                                ),
                            ),
                        )
                    });
            }
            return Err(
                LightningError {
                    err: String::from_str("Client order does not match any supported options"),
                    action: ErrorAction::IgnoreAndLog,
                },
            );
        }
        let mut peer = match self.per_peer_state.take(counterparty_node_id) {
            Some(peer) => peer,
            None => PeerState::new(),
        };
        peer.insert_pending_request(request_id.clone(), LSPS1Request::CreateOrder(params));
        self.per_peer_state.insert(counterparty_node_id.clone(), peer);
        proof {
            let cv = counterparty_node_id@;
            assert(self.per_peer_state@ =~= old(self).per_peer_state@.insert(cv, peer));
            Self::lemma_registry_insert(*old(self), *self, cv, peer);
            assert(peer@ =~~= PeerView {
                orders: old(self).peer_view(cv).orders,
                cids: old(self).peer_view(cv).cids,
                pending: old(self).peer_view(cv).pending.insert(
                    request_id@,
                    LSPS1Request::CreateOrder(params),
                ),
            });
        }
        self.pending_events.enqueue(
            LSPS1ServiceEvent::RequestForPaymentDetails {
                request_id,
                counterparty_node_id: counterparty_node_id.clone(),
                order: params.order,
            },
        );
        Ok(())
    }

    /// What one successful `send_payment_details` call records and
    /// queues, for the order id it generated.
    pub open spec fn send_payment_details_success(
        pre: Self,
        post: Self,
        request_id: RequestId,
        c: CounterpartyId,
        payment: OrderPayment,
        created_at: i64,
        expires_at: i64,
        order_id: OrderId,
    ) -> bool {
        let pv = pre.peers()[c@];
        let params = pv.pending[request_id@]->CreateOrder_0;
        &&& (exists|b: Seq<u8>| b.len() == 16 && order_id@ == hex_of(b))
        &&& post.peers() =~~= pre.peers().insert(
            c@,
            PeerView {
                orders: pv.orders.insert(
                    order_id@,
                    OutboundCRChannel {
                        state: OutboundRequestState::OrderCreated { order_id },
                        config: OutboundLSPS1Config {
                            order: params.order,
                            created_at,
                            expires_at,
                            payment,
                        },
                    },
                ),
                cids: pv.cids,
                pending: pv.pending.remove(request_id@),
            },
        )
        &&& post.messages() == pre.messages().push(
            (
                c,
                LSPS1Message::Response(
                    request_id,
                    LSPS1Response::CreateOrder(
                        CreateOrderResponse {
                            order: params.order,
                            order_id,
                            order_state: OrderState::Created,
                            created_at,
                            expires_at,
                            payment,
                            channel: None,
                        },
                    ),
                ),
            ),
        )
        &&& post.events() == pre.events()
        &&& post.configuration() == pre.configuration()
    }

    /// What one `send_payment_details` call does: with a pending
    /// create-order request recorded under the request id for the
    /// counterparty, it removes that pending entry, records a fresh
    /// order in the created state under a generated order id, and queues
    /// the `CreateOrder` response carrying the order id and payment
    /// terms. Otherwise it fails with a misuse error and mutates
    /// nothing.
    pub open spec fn send_payment_details_effect(
        pre: Self,
        post: Self,
        request_id: RequestId,
        c: CounterpartyId,
        payment: OrderPayment,
        created_at: i64,
        expires_at: i64,
        r: Result<(), APIError>,
    ) -> bool {
        if pre.peers().contains_key(c@) && pre.peers()[c@].pending.contains_key(request_id@)
            && pre.peers()[c@].pending[request_id@] is CreateOrder {
            &&& r is Ok
            &&& exists|order_id: OrderId|
                #![auto]
                Self::send_payment_details_success(
                    pre,
                    post,
                    request_id,
                    c,
                    payment,
                    created_at,
                    expires_at,
                    order_id,
                )
        } else {
            &&& r is Err
            &&& Self::state_unchanged(pre, post)
        }
    }

    /// Used by the LSP to provide payment details to a client after a
    /// `RequestForPaymentDetails` event, completing the deferred
    /// `CreateOrder` response.
    pub fn send_payment_details(
        &mut self,
        request_id: RequestId,
        counterparty_node_id: &CounterpartyId,
        payment: OrderPayment,
        created_at: i64,
        expires_at: i64,
    ) -> (r: Result<(), APIError>)
        requires
            old(self).wf(),
        ensures
            final(self).wf(),
            Self::send_payment_details_effect(
                *old(self),
                *final(self),
                request_id,
                *counterparty_node_id,
                payment,
                created_at,
                expires_at,
                r,
            ),
    {
        let mut peer = match self.per_peer_state.take(counterparty_node_id) {
            Some(peer) => peer,
            None => {
                return Err(
                    APIError::APIMisuseError {
                        err: String::from_str("No state for the counterparty exists"),
                    },
                );
            },
        };
        match peer.take_pending_create_order(&request_id) {
            Some(params) => {
                let order_id = self.generate_order_id();
                let channel = OutboundCRChannel::new(
                    params.order,
                    created_at,
                    expires_at,
                    order_id.clone(),
                    payment.clone(),
                );
                peer.insert_outbound_channel(order_id.clone(), channel);
                self.per_peer_state.insert(counterparty_node_id.clone(), peer);
                proof {
                    let cv = counterparty_node_id@;
                    assert(self.per_peer_state@ =~= old(self).per_peer_state@.insert(cv, peer));
                    Self::lemma_registry_insert(*old(self), *self, cv, peer);
                }
                let ghost generated = order_id;
                self.enqueue_response(
                    counterparty_node_id,
                    request_id,
                    LSPS1Response::CreateOrder(
                        CreateOrderResponse {
                            order: params.order,
                            order_id,
                            order_state: OrderState::Created,
                            created_at,
                            expires_at,
                            payment,
                            channel: None,
                        },
                    ),
                );
                proof {
                    assert(Self::send_payment_details_success(
                        *old(self),
                        *self,
                        request_id,
                        *counterparty_node_id,
                        payment,
                        created_at,
                        expires_at,
                        generated,
                    ));
                }
                Ok(())
            },
            None => {
                self.per_peer_state.insert(counterparty_node_id.clone(), peer);
                proof {
                    let cv = counterparty_node_id@;
                    assert(self.per_peer_state@ =~= old(self).per_peer_state@.insert(cv, peer));
                    Self::lemma_registry_reinsert(*old(self), *self, cv, peer);
                }
                Err(
                    APIError::APIMisuseError {
                        err: String::from_str("No pending buy request for the request id"),
                    },
                )
            },
        }
    }

    /// The order's state after its forward transition.
    pub open spec fn transitioned(channel: OutboundCRChannel) -> OutboundCRChannel {
        OutboundCRChannel {
            state: OutboundRequestState::WaitingPayment {
                order_id: channel.state->OrderCreated_order_id,
            },
            config: channel.config,
        }
    }

    /// What one `GetOrder` request does: for an unknown counterparty or
    /// an unknown order id, the request is rejected and nothing
    /// changes. For an order whose payment window was not yet entered,
    /// the order moves to the payment-waiting state, the request is
    /// recorded as pending, and a `CheckPaymentConfirmation` event is
    /// emitted. For an order in any later state, the order is removed
    /// from the store, a `Refund` event is emitted, and the state error
    /// is reported to the local caller.
    pub open spec fn get_order_effect(
        pre: Self,
        post: Self,
        request_id: RequestId,
        c: CounterpartyId,
        params: GetOrderRequest,
        r: Result<(), LightningError>,
    ) -> bool {
        let cv = c@;
        let oid = params.order_id@;
        if !pre.peers().contains_key(cv) {
            r is Err && Self::state_unchanged(pre, post)
        } else if !pre.peers()[cv].orders.contains_key(oid) {
            r is Err && Self::state_unchanged(pre, post)
        } else {
            let pv = pre.peers()[cv];
            let channel = pv.orders[oid];
            if channel.state is OrderCreated {
                &&& r is Ok
                &&& post.peers() =~~= pre.peers().insert(
                    cv,
                    PeerView {
                        orders: pv.orders.insert(oid, Self::transitioned(channel)),
                        cids: pv.cids,
                        pending: pv.pending.insert(request_id@, LSPS1Request::GetOrder(params)),
                    },
                )
                &&& post.events() == pre.events().push(
                    LSPS1ServiceEvent::CheckPaymentConfirmation {
                        request_id,
                        counterparty_node_id: c,
                        order_id: params.order_id,
                    },
                )
                &&& post.messages() == pre.messages()
                &&& post.configuration() == pre.configuration()
            } else {
                &&& r is Err
                &&& post.peers() =~~= pre.peers().insert(
                    cv,
                    PeerView { orders: pv.orders.remove(oid), cids: pv.cids, pending: pv.pending },
                )
                &&& post.events() == pre.events().push(
                    LSPS1ServiceEvent::Refund {
                        request_id,
                        counterparty_node_id: c,
                        order_id: params.order_id,
                    },
                )
                &&& post.messages() == pre.messages()
                &&& post.configuration() == pre.configuration()
            }
        }
    }

    fn handle_get_order_request(
        &mut self,
        request_id: RequestId,
        counterparty_node_id: &CounterpartyId,
        params: GetOrderRequest,
    ) -> (r: Result<(), LightningError>)
        requires
            old(self).wf(),
        ensures
            final(self).wf(),
            Self::get_order_effect(
                *old(self),
                *final(self),
                request_id,
                *counterparty_node_id,
                params,
                r,
            ),
    {
        let mut peer = match self.per_peer_state.take(counterparty_node_id) {
            Some(peer) => peer,
            None => {
                return Err(
                    LightningError {
                        err: String::from_str(
                            "Received get order request from an unknown counterparty",
                        ),
                        action: ErrorAction::IgnoreAndLog,
                    },
                );
            },
        };
        match peer.take_outbound_channel(&params.order_id) {
            None => {
                self.per_peer_state.insert(counterparty_node_id.clone(), peer);
                proof {
                    let cv = counterparty_node_id@;
                    assert(self.per_peer_state@ =~= old(self).per_peer_state@.insert(cv, peer));
                    Self::lemma_registry_reinsert(*old(self), *self, cv, peer);
                }
                let mut message = String::from_str(
                    "Received get order request for unknown order id: ",
                );
                message.append(params.order_id.0.as_str());
                Err(LightningError { err: message, action: ErrorAction::IgnoreAndLog })
            },
            Some(mut channel) => {
                match channel.awaiting_payment() {
                    Ok(()) => {
                        peer.insert_outbound_channel(params.order_id.clone(), channel);
                        peer.insert_pending_request(
                            request_id.clone(),
                            LSPS1Request::GetOrder(params.clone()),
                        );
                        self.per_peer_state.insert(counterparty_node_id.clone(), peer);
                        proof {
                            let cv = counterparty_node_id@;
                            assert(self.per_peer_state@ =~= old(self).per_peer_state@.insert(
                                cv,
                                peer,
                            ));
                            Self::lemma_registry_insert(*old(self), *self, cv, peer);
                            let pv = old(self).peers()[cv];
                            assert(peer@ =~~= PeerView {
                                orders: pv.orders.insert(
                                    params.order_id@,
                                    Self::transitioned(pv.orders[params.order_id@]),
                                ),
                                cids: pv.cids,
                                pending: pv.pending.insert(
                                    request_id@,
                                    LSPS1Request::GetOrder(params),
                                ),
                            });
                        }
                        self.pending_events.enqueue(
                            LSPS1ServiceEvent::CheckPaymentConfirmation {
                                request_id,
                                counterparty_node_id: counterparty_node_id.clone(),
                                order_id: params.order_id,
                            },
                        );
                        Ok(())
                    },
                    Err(e) => {
                        self.per_peer_state.insert(counterparty_node_id.clone(), peer);
                        proof {
                            let cv = counterparty_node_id@;
                            assert(self.per_peer_state@ =~= old(self).per_peer_state@.insert(
                                cv,
                                peer,
                            ));
                            Self::lemma_registry_insert(*old(self), *self, cv, peer);
                            let pv = old(self).peers()[cv];
                            assert(peer@ =~~= PeerView {
                                orders: pv.orders.remove(params.order_id@),
                                cids: pv.cids,
                                pending: pv.pending,
                            });
                        }
                        self.pending_events.enqueue(
                            LSPS1ServiceEvent::Refund {
                                request_id,
                                counterparty_node_id: counterparty_node_id.clone(),
                                order_id: params.order_id,
                            },
                        );
                        Err(e)
                    },
                }
            },
        }
    }

    /// What one `update_order_status` call does: with the order
    /// recorded for the counterparty, it queues a `GetOrder` response
    /// echoing the order's immutable configuration together with the
    /// caller-supplied status label and channel details, and touches no
    /// state; the internal state machine is not consulted. Otherwise it
    /// fails with a misuse error and mutates nothing.
    pub open spec fn update_order_status_effect(
        pre: Self,
        post: Self,
        request_id: RequestId,
        c: CounterpartyId,
        order_id: OrderId,
        order_state: OrderState,
        channel: Option<ChannelInfo>,
        r: Result<(), APIError>,
    ) -> bool {
        if pre.peers().contains_key(c@) && pre.peers()[c@].orders.contains_key(order_id@) {
            let cfg = pre.peers()[c@].orders[order_id@].config;
            &&& r is Ok
            &&& post.messages() == pre.messages().push(
                (
                    c,
                    LSPS1Message::Response(
                        request_id,
                        LSPS1Response::GetOrder(
                            CreateOrderResponse {
                                order: cfg.order,
                                order_id,
                                order_state,
                                created_at: cfg.created_at,
                                expires_at: cfg.expires_at,
                                payment: cfg.payment,
                                channel,
                            },
                        ),
                    ),
                ),
            )
            &&& post.peers() =~~= pre.peers()
            &&& post.events() == pre.events()
            &&& post.configuration() == pre.configuration()
        } else {
            r is Err && Self::state_unchanged(pre, post)
        }
    }

    /// Used by the LSP to report the current status of an order to its
    /// client, normally after a `CheckPaymentConfirmation` event and
    /// potentially repeatedly thereafter. The reported status label is
    /// independent of the order's internal state machine.
    pub fn update_order_status(
        &mut self,
        request_id: RequestId,
        counterparty_node_id: CounterpartyId,
        order_id: OrderId,
        order_state: OrderState,
        channel: Option<ChannelInfo>,
    ) -> (r: Result<(), APIError>)
        requires
            old(self).wf(),
        ensures
            final(self).wf(),
            Self::update_order_status_effect(
                *old(self),
                *final(self),
                request_id,
                counterparty_node_id,
                order_id,
                order_state,
                channel,
                r,
            ),
    {
        let response = match self.per_peer_state.get(&counterparty_node_id) {
            Some(peer) => {
                match peer.get_outbound_channel(&order_id) {
                    Some(outbound_channel) => {
                        CreateOrderResponse {
                            order: outbound_channel.config.order,
                            order_id,
                            order_state,
                            created_at: outbound_channel.config.created_at,
                            expires_at: outbound_channel.config.expires_at,
                            payment: outbound_channel.config.payment.clone(),
                            channel,
                        }
                    },
                    None => {
                        return Err(
                            APIError::APIMisuseError {
                                err: String::from_str("Channel with the order id not found"),
                            },
                        );
                    },
                }
            },
            None => {
                return Err(
                    APIError::APIMisuseError {
                        err: String::from_str("No existing state with the counterparty"),
                    },
                );
            },
        };
        self.enqueue_response(
            &counterparty_node_id,
            request_id,
            LSPS1Response::GetOrder(response),
        );
        Ok(())
    }

    /// What handling one protocol message does: requests are routed to
    /// their handler; a response message is a protocol violation,
    /// rejected without mutating any state.
    pub open spec fn handle_message_effect(
        pre: Self,
        post: Self,
        message: LSPS1Message,
        c: CounterpartyId,
        r: Result<(), LightningError>,
    ) -> bool {
        match message {
            LSPS1Message::Request(request_id, request) => match request {
                LSPS1Request::GetInfo(_) => Self::get_info_effect(pre, post, request_id, c, r),
                LSPS1Request::CreateOrder(params) => Self::create_order_effect(
                    pre,
                    post,
                    request_id,
                    c,
                    params,
                    r,
                ),
                LSPS1Request::GetOrder(params) => Self::get_order_effect(
                    pre,
                    post,
                    request_id,
                    c,
                    params,
                    r,
                ),
            },
            LSPS1Message::Response(_, _) => r is Err && Self::state_unchanged(pre, post),
        }
    }

    /// The only entry point invoked by the transport layer: routes an
    /// incoming message to the matching handler.
    pub fn handle_message(
        &mut self,
        message: LSPS1Message,
        counterparty_node_id: &CounterpartyId,
    ) -> (r: Result<(), LightningError>)
        requires
            old(self).wf(),
        ensures
            final(self).wf(),
            Self::handle_message_effect(
                *old(self),
                *final(self),
                message,
                *counterparty_node_id,
                r,
            ),
    {
        match message {
            LSPS1Message::Request(request_id, request) => match request {
                LSPS1Request::GetInfo(_) => {
                    self.handle_get_info_request(request_id, counterparty_node_id)
                },
                LSPS1Request::CreateOrder(params) => {
                    self.handle_create_order_request(request_id, counterparty_node_id, params)
                },
                LSPS1Request::GetOrder(params) => {
                    self.handle_get_order_request(request_id, counterparty_node_id, params)
                },
            },
            LSPS1Message::Response(_, _) => {
                Err(
                    LightningError {
                        err: String::from_str(
                            "Service handler received LSPS1 response message. This should never happen.",
                        ),
                        action: ErrorAction::IgnoreAndLog,
                    },
                )
            },
        }
    }
}

} // verus!
