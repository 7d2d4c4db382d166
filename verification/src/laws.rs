//! Laws of the order lifecycle, proved from the contracts of the
//! handlers: what a chain of calls leaves in the store, that the
//! payment window is entered at most once, that counterparties never
//! disturb each other, and that order ids from distinct entropy never
//! collide.

use vstd::prelude::*;

use crate::errors::{APIError, LightningError};
use crate::event::LSPS1ServiceEvent;
use crate::msgs::{
    CounterpartyId, CreateOrderRequest, GetOrderRequest, LSPS1Message, OrderPayment, RequestId,
};
use crate::service::{EntropySource, LSPS1ServiceHandler};
use crate::utils::{hex_of, lemma_hex_of_injective};

verus! {

/// After one successful `CreateOrder` followed by one
/// `send_payment_details` for a counterparty with no recorded state,
/// the callback succeeds, exactly one order exists for that
/// counterparty, it is in the created (pre-payment) internal state, and
/// the pending entry for the request id is cleared.
pub proof fn lemma_one_order_after_payment_details<ES: EntropySource>(
    s0: LSPS1ServiceHandler<ES>,
    s1: LSPS1ServiceHandler<ES>,
    s2: LSPS1ServiceHandler<ES>,
    request_id: RequestId,
    c: CounterpartyId,
    params: CreateOrderRequest,
    payment: OrderPayment,
    created_at: i64,
    expires_at: i64,
    r1: Result<(), LightningError>,
    r2: Result<(), APIError>,
)
    requires
        !s0.peers().contains_key(c@),
        LSPS1ServiceHandler::create_order_effect(s0, s1, request_id, c, params, r1),
        r1 is Ok,
        LSPS1ServiceHandler::send_payment_details_effect(
            s1,
            s2,
            request_id,
            c,
            payment,
            created_at,
            expires_at,
            r2,
        ),
    ensures
        r2 is Ok,
        s2.peers().contains_key(c@),
        exists|oid: Seq<char>|
            #![auto]
            s2.peers()[c@].orders.dom() =~= set![oid] && s2.peers()[c@].orders[oid].state
                is OrderCreated,
        !s2.peers()[c@].pending.contains_key(request_id@),
{
    let oid = choose|order_id: crate::msgs::OrderId|
        #![auto]
        LSPS1ServiceHandler::send_payment_details_success(
            s1,
            s2,
            request_id,
            c,
            payment,
            created_at,
            expires_at,
            order_id,
        );
    assert(s1.peers()[c@].orders =~= Map::<Seq<char>, crate::channel::OutboundCRChannel>::empty());
    assert(s2.peers()[c@].orders.dom() =~= set![oid@]);
}

/// The first `GetOrder` poll against an order in the created state
/// succeeds: the order enters the payment-waiting state exactly once,
/// remains retrievable, and exactly one `CheckPaymentConfirmation`
/// event referencing the request is emitted.
pub proof fn lemma_first_poll<ES: EntropySource>(
    pre: LSPS1ServiceHandler<ES>,
    post: LSPS1ServiceHandler<ES>,
    request_id: RequestId,
    c: CounterpartyId,
    params: GetOrderRequest,
    r: Result<(), LightningError>,
)
    requires
        pre.peers().contains_key(c@),
        pre.peers()[c@].orders.contains_key(params.order_id@),
        pre.peers()[c@].orders[params.order_id@].state is OrderCreated,
        LSPS1ServiceHandler::get_order_effect(pre, post, request_id, c, params, r),
    ensures
        r is Ok,
        post.peers().contains_key(c@),
        post.peers()[c@].orders.contains_key(params.order_id@),
        post.peers()[c@].orders[params.order_id@].state is WaitingPayment,
        post.events() == pre.events().push(
            LSPS1ServiceEvent::CheckPaymentConfirmation {
                request_id,
                counterparty_node_id: c,
                order_id: params.order_id,
            },
        ),
{
}

/// A `GetOrder` poll against an order already in the payment-waiting
/// state fails: the order is removed from the store and exactly one
/// `Refund` event referencing that order id and request id is emitted.
/// In particular, after one poll entered the payment window, a second
/// poll of the same order can never succeed: the two never both
/// transition it.
pub proof fn lemma_second_poll<ES: EntropySource>(
    s1: LSPS1ServiceHandler<ES>,
    s2: LSPS1ServiceHandler<ES>,
    s3: LSPS1ServiceHandler<ES>,
    first_request_id: RequestId,
    second_request_id: RequestId,
    c: CounterpartyId,
    first_params: GetOrderRequest,
    second_params: GetOrderRequest,
    r1: Result<(), LightningError>,
    r2: Result<(), LightningError>,
)
    requires
        s1.peers().contains_key(c@),
        s1.peers()[c@].orders.contains_key(first_params.order_id@),
        s1.peers()[c@].orders[first_params.order_id@].state is OrderCreated,
        LSPS1ServiceHandler::get_order_effect(s1, s2, first_request_id, c, first_params, r1),
        second_params.order_id@ == first_params.order_id@,
        LSPS1ServiceHandler::get_order_effect(s2, s3, second_request_id, c, second_params, r2),
    ensures
        r1 is Ok,
        r2 is Err,
        !s3.peers()[c@].orders.contains_key(second_params.order_id@),
        s3.events() == s2.events().push(
            LSPS1ServiceEvent::Refund {
                request_id: second_request_id,
                counterparty_node_id: c,
                order_id: second_params.order_id,
            },
        ),
{
    lemma_first_poll(s1, s2, first_request_id, c, first_params, r1);
}

/// Handling a message addressed to one counterparty never changes any
/// other counterparty's state.
pub proof fn lemma_handle_message_isolation<ES: EntropySource>(
    pre: LSPS1ServiceHandler<ES>,
    post: LSPS1ServiceHandler<ES>,
    message: LSPS1Message,
    c: CounterpartyId,
    r: Result<(), LightningError>,
    d: Seq<char>,
)
    requires
        LSPS1ServiceHandler::handle_message_effect(pre, post, message, c, r),
        d != c@,
    ensures
        post.peer_view(d) =~~= pre.peer_view(d),
{
}

/// `send_payment_details` addressed to one counterparty never changes
/// any other counterparty's state.
pub proof fn lemma_send_payment_details_isolation<ES: EntropySource>(
    pre: LSPS1ServiceHandler<ES>,
    post: LSPS1ServiceHandler<ES>,
    request_id: RequestId,
    c: CounterpartyId,
    payment: OrderPayment,
    created_at: i64,
    expires_at: i64,
    r: Result<(), APIError>,
    d: Seq<char>,
)
    requires
        LSPS1ServiceHandler::send_payment_details_effect(
            pre,
            post,
            request_id,
            c,
            payment,
            created_at,
            expires_at,
            r,
        ),
        d != c@,
    ensures
        post.peer_view(d) =~~= pre.peer_view(d),
{
}

/// `update_order_status` never changes any counterparty's state at all.
pub proof fn lemma_update_order_status_isolation<ES: EntropySource>(
    pre: LSPS1ServiceHandler<ES>,
    post: LSPS1ServiceHandler<ES>,
    request_id: RequestId,
    c: CounterpartyId,
    order_id: crate::msgs::OrderId,
    order_state: crate::msgs::OrderState,
    channel: Option<crate::msgs::ChannelInfo>,
    r: Result<(), APIError>,
    d: Seq<char>,
)
    requires
        LSPS1ServiceHandler::update_order_status_effect(
            pre,
            post,
            request_id,
            c,
            order_id,
            order_state,
            channel,
            r,
        ),
    ensures
        post.peer_view(d) =~~= pre.peer_view(d),
{
}

/// Order ids generated from distinct entropy blocks are distinct: the
/// hex encoding of the drawn bytes never collides for different draws.
pub proof fn lemma_order_ids_distinct(a: Seq<u8>, b: Seq<u8>)
    requires
        a.len() == 16,
        b.len() == 16,
        a != b,
    ensures
        hex_of(a) != hex_of(b),
{
    if hex_of(a) == hex_of(b) {
        lemma_hex_of_injective(a, b);
        assert(a =~= b);
    }
}

} // verus!
