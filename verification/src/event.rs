//! Events emitted by the service for the embedding application: requests
//! for pricing work, payment checks, and refunds.

use vstd::prelude::*;

use crate::msgs::{CounterpartyId, OrderId, OrderParams, RequestId};

verus! {

/// An asynchronous notification raised by the service for the business
/// layer to act on. The response to the client is deferred until the
/// business layer calls back with the missing data.
#[derive(Debug, PartialEq, Eq)]
pub enum LSPS1ServiceEvent {
    /// A valid order was submitted; the business layer should supply
    /// payment details through `send_payment_details`.
    RequestForPaymentDetails {
        /// Identifier of the client request awaiting a response.
        request_id: RequestId,
        /// The counterparty that submitted the order.
        counterparty_node_id: CounterpartyId,
        /// The requested channel parameters.
        order: OrderParams,
    },
    /// An order entered the payment-waiting state; the business layer
    /// should check for payment and report through `update_order_status`.
    CheckPaymentConfirmation {
        /// Identifier of the client request awaiting a response.
        request_id: RequestId,
        /// The counterparty that polled the order.
        counterparty_node_id: CounterpartyId,
        /// Identifier of the polled order.
        order_id: OrderId,
    },
    /// An order could not validly progress and was removed; the business
    /// layer should return any funds already received.
    Refund {
        /// Identifier of the client request that triggered the removal.
        request_id: RequestId,
        /// The counterparty the order belonged to.
        counterparty_node_id: CounterpartyId,
        /// Identifier of the removed order.
        order_id: OrderId,
    },
}

} // verus!
