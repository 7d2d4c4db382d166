//! One outbound channel order: its immutable configuration and its
//! small forward-only state machine.

use vstd::prelude::*;

use crate::errors::{ChannelStateError, LightningError};
use crate::msgs::{OptionsSupported, OrderId, OrderParams, OrderPayment};
use crate::utils::{is_valid, spec_is_valid};

verus! {

/// Internal state of an outbound channel order. The only transition
/// moves forward from `OrderCreated` to `WaitingPayment`; no path
/// revisits `OrderCreated`.
#[derive(Debug, PartialEq, Eq)]
pub enum OutboundRequestState {
    /// The order exists and the payment window has not been entered.
    OrderCreated {
        /// Identifier of the order.
        order_id: OrderId,
    },
    /// The payment window has been entered, exactly once.
    WaitingPayment {
        /// Identifier of the order.
        order_id: OrderId,
    },
    /// The channel has been provisioned.
    Ready,
}

impl OutboundRequestState {
    /// Enters the payment window: succeeds only from `OrderCreated`,
    /// producing `WaitingPayment`; from any other state it fails with a
    /// state error. This enforces that the payment window is entered
    /// exactly once per order.
    pub fn awaiting_payment(&self) -> (r: Result<Self, ChannelStateError>)
        ensures
            self is OrderCreated ==> (r matches Ok(next) && next == (
            OutboundRequestState::WaitingPayment { order_id: self->OrderCreated_order_id })),
            !(self is OrderCreated) ==> r is Err,
    {
        match self {
            OutboundRequestState::OrderCreated { order_id } => {
                Ok(OutboundRequestState::WaitingPayment { order_id: order_id.clone() })
            },
            OutboundRequestState::WaitingPayment { order_id: _ } => {
                Err(
                    ChannelStateError(
                        String::from_str("channel was already in state: WaitingPayment"),
                    ),
                )
            },
            OutboundRequestState::Ready => {
                Err(ChannelStateError(String::from_str("channel was already in state: Ready")))
            },
        }
    }
}

/// The immutable configuration block of an outbound channel order.
#[derive(Debug, PartialEq, Eq)]
pub struct OutboundLSPS1Config {
    /// The channel parameters the client requested.
    pub order: OrderParams,
    /// Unix timestamp at which the order was created.
    pub created_at: i64,
    /// Unix timestamp after which the order is no longer valid; carried
    /// data only, not enforced here.
    pub expires_at: i64,
    /// Payment terms supplied by the business layer.
    pub payment: OrderPayment,
}

/// An outbound channel order: its state paired with its configuration.
#[derive(Debug, PartialEq, Eq)]
pub struct OutboundCRChannel {
    /// Current state of the order.
    pub state: OutboundRequestState,
    /// Immutable configuration of the order.
    pub config: OutboundLSPS1Config,
}

impl OutboundCRChannel {
    /// A fresh order in the `OrderCreated` state.
    pub fn new(
        order: OrderParams,
        created_at: i64,
        expires_at: i64,
        order_id: OrderId,
        payment: OrderPayment,
    ) -> (r: Self)
        ensures
            r == (OutboundCRChannel {
                state: OutboundRequestState::OrderCreated { order_id },
                config: OutboundLSPS1Config { order, created_at, expires_at, payment },
            }),
    {
        OutboundCRChannel {
            state: OutboundRequestState::OrderCreated { order_id },
            config: OutboundLSPS1Config { order, created_at, expires_at, payment },
        }
    }

    /// Attempts the forward transition of the order's state; on failure
    /// the order is left unchanged and the caller is responsible for
    /// compensating action.
    pub fn awaiting_payment(&mut self) -> (r: Result<(), LightningError>)
        ensures
            old(self).state is OrderCreated ==> r is Ok && *final(self) == (OutboundCRChannel {
                state: OutboundRequestState::WaitingPayment {
                    order_id: old(self).state->OrderCreated_order_id,
                },
                config: old(self).config,
            }),
            !(old(self).state is OrderCreated) ==> r is Err && *final(self) == *old(self),
    {
        match self.state.awaiting_payment() {
            Ok(next) => {
                self.state = next;
                Ok(())
            },
            Err(e) => Err(e.into_lightning_error()),
        }
    }

    /// Whether the order's configuration lies inside the advertised
    /// option ranges.
    pub fn check_order_validity(&self, options_supported: &OptionsSupported) -> (r: bool)
        ensures
            r == spec_is_valid(self.config.order, *options_supported),
    {
        is_valid(&self.config.order, options_supported)
    }
}

} // verus!
