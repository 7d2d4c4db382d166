//! Message and data types of the LSPS1 ordering protocol: identifiers,
//! order parameters, the advertised option ranges, and the request and
//! response payloads exchanged with a client.

use vstd::prelude::*;

verus! {

/// Error code of the `CreateOrderError` response sent when a submitted
/// order does not match the advertised supported options.
pub const LSPS1_CREATE_ORDER_REQUEST_ORDER_MISMATCH_ERROR_CODE: i32 = 1000;

/// Identifier of an order: the hex encoding of 128 bits of entropy.
/// Equality is by value.
#[derive(Debug, PartialEq, Eq)]
pub struct OrderId(pub String);

impl View for OrderId {
    type V = Seq<char>;

    open spec fn view(&self) -> Seq<char> {
        self.0@
    }
}

impl Clone for OrderId {
    fn clone(&self) -> (r: Self)
        ensures
            r == *self,
    {
        OrderId(self.0.clone())
    }
}

/// Caller-assigned identifier correlating a request with its response.
#[derive(Debug, PartialEq, Eq)]
pub struct RequestId(pub String);

impl View for RequestId {
    type V = Seq<char>;

    open spec fn view(&self) -> Seq<char> {
        self.0@
    }
}

impl Clone for RequestId {
    fn clone(&self) -> (r: Self)
        ensures
            r == *self,
    {
        RequestId(self.0.clone())
    }
}

/// Identity of the remote counterparty a request or order belongs to,
/// carried as the encoded form of the peer's public key.
#[derive(Debug, PartialEq, Eq)]
pub struct CounterpartyId(pub String);

impl View for CounterpartyId {
    type V = Seq<char>;

    open spec fn view(&self) -> Seq<char> {
        self.0@
    }
}

impl Clone for CounterpartyId {
    fn clone(&self) -> (r: Self)
        ensures
            r == *self,
    {
        CounterpartyId(self.0.clone())
    }
}

/// Channel parameters requested by a client, immutable once submitted.
#[derive(Debug, PartialEq, Eq, Clone, Copy)]
pub struct OrderParams {
    /// Balance the LSP is asked to provide on its side, in satoshi.
    pub lsp_balance_sat: u64,
    /// Balance the client will hold on its side, in satoshi.
    pub client_balance_sat: u64,
    /// Number of blocks within which the funding transaction must confirm.
    pub funding_confirms_within_blocks: u32,
    /// Number of blocks the channel is to be leased for.
    pub channel_expiry_blocks: u32,
    /// Whether the channel should be announced to the network.
    pub announce_channel: bool,
}

/// Option ranges advertised by the LSP; a submitted order is valid only
/// when each of its parameters falls inside these bounds.
#[derive(Debug, PartialEq, Eq, Clone, Copy)]
pub struct OptionsSupported {
    /// Smallest LSP-side balance accepted, in satoshi.
    pub min_initial_lsp_balance_sat: u64,
    /// Largest LSP-side balance accepted, in satoshi.
    pub max_initial_lsp_balance_sat: u64,
    /// Smallest client-side balance accepted, in satoshi.
    pub min_initial_client_balance_sat: u64,
    /// Largest client-side balance accepted, in satoshi.
    pub max_initial_client_balance_sat: u64,
    /// Largest channel lease duration accepted, in blocks.
    pub max_channel_expiry_blocks: u32,
}

/// Payment terms supplied by the business layer, immutable once set.
#[derive(Debug, PartialEq, Eq)]
pub struct OrderPayment {
    /// Total fee the LSP charges for the order, in satoshi.
    pub fee_total_sat: u64,
    /// Total amount the client has to pay, in satoshi.
    pub order_total_sat: u64,
    /// Lightning invoice the client can pay.
    pub bolt11_invoice: String,
}

impl Clone for OrderPayment {
    fn clone(&self) -> (r: Self)
        ensures
            r == *self,
    {
        OrderPayment {
            fee_total_sat: self.fee_total_sat,
            order_total_sat: self.order_total_sat,
            bolt11_invoice: self.bolt11_invoice.clone(),
        }
    }
}

/// Details of a provisioned channel, reported back to the client once
/// the business layer knows them.
#[derive(Debug, PartialEq, Eq)]
pub struct ChannelInfo {
    /// Unix timestamp at which the channel was funded.
    pub funded_at: i64,
    /// Outpoint of the funding transaction.
    pub funding_outpoint: String,
    /// Unix timestamp at which the channel lease expires.
    pub expires_at: i64,
}

impl Clone for ChannelInfo {
    fn clone(&self) -> (r: Self)
        ensures
            r == *self,
    {
        ChannelInfo {
            funded_at: self.funded_at,
            funding_outpoint: self.funding_outpoint.clone(),
            expires_at: self.expires_at,
        }
    }
}

/// Status label reported back to the client; chosen by the embedding
/// application, independent of the internal state machine.
#[derive(Debug, PartialEq, Eq, Structural, Clone, Copy)]
pub enum OrderState {
    /// The order was created and awaits payment.
    Created,
    /// The order completed and the channel was provisioned.
    Completed,
    /// The order failed.
    Failed,
}

/// A `GetInfo` request; it carries no parameters.
#[derive(Debug, PartialEq, Eq, Structural, Clone, Copy)]
pub struct GetInfoRequest {}

/// A `CreateOrder` request wrapping the requested channel parameters.
#[derive(Debug, PartialEq, Eq, Clone, Copy)]
pub struct CreateOrderRequest {
    /// The requested channel parameters.
    pub order: OrderParams,
}

/// A `GetOrder` request polling the status of an order.
#[derive(Debug, PartialEq, Eq)]
pub struct GetOrderRequest {
    /// Identifier of the order being polled.
    pub order_id: OrderId,
}

impl Clone for GetOrderRequest {
    fn clone(&self) -> (r: Self)
        ensures
            r == *self,
    {
        GetOrderRequest { order_id: self.order_id.clone() }
    }
}

/// The requests a client can send.
#[derive(Debug, PartialEq, Eq)]
pub enum LSPS1Request {
    /// Ask for the provider's metadata and supported options.
    GetInfo(GetInfoRequest),
    /// Submit a channel-purchase order.
    CreateOrder(CreateOrderRequest),
    /// Poll the status of an order.
    GetOrder(GetOrderRequest),
}

/// Response to a `GetInfo` request.
#[derive(Debug, PartialEq, Eq)]
pub struct GetInfoResponse {
    /// The provider's website.
    pub website: String,
    /// The option ranges the provider supports.
    pub options: OptionsSupported,
}

/// Response to a `CreateOrder` or `GetOrder` request, echoing the order's
/// immutable configuration together with its reported status.
#[derive(Debug, PartialEq, Eq)]
pub struct CreateOrderResponse {
    /// The channel parameters of the order.
    pub order: OrderParams,
    /// Identifier of the order.
    pub order_id: OrderId,
    /// Status label reported for the order.
    pub order_state: OrderState,
    /// Unix timestamp at which the order was created.
    pub created_at: i64,
    /// Unix timestamp after which the order is no longer valid.
    pub expires_at: i64,
    /// Payment terms for the order.
    pub payment: OrderPayment,
    /// Channel details, once the channel is provisioned.
    pub channel: Option<ChannelInfo>,
}

/// Structured error sent to a client whose request was rejected.
#[derive(Debug, PartialEq, Eq)]
pub struct ResponseError {
    /// Machine-readable error code.
    pub code: i32,
    /// Human-readable description of the error.
    pub message: String,
    /// Diagnostic data, such as the supported option ranges.
    pub data: Option<String>,
}

/// The responses the service can send.
#[derive(Debug, PartialEq, Eq)]
pub enum LSPS1Response {
    /// Provider metadata and supported options.
    GetInfo(GetInfoResponse),
    /// A successfully created order with its payment terms.
    CreateOrder(CreateOrderResponse),
    /// Rejection of an order that does not match the supported options.
    CreateOrderError(ResponseError),
    /// Current status of a polled order.
    GetOrder(CreateOrderResponse),
}

/// A protocol message: a request or a response, each tagged with the
/// request id that correlates them.
#[derive(Debug, PartialEq, Eq)]
pub enum LSPS1Message {
    /// A request received from a client.
    Request(RequestId, LSPS1Request),
    /// A response addressed to a client.
    Response(RequestId, LSPS1Response),
}

} // verus!
