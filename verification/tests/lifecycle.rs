//! End-to-end exercises of the order lifecycle: validation, deferred
//! responses, the forward-only state machine, and the compensating
//! refund path.

use std::cell::Cell;

use lsps1_service::errors::APIError;
use lsps1_service::event::LSPS1ServiceEvent;
use lsps1_service::msgs::{
    CounterpartyId, CreateOrderRequest, GetInfoRequest, GetOrderRequest, LSPS1Message,
    LSPS1Request, LSPS1Response, OptionsSupported, OrderId, OrderParams, OrderPayment, OrderState,
    RequestId, LSPS1_CREATE_ORDER_REQUEST_ORDER_MISMATCH_ERROR_CODE,
};
use lsps1_service::service::{EntropySource, LSPS1ServiceConfig, LSPS1ServiceHandler};

struct SeqEntropy {
    counter: Cell<u64>,
}

impl SeqEntropy {
    fn new() -> Self {
        SeqEntropy { counter: Cell::new(1) }
    }
}

impl EntropySource for SeqEntropy {
    fn get_secure_random_bytes(&self) -> Vec<u8> {
        let n = self.counter.get();
        self.counter.set(n + 1);
        let mut bytes = vec![0u8; 32];
        bytes[..8].copy_from_slice(&n.to_be_bytes());
        bytes
    }
}

fn options() -> OptionsSupported {
    OptionsSupported {
        min_initial_lsp_balance_sat: 1_000,
        max_initial_lsp_balance_sat: 100_000,
        min_initial_client_balance_sat: 0,
        max_initial_client_balance_sat: 50_000,
        max_channel_expiry_blocks: 1_000,
    }
}

fn config() -> LSPS1ServiceConfig {
    LSPS1ServiceConfig {
        token: None,
        options_supported: Some(options()),
        website: Some("https://lsp.example".to_string()),
    }
}

fn handler() -> LSPS1ServiceHandler<SeqEntropy> {
    LSPS1ServiceHandler::new(SeqEntropy::new(), config())
}

fn valid_order() -> OrderParams {
    OrderParams {
        lsp_balance_sat: 10_000,
        client_balance_sat: 0,
        funding_confirms_within_blocks: 6,
        channel_expiry_blocks: 144,
        announce_channel: false,
    }
}

fn payment() -> OrderPayment {
    OrderPayment {
        fee_total_sat: 100,
        order_total_sat: 10_100,
        bolt11_invoice: "lnbc1invoice".to_string(),
    }
}

fn counterparty(name: &str) -> CounterpartyId {
    CounterpartyId(name.to_string())
}

fn rid(name: &str) -> RequestId {
    RequestId(name.to_string())
}

/// Runs a valid CreateOrder followed by send_payment_details and
/// returns the generated order id.
fn create_paid_order(
    service: &mut LSPS1ServiceHandler<SeqEntropy>,
    request: &str,
    c: &CounterpartyId,
) -> OrderId {
    let result = service.handle_message(
        LSPS1Message::Request(
            rid(request),
            LSPS1Request::CreateOrder(CreateOrderRequest { order: valid_order() }),
        ),
        c,
    );
    assert!(result.is_ok());
    service.get_and_clear_pending_events();
    let result = service.send_payment_details(rid(request), c, payment(), 1_700_000_000, 1_700_100_000);
    assert!(result.is_ok());
    let messages = service.get_and_clear_pending_messages();
    assert_eq!(messages.len(), 1);
    match &messages[0].1 {
        LSPS1Message::Response(_, LSPS1Response::CreateOrder(response)) => {
            response.order_id.clone()
        },
        other => panic!("expected a CreateOrder response, got {:?}", other),
    }
}

#[test]
fn get_info_returns_website_and_options() {
    let mut service = handler();
    let c = counterparty("alice");
    let result = service.handle_message(
        LSPS1Message::Request(rid("r1"), LSPS1Request::GetInfo(GetInfoRequest {})),
        &c,
    );
    assert!(result.is_ok());
    let messages = service.get_and_clear_pending_messages();
    assert_eq!(messages.len(), 1);
    assert_eq!(messages[0].0, c);
    match &messages[0].1 {
        LSPS1Message::Response(request_id, LSPS1Response::GetInfo(response)) => {
            assert_eq!(*request_id, rid("r1"));
            assert_eq!(response.website, "https://lsp.example");
            assert_eq!(response.options, options());
        },
        other => panic!("expected a GetInfo response, got {:?}", other),
    }
    assert!(service.get_and_clear_pending_events().is_empty());
}

#[test]
fn get_info_without_configuration_fails() {
    let mut service = LSPS1ServiceHandler::new(
        SeqEntropy::new(),
        LSPS1ServiceConfig { token: None, options_supported: None, website: None },
    );
    let c = counterparty("alice");
    let result = service.handle_message(
        LSPS1Message::Request(rid("r1"), LSPS1Request::GetInfo(GetInfoRequest {})),
        &c,
    );
    assert!(result.is_err());
    assert!(service.get_and_clear_pending_messages().is_empty());
    assert!(service.get_and_clear_pending_events().is_empty());
}

#[test]
fn mismatched_order_is_rejected_with_error_response() {
    let mut service = handler();
    let c = counterparty("alice");
    let mut order = valid_order();
    order.lsp_balance_sat = 1_000_000;
    let result = service.handle_message(
        LSPS1Message::Request(
            rid("r1"),
            LSPS1Request::CreateOrder(CreateOrderRequest { order }),
        ),
        &c,
    );
    assert!(result.is_err());
    let messages = service.get_and_clear_pending_messages();
    assert_eq!(messages.len(), 1);
    assert_eq!(messages[0].0, c);
    match &messages[0].1 {
        LSPS1Message::Response(request_id, LSPS1Response::CreateOrderError(error)) => {
            assert_eq!(*request_id, rid("r1"));
            assert_eq!(error.code, LSPS1_CREATE_ORDER_REQUEST_ORDER_MISMATCH_ERROR_CODE);
            assert_eq!(error.message, "Order does not match options supported by LSP server");
            assert_eq!(
                error.data.as_deref(),
                Some(
                    "lsp_balance_sat between 1000 and 100000, client_balance_sat between 0 \
                     and 50000, channel_expiry_blocks up to 1000"
                )
            );
        },
        other => panic!("expected a CreateOrderError response, got {:?}", other),
    }
    assert!(service.get_and_clear_pending_events().is_empty());
    // No order record was created: the counterparty is still unknown.
    let result = service.send_payment_details(rid("r1"), &c, payment(), 0, 0);
    assert!(matches!(result, Err(APIError::APIMisuseError { .. })));
}

#[test]
fn valid_order_defers_response_and_emits_event() {
    let mut service = handler();
    let c = counterparty("alice");
    let result = service.handle_message(
        LSPS1Message::Request(
            rid("r1"),
            LSPS1Request::CreateOrder(CreateOrderRequest { order: valid_order() }),
        ),
        &c,
    );
    assert!(result.is_ok());
    assert!(service.get_and_clear_pending_messages().is_empty());
    let events = service.get_and_clear_pending_events();
    assert_eq!(events.len(), 1);
    assert_eq!(
        events[0],
        LSPS1ServiceEvent::RequestForPaymentDetails {
            request_id: rid("r1"),
            counterparty_node_id: c,
            order: valid_order(),
        }
    );
}

#[test]
fn send_payment_details_creates_one_order() {
    let mut service = handler();
    let c = counterparty("alice");
    let result = service.handle_message(
        LSPS1Message::Request(
            rid("r1"),
            LSPS1Request::CreateOrder(CreateOrderRequest { order: valid_order() }),
        ),
        &c,
    );
    assert!(result.is_ok());
    service.get_and_clear_pending_events();
    let result = service.send_payment_details(rid("r1"), &c, payment(), 1_700_000_000, 1_700_100_000);
    assert!(result.is_ok());
    let messages = service.get_and_clear_pending_messages();
    assert_eq!(messages.len(), 1);
    assert_eq!(messages[0].0, c);
    let order_id = match &messages[0].1 {
        LSPS1Message::Response(request_id, LSPS1Response::CreateOrder(response)) => {
            assert_eq!(*request_id, rid("r1"));
            assert_eq!(response.order, valid_order());
            assert_eq!(response.order_state, OrderState::Created);
            assert_eq!(response.created_at, 1_700_000_000);
            assert_eq!(response.expires_at, 1_700_100_000);
            assert_eq!(response.payment, payment());
            assert!(response.channel.is_none());
            response.order_id.clone()
        },
        other => panic!("expected a CreateOrder response, got {:?}", other),
    };
    assert_eq!(order_id.0.len(), 32);
    // The order exists: reporting its status succeeds and echoes it.
    let result = service.update_order_status(
        rid("r2"),
        c.clone(),
        order_id.clone(),
        OrderState::Created,
        None,
    );
    assert!(result.is_ok());
    // Replaying the callback fails: the pending entry was cleared.
    let result = service.send_payment_details(rid("r1"), &c, payment(), 0, 0);
    assert!(matches!(result, Err(APIError::APIMisuseError { .. })));
}

#[test]
fn generated_order_id_is_hex_of_drawn_entropy() {
    let mut service = handler();
    let c = counterparty("alice");
    let order_id = create_paid_order(&mut service, "r1", &c);
    // The first entropy block starts with the counter value 1 in
    // big-endian, and the id is the hex encoding of its first 16 bytes.
    assert_eq!(order_id.0, "00000000000000010000000000000000");
}

#[test]
fn first_poll_enters_payment_wait_and_emits_check() {
    let mut service = handler();
    let c = counterparty("alice");
    let order_id = create_paid_order(&mut service, "r1", &c);
    let result = service.handle_message(
        LSPS1Message::Request(
            rid("r2"),
            LSPS1Request::GetOrder(GetOrderRequest { order_id: order_id.clone() }),
        ),
        &c,
    );
    assert!(result.is_ok());
    let events = service.get_and_clear_pending_events();
    assert_eq!(events.len(), 1);
    assert_eq!(
        events[0],
        LSPS1ServiceEvent::CheckPaymentConfirmation {
            request_id: rid("r2"),
            counterparty_node_id: c.clone(),
            order_id: order_id.clone(),
        }
    );
    // The order remains retrievable: the business layer can report it.
    let result = service.update_order_status(
        rid("r2"),
        c.clone(),
        order_id.clone(),
        OrderState::Completed,
        None,
    );
    assert!(result.is_ok());
    let messages = service.get_and_clear_pending_messages();
    assert_eq!(messages.len(), 1);
    match &messages[0].1 {
        LSPS1Message::Response(request_id, LSPS1Response::GetOrder(response)) => {
            assert_eq!(*request_id, rid("r2"));
            assert_eq!(response.order_id, order_id);
            assert_eq!(response.order_state, OrderState::Completed);
            assert_eq!(response.order, valid_order());
            assert_eq!(response.payment, payment());
        },
        other => panic!("expected a GetOrder response, got {:?}", other),
    }
}

#[test]
fn second_poll_fails_removes_order_and_refunds() {
    let mut service = handler();
    let c = counterparty("alice");
    let order_id = create_paid_order(&mut service, "r1", &c);
    let poll = LSPS1Message::Request(
        rid("r2"),
        LSPS1Request::GetOrder(GetOrderRequest { order_id: order_id.clone() }),
    );
    assert!(service.handle_message(poll, &c).is_ok());
    service.get_and_clear_pending_events();
    let second_poll = LSPS1Message::Request(
        rid("r3"),
        LSPS1Request::GetOrder(GetOrderRequest { order_id: order_id.clone() }),
    );
    let result = service.handle_message(second_poll, &c);
    assert!(result.is_err());
    let events = service.get_and_clear_pending_events();
    assert_eq!(events.len(), 1);
    assert_eq!(
        events[0],
        LSPS1ServiceEvent::Refund {
            request_id: rid("r3"),
            counterparty_node_id: c.clone(),
            order_id: order_id.clone(),
        }
    );
    // The order is gone: reporting its status is now a misuse.
    let result =
        service.update_order_status(rid("r4"), c.clone(), order_id, OrderState::Failed, None);
    assert!(matches!(result, Err(APIError::APIMisuseError { .. })));
    assert!(service.get_and_clear_pending_messages().is_empty());
}

#[test]
fn unknown_request_id_is_a_misuse_and_changes_nothing() {
    let mut service = handler();
    let c = counterparty("alice");
    let result = service.handle_message(
        LSPS1Message::Request(
            rid("r1"),
            LSPS1Request::CreateOrder(CreateOrderRequest { order: valid_order() }),
        ),
        &c,
    );
    assert!(result.is_ok());
    service.get_and_clear_pending_events();
    // A request id that was never recorded fails...
    let result = service.send_payment_details(rid("other"), &c, payment(), 0, 0);
    assert!(matches!(result, Err(APIError::APIMisuseError { .. })));
    assert!(service.get_and_clear_pending_messages().is_empty());
    // ...and leaves the store unchanged: the real pending entry is intact.
    let result = service.send_payment_details(rid("r1"), &c, payment(), 0, 0);
    assert!(result.is_ok());
}

#[test]
fn pending_get_order_request_is_no_create_order_request() {
    let mut service = handler();
    let c = counterparty("alice");
    let order_id = create_paid_order(&mut service, "r1", &c);
    // The first poll records a pending GetOrder request under r2.
    let poll = LSPS1Message::Request(
        rid("r2"),
        LSPS1Request::GetOrder(GetOrderRequest { order_id }),
    );
    assert!(service.handle_message(poll, &c).is_ok());
    service.get_and_clear_pending_events();
    // Supplying payment details for it is a misuse: the pending entry
    // is a GetOrder, not a CreateOrder, and nothing is recorded.
    let result = service.send_payment_details(rid("r2"), &c, payment(), 0, 0);
    assert!(matches!(result, Err(APIError::APIMisuseError { .. })));
    assert!(service.get_and_clear_pending_messages().is_empty());
    assert!(service.get_and_clear_pending_events().is_empty());
}

#[test]
fn unknown_counterparty_is_a_misuse_and_mutates_nothing() {
    let mut service = handler();
    let alice = counterparty("alice");
    let mallory = counterparty("mallory");
    let order_id = create_paid_order(&mut service, "r1", &alice);
    let result = service.send_payment_details(rid("r1"), &mallory, payment(), 0, 0);
    assert!(matches!(result, Err(APIError::APIMisuseError { .. })));
    let result = service.update_order_status(
        rid("r2"),
        mallory,
        order_id.clone(),
        OrderState::Created,
        None,
    );
    assert!(matches!(result, Err(APIError::APIMisuseError { .. })));
    assert!(service.get_and_clear_pending_messages().is_empty());
    assert!(service.get_and_clear_pending_events().is_empty());
    // Alice's order is untouched.
    let result =
        service.update_order_status(rid("r3"), alice, order_id, OrderState::Created, None);
    assert!(result.is_ok());
}

#[test]
fn operations_on_one_counterparty_leave_the_other_intact() {
    let mut service = handler();
    let alice = counterparty("alice");
    let bob = counterparty("bob");
    let alice_order = create_paid_order(&mut service, "a1", &alice);
    let bob_order = create_paid_order(&mut service, "b1", &bob);
    // Drive Alice's order through poll, failed second poll and removal.
    let poll = LSPS1Message::Request(
        rid("a2"),
        LSPS1Request::GetOrder(GetOrderRequest { order_id: alice_order.clone() }),
    );
    assert!(service.handle_message(poll, &alice).is_ok());
    let second = LSPS1Message::Request(
        rid("a3"),
        LSPS1Request::GetOrder(GetOrderRequest { order_id: alice_order.clone() }),
    );
    assert!(service.handle_message(second, &alice).is_err());
    service.get_and_clear_pending_events();
    service.get_and_clear_pending_messages();
    // Bob's order is still there, still in the created state: its first
    // poll succeeds.
    let result = service.handle_message(
        LSPS1Message::Request(
            rid("b2"),
            LSPS1Request::GetOrder(GetOrderRequest { order_id: bob_order.clone() }),
        ),
        &bob,
    );
    assert!(result.is_ok());
    let events = service.get_and_clear_pending_events();
    assert_eq!(events.len(), 1);
    assert_eq!(
        events[0],
        LSPS1ServiceEvent::CheckPaymentConfirmation {
            request_id: rid("b2"),
            counterparty_node_id: bob,
            order_id: bob_order,
        }
    );
    // Alice's order id does not resolve under Bob's state either way:
    // it was removed from hers and never existed in his.
    let result = service.update_order_status(
        rid("a4"),
        alice,
        alice_order,
        OrderState::Failed,
        None,
    );
    assert!(matches!(result, Err(APIError::APIMisuseError { .. })));
}

#[test]
fn get_order_for_unknown_parties_is_rejected() {
    let mut service = handler();
    let c = counterparty("alice");
    // Unknown counterparty.
    let result = service.handle_message(
        LSPS1Message::Request(
            rid("r1"),
            LSPS1Request::GetOrder(GetOrderRequest { order_id: OrderId("feed".to_string()) }),
        ),
        &c,
    );
    assert!(result.is_err());
    // Known counterparty, unknown order id.
    create_paid_order(&mut service, "r2", &c);
    let result = service.handle_message(
        LSPS1Message::Request(
            rid("r3"),
            LSPS1Request::GetOrder(GetOrderRequest { order_id: OrderId("feed".to_string()) }),
        ),
        &c,
    );
    assert!(result.is_err());
    assert!(service.get_and_clear_pending_events().is_empty());
}

#[test]
fn response_messages_are_rejected_without_state_change() {
    let mut service = handler();
    let c = counterparty("alice");
    let result = service.handle_message(
        LSPS1Message::Response(
            rid("r1"),
            LSPS1Response::CreateOrderError(lsps1_service::msgs::ResponseError {
                code: 0,
                message: "bogus".to_string(),
                data: None,
            }),
        ),
        &c,
    );
    assert!(result.is_err());
    assert!(service.get_and_clear_pending_messages().is_empty());
    assert!(service.get_and_clear_pending_events().is_empty());
}
