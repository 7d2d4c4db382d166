//! Order-id generation and the helpers behind the protocol's texts:
//! hex encoding, decimal rendering, and the validator's bounds.

use std::cell::Cell;
use std::collections::HashSet;

use lsps1_service::msgs::{
    CounterpartyId, CreateOrderRequest, LSPS1Message, LSPS1Request, LSPS1Response,
    OptionsSupported, OrderParams, OrderPayment, RequestId,
};
use lsps1_service::service::{EntropySource, LSPS1ServiceConfig, LSPS1ServiceHandler};
use lsps1_service::utils::{hex_str_prefix, is_valid, u64_to_dec};

struct CountingEntropy {
    counter: Cell<u64>,
}

impl EntropySource for CountingEntropy {
    fn get_secure_random_bytes(&self) -> Vec<u8> {
        let n = self.counter.get();
        self.counter.set(n + 1);
        let mut bytes = vec![0u8; 32];
        bytes[8..16].copy_from_slice(&n.to_be_bytes());
        bytes
    }
}

fn options() -> OptionsSupported {
    OptionsSupported {
        min_initial_lsp_balance_sat: 1_000,
        max_initial_lsp_balance_sat: 100_000,
        min_initial_client_balance_sat: 0,
        max_initial_client_balance_sat: 50_000,
        max_channel_expiry_blocks: 1_000,
    }
}

fn order() -> OrderParams {
    OrderParams {
        lsp_balance_sat: 10_000,
        client_balance_sat: 0,
        funding_confirms_within_blocks: 6,
        channel_expiry_blocks: 144,
        announce_channel: false,
    }
}

#[test]
fn hex_encoding_matches_expected_digits() {
    let bytes = vec![0x00u8, 0x01, 0x9f, 0xab, 0xff];
    assert_eq!(hex_str_prefix(&bytes, 5), "00019fabff");
    assert_eq!(hex_str_prefix(&bytes, 2), "0001");
    assert_eq!(hex_str_prefix(&bytes, 0), "");
}

#[test]
fn decimal_rendering_matches_expected_digits() {
    assert_eq!(u64_to_dec(0), "0");
    assert_eq!(u64_to_dec(7), "7");
    assert_eq!(u64_to_dec(10), "10");
    assert_eq!(u64_to_dec(50_000), "50000");
    assert_eq!(u64_to_dec(u64::MAX), "18446744073709551615");
}

#[test]
fn validator_accepts_and_rejects_at_the_bounds() {
    let opts = options();
    let mut o = order();
    assert!(is_valid(&o, &opts));
    o.lsp_balance_sat = opts.min_initial_lsp_balance_sat;
    assert!(is_valid(&o, &opts));
    o.lsp_balance_sat = opts.max_initial_lsp_balance_sat;
    assert!(is_valid(&o, &opts));
    o.lsp_balance_sat = opts.max_initial_lsp_balance_sat + 1;
    assert!(!is_valid(&o, &opts));
    o = order();
    o.client_balance_sat = opts.max_initial_client_balance_sat + 1;
    assert!(!is_valid(&o, &opts));
    o = order();
    o.channel_expiry_blocks = opts.max_channel_expiry_blocks + 1;
    assert!(!is_valid(&o, &opts));
}

#[test]
fn order_ids_are_distinct_across_a_large_sample() {
    let mut service = LSPS1ServiceHandler::new(
        CountingEntropy { counter: Cell::new(0) },
        LSPS1ServiceConfig {
            token: None,
            options_supported: Some(options()),
            website: Some("https://lsp.example".to_string()),
        },
    );
    let c = CounterpartyId("alice".to_string());
    let payment = OrderPayment {
        fee_total_sat: 1,
        order_total_sat: 2,
        bolt11_invoice: "lnbc1invoice".to_string(),
    };
    let mut seen = HashSet::new();
    for i in 0..500u64 {
        let request_id = RequestId(format!("r{}", i));
        let result = service.handle_message(
            LSPS1Message::Request(
                request_id.clone(),
                LSPS1Request::CreateOrder(CreateOrderRequest { order: order() }),
            ),
            &c,
        );
        assert!(result.is_ok());
        let result = service.send_payment_details(request_id, &c, payment.clone(), 0, 1);
        assert!(result.is_ok());
        let messages = service.get_and_clear_pending_messages();
        assert_eq!(messages.len(), 1);
        match &messages[0].1 {
            LSPS1Message::Response(_, LSPS1Response::CreateOrder(response)) => {
                assert_eq!(response.order_id.0.len(), 32);
                assert!(
                    seen.insert(response.order_id.0.clone()),
                    "order id collided: {}",
                    response.order_id.0
                );
            },
            other => panic!("expected a CreateOrder response, got {:?}", other),
        }
        service.get_and_clear_pending_events();
    }
    assert_eq!(seen.len(), 500);
}
