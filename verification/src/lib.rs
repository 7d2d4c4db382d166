//! Service side of the LSPS1 channel-ordering protocol: a liquidity
//! provider's order lifecycle state machine, its per-counterparty state
//! store, and the protocol dispatch layer, with verified contracts.

pub mod channel;
pub mod errors;
pub mod event;
pub mod laws;
pub mod msgs;
pub mod peer_state;
pub mod queues;
pub mod service;
pub mod store;
pub mod utils;
