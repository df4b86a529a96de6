//! Rendezvous and relay logic for peers that sit behind NATs: identifiers,
//! the peer table, the registration throttle, the message handler, the
//! hole-punch coordinator and the relay pump, each as verified code over
//! plain values.

pub mod addr;
pub mod auth;
pub mod conf;
pub mod error;
pub mod event_loop;
pub mod limiter;
pub mod message;
pub mod peer;
pub mod peer_id;
pub mod ports;
pub mod punch;
pub mod relay;
pub mod rendezvous;
pub mod store;
pub mod time;
