//! An active healthcheck probe for a broker-connected service: a periodic
//! publisher sends requests on one topic while a listener waits for a
//! correlated response on another, all under a one-shot deadline. This crate
//! holds the verified core: configuration resolution, response filtering,
//! and the outcome state machine. Broker I/O lives outside.

pub mod config;
pub mod listener;
pub mod machine;
pub mod utf8;
