//! Verified core of an ERC20 sweep agent: it models the configuration
//! resolver, the `Transfer` log filter and decoder, the sweep amount policy
//! and transaction encoding, and the bounded-retry supervisor. The network
//! session itself (websocket subscription, transaction submission) lives
//! outside this crate and consumes these functions.

pub mod hex;

pub mod words;

pub mod config;

pub mod logs;

pub mod sweep;

pub mod supervisor;
