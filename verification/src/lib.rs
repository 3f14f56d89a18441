//! Receive, acknowledge and reply pipeline of an ICS-20 transfer endpoint whose
//! inbound transfers may carry an action (swap, pool join or exit, custodial
//! lock, claim or unlock) that runs atomically with the transfer.
//!
//! The endpoint is a state machine: every handler takes the endpoint's state
//! and one event of the host and gives the next state together with what the
//! host has to do. Each handler is specified by a transition function over the
//! mathematical views of its arguments.

pub mod action;
pub mod amount;
pub mod continuation;
pub mod decimal;
pub mod error;
pub mod escrow;
pub mod ibc;
pub mod ibc_msg;
pub mod msg;
pub mod vec_map;
pub mod payout;
pub mod proto;
pub mod query;
pub mod state;
pub mod text;
