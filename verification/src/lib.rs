//! Orchestration of zap-in and zap-out on a concentrated-liquidity venue.
//!
//! A zap-in turns one deposited asset into a liquidity position: a protocol
//! fee is taken, parts of the deposit are swapped, and a position is created
//! from what the swaps left on the account. A zap-out withdraws a position,
//! swaps parts of the proceeds and hands everything back to the user.
//!
//! The handlers are functions from the persistent state, the balances seen
//! on the account and a request to the next state and the calls to emit.
//! What a handler does is stated over the views of these values: for each
//! handler a spec function gives the state that it leaves and the response
//! that it returns, or the error that it ends in. On an error a handler
//! leaves everything as it was; only the refund step empties the table of
//! recorded balances whatever it ends in.
//!
//! - [`host`]: what a handler is given and what it hands back
//! - [`state`], [`snapshot`]: the persistent state and the recorded balances
//! - [`fee`], [`swap`], [`deposit`], [`helper`]: the parts of an operation
//! - [`zap`], [`reply`], [`contract`]: the handlers and the entry points
//! - [`plan`]: what has to be seen of the chain before a handler runs
//! - [`codec`], [`proto_coin`]: the wire forms
//! - [`laws`]: what holds of the handlers taken together

pub mod asset;
pub mod codec;
pub mod coin;
pub mod contract;
pub mod deposit;
pub mod error;
pub mod fee;
pub mod helper;
pub mod host;
pub mod laws;
pub mod math;
pub mod msg;
pub mod order;
pub mod plan;
pub mod proto_coin;
pub mod reply;
pub mod snapshot;
pub mod state;
pub mod swap;
pub mod zap;
