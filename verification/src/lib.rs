//! A pool of funds that one owner manages across remote chains.
//!
//! Each remote chain is reached through an outpost: a custodian contract
//! on the remote chain and a controller contract that owns the command
//! channel to it. A command for a remote chain goes out as a packet and is
//! answered later by a callback, which is known again by the memo that the
//! packet carried. The pool's books change only when a deposit is
//! acknowledged, and a command that ends with an error changes nothing.

pub mod config;
pub mod contract;
pub mod error;
pub mod handler;
pub mod memo;
pub mod msg;
pub mod state;
pub mod text;

pub use crate::error::ContractError;
