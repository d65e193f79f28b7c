//! Lifecycle of a shared-deposit event: the record kept for one event, its
//! fixed byte layout, the gates that guard every change, and the transitions
//! between its states.

pub mod account;
pub mod checks;
pub mod codec;
pub mod error;
pub mod identity;
pub mod instruction;
pub mod laws;
pub mod processor;
pub mod state;
pub mod transfer;
mod wire;
