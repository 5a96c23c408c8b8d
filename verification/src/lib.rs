//! A confidential-balance ledger core: per-owner committed balances held at
//! derived addresses, and authorized, replay-protected transfers between them.

pub mod account;
pub mod address;
pub mod error;
pub mod event;
pub mod laws;
pub mod scheme;
pub mod store;
pub mod transfer;
