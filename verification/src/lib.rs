//! A sink for account notifications of a validator: it selects the accounts
//! owned by configured programs and prepares their upsert into a remote
//! relational store.

pub mod codec;
pub mod config;
pub mod filter;
pub mod forward;
pub mod sink;
