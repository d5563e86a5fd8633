//! Event-sourced double-entry bookkeeping core.
//!
//! Users own journals, add accounts to them, post balanced credit/debit
//! transactions, and share journals under fine-grained permission grants.
//! Every aggregate (user, journal, account) is a pure fold over its ordered
//! event stream; commands validate against a fresh projection and append at
//! most one new event to the store.

pub mod account;
pub mod amounts;
pub mod auth;
pub mod credentials;
pub mod event;
pub mod grants;
pub mod ids;
pub mod invariants;
pub mod journal;
pub mod libs;
pub mod main_api;
pub mod return_types;
pub mod store;
pub mod user;
