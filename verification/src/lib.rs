//! A vault of prepaid subscriptions, and what holds of it.

pub mod address;
pub mod admin;
pub mod agreements;
pub mod billing;
pub mod charging;
pub mod error;
pub mod events;
pub mod fixtures;
pub mod funds;
pub mod harness;
pub mod host;
pub mod laws;
pub mod ledger;
pub mod lifecycle;
pub mod metadata;
pub mod office;
pub mod oracle;
pub mod payouts;
pub mod policy;
pub mod queries;
pub mod reading;
pub mod requests;
pub mod roles;
pub mod statements;
pub mod status;
pub mod store;
pub mod text;
pub mod tries;
pub mod types;
pub mod vault;
pub mod walk;
pub mod wording;
