//! Client-side logic for server-streamed subscriptions to a real-time ledger
//! data feed.
//!
//! - `request` and `shredstream` build the wire form of subscription
//!   requests, keeping every setting the caller left out unset.
//! - `session` decides, for one open stream, what happens on each message,
//!   close request and end of stream, with exactly one terminal notification.
//! - `update` and `entry` model the inbound messages and decoded ledger entries.
//! - `config` fills in client settings and the metadata every call carries.
pub mod config;
pub mod entry;
pub mod request;
pub mod session;
pub mod shredstream;
pub mod update;
