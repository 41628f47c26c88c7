//! A relay that mirrors public posts of Mastodon servers onto Nostr relays.
//!
//! The library holds the relay's rules: the records of the store, the job
//! queue's state machine, the pre-queue filter, the poster's pipeline and the
//! listener's reconnect policy. The binary around it performs the I/O.

pub mod health;
pub mod types;
pub mod url;
pub mod queue;
pub mod store;
pub mod admission;
pub mod poster;
pub mod listener;
