//! A client layer for a blockchain node that watches the pending-transaction
//! feed.
//!
//! The layer owns an inner node client, hands every reply of that client
//! through unchanged (failures re-tagged as [`ClientError`]), and decides,
//! reply by reply, what a consumer of the pending-transaction feed does next
//! and what it reports. The library never talks to a node itself: the caller
//! performs each request and hands the reply back.

pub mod client;
pub mod error;
pub mod feed;
pub mod session;
pub mod types;

pub use client::ClientMiddleware;
pub use error::ClientError;
pub use feed::{Event, Next, Pending, Step};
pub use session::FeedItem;
pub use types::{Address, Amount, Report, TransactionRecord, TxHash};
