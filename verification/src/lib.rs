//! A read-through cache in front of an HTTP client, as a pure decision core.
//!
//! The crate decides; its caller does the outside work. [`CachingClient::send`]
//! is a transition function: it takes where a call stands and what the store,
//! the transport or the clock just answered, and says what to do next. The
//! record layout of a stored entry, the freshness rule and the rule for which
//! responses are kept are all fixed here, each with a contract that Verus
//! proves.

pub mod client;
pub mod entry;
pub mod error;
pub mod machine;
pub mod model;
pub mod time;

pub use client::{cache_key, is_cacheable, CachingClient};
pub use entry::CacheEntry;
pub use error::Error;
pub use machine::{Action, Event, State};
pub use time::{CacheDuration, Timestamp};
