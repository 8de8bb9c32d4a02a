//! A lightweight, file-backed data cache for CLI libraries.
//!
//! A [`Tote`](cache::Tote) binds a backing-file path and a maximum age to a
//! cached value type. Stored data is trusted only while the backing file is
//! younger than the configured age; anything else (missing file, expired
//! file, unreadable or undecodable contents) counts as a miss and triggers a
//! caller-supplied fetch, whose result is encoded and written back.
//!
//! The crate verifies the whole decision cycle: the validity predicate, the
//! read outcome, and the miss/fetch/persist protocol, which is exposed as a
//! small step machine ([`cache::GetStep`]) so that a host can perform the
//! file system work while every decision in between is proved.

pub mod cache;
pub mod codec;

pub use cache::Fetch;
pub use cache::GetStep;
pub use cache::Tote;
pub use cache::ToteError;
pub use codec::Codec;
pub use codec::Record;
