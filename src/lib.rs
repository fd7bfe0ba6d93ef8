//! A small paste service: text is stored under an identifier in an outside
//! key-value store, and fetched, replaced, listed or deleted through it.
//!
//! The library holds every decision the service makes: how an identifier is
//! chosen (`ids`), how a requested time-to-live becomes a store write
//! (`ttl`), what each request writes and how each store answer becomes a
//! reply (`handlers`), and what the service expects of the store (`store`).
//! The laws that tie these together are proved in `laws`.

pub mod config;
pub mod handlers;
pub mod ids;
pub mod laws;
pub mod store;
pub mod ttl;
