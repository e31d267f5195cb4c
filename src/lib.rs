//! Feed acquisition and caching engine: validated feed URLs, the parsed feed
//! model, a size-capped body buffer, the fetch error taxonomy, a time- and
//! size-bounded single-flight cache table and in-order batch collection.
pub mod types;
pub mod cache;
pub mod error;
pub mod body;
pub mod batch;
pub mod parser;
pub mod mutation;
pub mod client;
pub mod credential;
pub mod ui;
pub mod dependency;
