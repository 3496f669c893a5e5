//! A locally-authoritative naming registry that mirrors domain ownership and
//! record state from an external source registry, while also accepting a
//! limited set of direct local mutations (registration, renewal, transfer,
//! resolver and record updates) against the same entries.
//!
//! Every operation is a single atomic step: it validates the caller and the
//! current entry values, then either rewrites the entries it was handed or
//! fails with one error kind and leaves everything unchanged. The host that
//! owns the durable store loads each entry by its derived key, passes it in,
//! and commits the new value only on success.

pub mod domain;
pub mod events;
pub mod keys;
pub mod laws;
pub mod record;
pub mod registry;
pub mod types;
