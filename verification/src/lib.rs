//! A verified non-fungible-token registry: it tracks which account owns which
//! uniquely identified asset, who may act on an owner's behalf, and
//! collection-level metadata and ownership roles, with a version-gated,
//! non-destructive migration of legacy storage layouts.

pub mod assoc;
pub mod error;
pub mod execute;
pub mod expiration;
pub mod laws;
pub mod metadata;
pub mod migrate;
pub mod msgs;
pub mod non_transferable;
pub mod order;
pub mod query;
pub mod roles;
pub mod state;
pub mod tokens;
pub mod urls;
pub mod version;
