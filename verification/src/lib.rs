//! A generic persistence layer: uniquely identified entities are created,
//! queried, partially updated and deleted through a repository interface,
//! with optional multi-operation transactions.
//!
//! The repository semantics are given by a verified in-memory document
//! store; an unverified driver binds the same operations to an external
//! document database.

pub mod api;
pub mod context;
pub mod domain;
pub mod id;
pub mod input;
pub mod item;
pub mod name;
pub mod repo;
pub mod store;

pub use id::Id;
pub use id::MalformedIdError;
pub use name::EmptyNameError;
pub use name::Name;
