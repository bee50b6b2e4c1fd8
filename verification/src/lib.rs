//! Model layer of a password manager client: the shape of a stored account,
//! self-describing field metadata, the contract of a keyed record store, and
//! the request/notification protocol that a presentation layer drives.

pub mod text;
pub mod model;
pub mod account;
pub mod store;
pub mod protocol;
