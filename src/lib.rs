//! An access-controlled client registry.
//!
//! One administrator identity, set once and never changed, governs a
//! collection of client records held in a key-value store. Every mutation of
//! the registry first demands an authorization proof from the administrator.

pub mod contract;
pub mod env;
pub mod laws;
pub mod storage;
pub mod store;
pub mod types;
pub mod xdr;

pub use contract::Contract;
pub use env::{Auth, Env};
pub use store::Storage;
pub use types::{Address, Client, ClientStatus, DataKey, Error, Value};
