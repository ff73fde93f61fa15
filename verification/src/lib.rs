//! Data-access layer for a small account/alias/user directory service.
//!
//! The library owns the partial-update builder, the resource repositories
//! (account settings, aliases, user directory), the first-login provisioning
//! hook, and request validation. All store access goes through a single
//! serialized connection held by [`store::Store`].

pub mod account;
pub mod alias;
pub mod auth;
pub mod error;
pub mod laws;
pub mod params;
pub mod store;
pub mod user;
pub mod util;
