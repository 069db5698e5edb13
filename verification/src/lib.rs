//! Ownership resolution for a package registry.
//!
//! A crate may be owned by individual users or by group-backed teams whose
//! membership lives in an external identity provider. This library resolves
//! an owner reference string to a concrete [`Owner`], creates and refreshes
//! [`Team`] records under a live membership gate, and computes the strongest
//! [`Rights`] an actor holds given a crate's owner set.
//!
//! The library itself performs no I/O: callers fetch the provider's answers
//! (group listings, membership states, organization metadata) and hand them
//! in as plain data, and the persisted team rows live in a [`TeamStore`]
//! that callers own. Every function here is verified against its contract.

pub mod strutil;
pub mod model;
pub mod error;
pub mod provider;
pub mod rights;
pub mod store;
pub mod team_sync;
pub mod directory;
pub mod encode;

pub use encode::{EncodableOwner, EncodableTeam};
pub use error::OwnerError;
pub use model::{CrateOwner, NewTeam, Owner, OwnerKind, Team, User};
pub use provider::{GithubTeam, MembershipState, ProviderData};
pub use rights::{rights, Rights};
pub use store::TeamStore;
