//! Account registry with role-based authorization.
//!
//! The registry maps principal identities to role bitmasks and creation
//! times. Privileged operations are gated behind the admin role.

pub mod account;
pub mod laws;
pub mod lock;
pub mod pallet;
pub mod payment;
pub mod registry;
pub mod weights;
