//! An access-controlled membership registry: a single owner account manages
//! two independent sets of account identifiers, a registration whitelist and
//! a whitelist, behind an authorization rule enforced on every mutation.

pub mod account;
pub mod members;
pub mod registry;
pub mod laws;
