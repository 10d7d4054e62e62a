//! A store of short owned notes: creation, update and deletion with field
//! limits, owner-only mutation, deterministic addressing and a fixed-size
//! binary record layout.

pub mod pubkey;
pub mod note;
pub mod address;
pub mod store;
pub mod laws;
pub mod layout;
