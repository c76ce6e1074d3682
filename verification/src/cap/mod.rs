//! Capabilities: permission sets, identifiers, derivation and grant with
//! authority reduction, memory-map authorization, revocation and the
//! capability table.

pub mod capability;
pub mod derivation;
pub mod id;
pub mod kind;
pub mod memory;
pub mod perms;
pub mod revocation;
pub mod table;
