//! Construction of native type descriptors for an embedding host runtime.
//!
//! From a declarative class description this library assembles the flat,
//! sentinel-terminated tables (methods, properties, members), the derived
//! flag bitmask, the qualified type name and the ordered slot list that the
//! host runtime's type-creation entry point consumes, and it computes the
//! direct field patches that legacy host-runtime versions need after the
//! type object has been created.
//!
//! The host runtime itself (type creation, allocation, error fetching) is an
//! external collaborator: this library only prepares the specification that
//! is handed to it and decides what happens with the outcome.

pub mod bytes;
pub mod create;
pub mod defs;
pub mod flags;
pub mod laws;
pub mod names;
pub mod patch;
pub mod slots;
pub mod tables;
