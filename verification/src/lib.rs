//! A type-registration bridge for exposing natively implemented object
//! types, markup-defined components, and introspection-only types to a
//! dynamically typed host runtime under a versioned namespace.
//!
//! The bridge is organised around [`qml::Module`], a versioned namespace
//! handle.  Registration operations on a module compose descriptors and
//! install them into the host's registration table, modelled by
//! [`registry::Registry`].  Element names that the caller does not supply
//! are derived by the naming resolver in [`name`].

pub mod name;
pub mod qml;
pub mod registry;
pub mod uuid;
pub mod version;
