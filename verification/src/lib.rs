//! Backend bridge of a desktop application shell: a registry of named
//! operations and a loader that turns a bundled configuration resource into a
//! parsed document or a classified error.

pub mod commands;
pub mod document;
pub mod error;
pub mod loader;
pub mod locator;
pub mod registry;
