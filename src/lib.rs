//! Synchronisation of a game client's files against a remote content source:
//! rule resolution for the host platform, a content store addressed by hash
//! with a locator index, freshness checks for cached documents, planning of the
//! artifacts a launch needs, and assembly of the launch command line.
pub mod asset_index;
pub mod config;
pub mod directories;
pub mod freshness;
pub mod hashing;
pub mod instance;
pub mod profile;
pub mod rules;
pub mod store;
pub mod sync;
pub mod text;
pub mod version_manifest;
