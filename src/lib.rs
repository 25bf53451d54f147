//! Core engine of a package manager: manifests that freeze into immutable
//! build snapshots, dependency records, build contexts, registry login
//! dispatch and multi-registry publication.

pub mod config;
pub mod semver;
pub mod dependency;
pub mod pipeline;
pub mod registry;
pub mod publish;
