//! A single-node remote execution agent: the job lifecycle (registry, outcome
//! of a finished process, the decision taken by each round of a wait) and the
//! file synchronisation protocol (fingerprints, diff, payload transport).

pub mod error;
pub mod job;
pub mod registry;
pub mod runner;
pub mod sync;
pub mod workdir;
