//! Core of a batch artifact-generation runner.
//!
//! Given the listing of a directory of input description files, the library
//! selects the entries that carry the recognized input suffix, derives a
//! deterministic output artifact name for each, fixes the argument list of
//! the external computation that produces the artifact, and aggregates the
//! per-item outcomes into a single fail-fast batch result.  The work of
//! actually listing directories and spawning the external computation is left
//! to the caller; every decision about what to run and what a run's outcomes
//! mean is made here.

pub mod batch;
pub mod election_mirror;
pub mod enumerate;
pub mod invoke;
pub mod naming;
