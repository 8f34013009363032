//! Discovery and lifecycle control for directory-based game-server
//! installations: probing the installed runtime's version, classifying an
//! installation folder, detecting whether a server is running via its lock
//! artifact, batch-probing many saved installations, and building the
//! platform-specific launch and terminate invocations.
//!
//! All filesystem, process and YAML work happens outside this crate; the
//! functions here take plain snapshots of that outside state (directory
//! listings, parsed settings, lock-probe outcomes, captured command output)
//! and make every decision over them.

pub mod batch;
pub mod model;
pub mod numbers;
pub mod process;
pub mod runtime;
pub mod scan;
pub mod status;
