//! Derives a JSON compilation database from a declarative description of a
//! source tree: glob-selected directory branches, each with compiler flags,
//! include paths, and a file-discovery strategy.
//!
//! The crate holds the verified resolution pipeline. It works on plain
//! values: a snapshot of the directory tree, the text a discovery tool
//! printed, and the answers of the canonicalization and existence probes
//! that a thin driver performs around it.
pub mod branchres;
pub mod compiler;
pub mod discover;
pub mod entry;
pub mod includes;
pub mod laws;
pub mod model;
pub mod pattern;
pub mod text;
pub mod toolcmd;
