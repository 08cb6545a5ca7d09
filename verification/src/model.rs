//! The configuration read at startup, the database rows produced, and the
//! errors that abort a run. Paths are plain Unix-style strings.
use vstd::prelude::*;

verus! {

/// One configured grouping of source directories: a glob selecting the
/// directories, extra compiler flags and include paths, and an optional
/// file-discovery strategy (`mask` wins over `tool`; with neither, a
/// built-in mask of common C/C++ extensions is used).
pub struct Branch {
    pub branch: String,
    pub compile_flags: Option<String>,
    pub include_paths: Option<Vec<String>>,
    pub mask: Option<Vec<String>>,
    pub tool: Option<String>,
}

/// The whole configuration: global flags and include paths, and the
/// branches in declaration order.
pub struct Config {
    pub compile_flags: Option<String>,
    pub include_paths: Option<Vec<String>>,
    pub branches: Vec<Branch>,
}

/// One row of the compilation database.
pub struct CLangEntry {
    pub directory: String,
    pub file: String,
    pub command: Option<String>,
}

/// A fatal pipeline error. Filesystem listing trouble during discovery is
/// tolerated and never reaches this type; these abort the whole run.
#[derive(Debug)]
pub enum GenError {
    /// A branch glob did not parse; `detail` is the glob library's diagnostic.
    InvalidPattern { pattern: String, detail: String },
    /// A discovery tool exited with a non-zero status.
    ToolFailed { tool: String, code: i32, stdout: String, stderr: String },
    /// An include path could not be canonicalized against its anchor.
    PathResolution { path: String, base: String },
    /// No candidate compiler was found on the search path for this file.
    CompilerNotFound { file: String },
    /// The executable search-path environment variable is absent.
    SearchPathMissing,
    /// A discovered file path has no parent directory.
    NoParent { file: String },
    /// A discovered file path has no final name component.
    NoFileName { file: String },
}

} // verus!
