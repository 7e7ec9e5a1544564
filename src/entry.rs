//! One object found by a directory walk.
use vstd::prelude::*;

use crate::error::PanError;

verus! {

/// A walked filesystem object: its full path and its base name.
pub struct Entry {
    pub path: String,
    pub name: String,
}

/// A regular file's readable metadata: its length in bytes and, where the system
/// reports one, its modification time in whole seconds since the Unix epoch.
pub struct FileMeta {
    pub len: u64,
    pub modified_secs: Option<u64>,
}

/// A build-output directory found beside a manifest: the project directory, the
/// directory's own name in it, and the regular files in it.
pub struct ArtifactDir {
    pub dir: String,
    pub name: String,
    pub files: Vec<FileMeta>,
}

/// What was found for one manifest: its base name and path, the paths of the sub-module
/// manifests it declares and that were followed, and its build-output directories or the
/// error that reading it gave.
pub struct ManifestFindings {
    pub name: String,
    pub path: String,
    pub modules: Vec<String>,
    pub dirs: Result<Vec<ArtifactDir>, PanError>,
}

} // verus!
