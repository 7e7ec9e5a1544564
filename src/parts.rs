//! The data that the project cleanser reads and reports.
use vstd::prelude::*;

verus! {

/// Which project manifests a scan looks for.
pub enum ProjectType {
    Cargo,
    Maven,
    Any,
}

/// The build-output directories of a Maven project.
pub enum MavenTargetType {
    Target,
    Build,
}

/// The `<modules>` element of a pom: the declared sub-module directories.
pub struct MavenModule {
    pub module: Vec<String>,
}

/// The part of a pom that the scan reads.
pub struct MavenPom {
    pub modules: MavenModule,
}

/// A build-output directory offered for deletion.
pub struct CleanResult {
    pub path: String,
    pub occupied: String,
    pub size: u64,
    pub _type: String,
    pub updated_at: String,
}

/// The answer of a scan or a clean.
pub struct ProjectCleanserRespond {
    pub vec: Vec<CleanResult>,
    pub count: usize,
    pub occupied: String,
    pub total_size: u64,
    pub spent_millis: u128,
}

impl CleanResult {
    /// A field-by-field copy.
    pub fn duplicate(&self) -> (r: CleanResult)
        ensures
            r == *self,
    {
        CleanResult {
            path: self.path.clone(),
            occupied: self.occupied.clone(),
            size: self.size,
            _type: self._type.clone(),
            updated_at: self.updated_at.clone(),
        }
    }
}

} // verus!
