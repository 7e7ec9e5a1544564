//! The walk over a Maven project's declared sub-modules: a worklist of manifests with a
//! visited set and a depth cap, so that poms that name their ancestors still end.
use vstd::prelude::*;
use vstd::string::StringExecFns;

use crate::error::PanError;
use crate::parts::MavenPom;

verus! {

/// How many sub-module levels below a manifest are followed.
pub const MAX_MODULE_DEPTH: usize = 64;

/// Whether some path in `v` is the text `p`.
pub open spec fn visited_has(v: Seq<String>, p: Seq<char>) -> bool {
    exists|i: int| 0 <= i < v.len() && v[i]@ == p
}

/// The manifests still to analyse, each with its depth below the first, and every
/// manifest ever queued.
pub struct MavenWalk {
    pub pending: Vec<(String, usize)>,
    pub visited: Vec<String>,
}

impl MavenWalk {
    /// Whether every queued manifest has been recorded as visited, within the depth cap.
    pub open spec fn wf(&self) -> bool {
        forall|i: int|
            0 <= i < self.pending@.len() ==> visited_has(self.visited@, self.pending@[i].0@)
                && self.pending@[i].1 <= MAX_MODULE_DEPTH
    }

    /// A walk that starts at the manifest `root`.
    pub fn new(root: String) -> (r: MavenWalk)
        ensures
            r.wf(),
            r.pending@ == seq![(root, 0usize)],
            r.visited@ == seq![root],
    {
        let mut visited: Vec<String> = Vec::new();
        visited.push(root.clone());
        let mut pending: Vec<(String, usize)> = Vec::new();
        pending.push((root, 0));
        let r = MavenWalk { pending, visited };
        assert(r.visited@[0]@ == r.pending@[0].0@);
        r
    }

    fn is_visited(&self, path: &String) -> (r: bool)
        ensures
            r == visited_has(self.visited@, path@),
    {
        let mut i: usize = 0;
        while i < self.visited.len()
            invariant
                i <= self.visited@.len(),
                forall|k: int| 0 <= k < i ==> self.visited@[k]@ != path@,
            decreases self.visited@.len() - i,
        {
            if self.visited[i] == *path {
                return true;
            }
            i = i + 1;
        }
        false
    }

    /// Queues the sub-module manifest `path` found at `depth`, unless it lies beyond the
    /// depth cap or was queued before; says whether it was queued.
    pub fn push_module(&mut self, path: String, depth: usize) -> (r: bool)
        requires
            old(self).wf(),
        ensures
            final(self).wf(),
            r == (depth <= MAX_MODULE_DEPTH && !visited_has(old(self).visited@, path@)),
            r ==> final(self).pending@ == old(self).pending@.push((path, depth))
                && final(self).visited@ == old(self).visited@.push(path),
            !r ==> *final(self) == *old(self),
    {
        if depth > MAX_MODULE_DEPTH || self.is_visited(&path) {
            return false;
        }
        let ghost before = *self;
        self.visited.push(path.clone());
        self.pending.push((path, depth));
        assert forall|i: int| 0 <= i < self.pending@.len() implies visited_has(
            self.visited@,
            self.pending@[i].0@,
        ) && self.pending@[i].1 <= MAX_MODULE_DEPTH by {
            if i < before.pending@.len() {
                let k = choose|k: int|
                    0 <= k < before.visited@.len() && before.visited@[k]@ == before.pending@[i].0@;
                assert(self.visited@[k] == before.visited@[k]);
            } else {
                assert(self.visited@[self.visited@.len() - 1]@ == path@);
            }
        }
        true
    }

    /// Takes the most recently queued manifest, if any is left.
    pub fn next_manifest(&mut self) -> (r: Option<(String, usize)>)
        requires
            old(self).wf(),
        ensures
            final(self).wf(),
            final(self).visited@ == old(self).visited@,
            old(self).pending@.len() == 0 ==> r is None && final(self).pending@ == old(self).pending@,
            old(self).pending@.len() > 0 ==> r == Some(old(self).pending@.last())
                && final(self).pending@ == old(self).pending@.drop_last(),
            r matches Some(m) ==> m.1 <= MAX_MODULE_DEPTH && visited_has(final(self).visited@, m.0@),
    {
        let r = self.pending.pop();
        r
    }
}

/// The manifest path of the sub-module `module` of the project in `project_dir`.
pub fn module_manifest(project_dir: &str, module: &str) -> (r: String)
    ensures
        r@ == project_dir@ + "/"@ + module@ + "/pom.xml"@,
{
    let mut s = String::from_str(project_dir);
    s.append("/");
    s.append(module);
    s.append("/pom.xml");
    s
}

/// The manifest paths of all sub-modules that `pom` declares, in declaration order.
pub fn module_manifests(project_dir: &str, pom: &MavenPom) -> (r: Vec<String>)
    ensures
        r@.len() == pom.modules.module@.len(),
        forall|i: int|
            0 <= i < r@.len() ==> r@[i]@ == project_dir@ + "/"@ + pom.modules.module@[i]@
                + "/pom.xml"@,
{
    let mut out: Vec<String> = Vec::new();
    let mut i: usize = 0;
    while i < pom.modules.module.len()
        invariant
            i <= pom.modules.module@.len(),
            out@.len() == i,
            forall|k: int|
                0 <= k < i ==> out@[k]@ == project_dir@ + "/"@ + pom.modules.module@[k]@
                    + "/pom.xml"@,
        decreases pom.modules.module@.len() - i,
    {
        out.push(module_manifest(project_dir, pom.modules.module[i].as_str()));
        i = i + 1;
    }
    out
}

/// What a failure to read or parse the manifest found at `depth` does: at the first
/// manifest it fails the project; further down it only drops that branch.
pub fn branch_failure(depth: usize, e: PanError) -> (r: Option<PanError>)
    ensures
        depth == 0 ==> r == Some(e),
        depth > 0 ==> r is None,
{
    if depth == 0 {
        Some(e)
    } else {
        None
    }
}

} // verus!
