//! Project kinds: how a request names them, which manifests they own, and which
//! build-output directories sit beside those manifests.
use vstd::prelude::*;
use vstd::string::StringExecFns;

use crate::entry::Entry;
use crate::parts::{MavenTargetType, ProjectType};
use crate::text::same_text;

verus! {

/// The kind a request's textual tag selects; unknown tags select every kind.
pub open spec fn mapping_spec(tag: Seq<char>) -> ProjectType {
    if tag == "maven"@ {
        ProjectType::Maven
    } else if tag == "cargo"@ {
        ProjectType::Cargo
    } else {
        ProjectType::Any
    }
}

/// Whether a scan for kind `k` keeps an entry with base name `name`.
pub open spec fn accepts_spec(k: ProjectType, name: Seq<char>) -> bool {
    match k {
        ProjectType::Cargo => name == "Cargo.toml"@,
        ProjectType::Maven => name == "pom.xml"@,
        ProjectType::Any => name == "Cargo.toml"@ || name == "pom.xml"@,
    }
}

/// The kind of project that a manifest's base name declares, if any.
pub open spec fn manifest_kind_spec(name: Seq<char>) -> Option<ProjectType> {
    if name == "Cargo.toml"@ {
        Some(ProjectType::Cargo)
    } else if name == "pom.xml"@ {
        Some(ProjectType::Maven)
    } else {
        None
    }
}

/// The label that a kind's candidates carry.
pub open spec fn label_spec(k: ProjectType) -> Seq<char> {
    match k {
        ProjectType::Cargo => "Cargo"@,
        ProjectType::Maven => "Maven"@,
        ProjectType::Any => Seq::empty(),
    }
}

/// The names of the build-output directories beside a manifest of kind `k`.
pub open spec fn artifact_names_spec(k: ProjectType) -> Seq<Seq<char>> {
    match k {
        ProjectType::Cargo => seq!["target"@],
        ProjectType::Maven => seq!["target"@, "build"@],
        ProjectType::Any => Seq::empty(),
    }
}

/// Whether a project of kind `k` owns a build-output directory named `n`.
pub open spec fn owns_spec(k: ProjectType, n: Seq<char>) -> bool {
    match k {
        ProjectType::Cargo => n == "target"@,
        ProjectType::Maven => n == "target"@ || n == "build"@,
        ProjectType::Any => false,
    }
}

/// The paths of the first `n` entries that a scan for kind `k` keeps, in walk order.
pub open spec fn manifests_upto(es: Seq<Entry>, k: ProjectType, n: int) -> Seq<String>
    decreases n,
{
    if n <= 0 {
        Seq::empty()
    } else {
        let before = manifests_upto(es, k, n - 1);
        if accepts_spec(k, es[n - 1].name@) {
            before.push(es[n - 1].path)
        } else {
            before
        }
    }
}

/// The paths of all entries that a scan for kind `k` keeps, in walk order.
pub open spec fn manifests_spec(es: Seq<Entry>, k: ProjectType) -> Seq<String> {
    manifests_upto(es, k, es.len() as int)
}

impl ProjectType {
    /// The manifest file name of the kind; empty for `Any`.
    pub fn tag(&self) -> (r: &'static str)
        ensures
            r@ == match *self {
                ProjectType::Cargo => "Cargo.toml"@,
                ProjectType::Maven => "pom.xml"@,
                ProjectType::Any => Seq::<char>::empty(),
            },
    {
        match self {
            ProjectType::Cargo => "Cargo.toml",
            ProjectType::Maven => "pom.xml",
            _ => {
                proof {
                    reveal_strlit("");
                }
                ""
            },
        }
    }

    /// Reads a request's kind tag: `"maven"`, `"cargo"`, anything else is `Any`.
    pub fn mapping(_type: &str) -> (r: Self)
        ensures
            r == mapping_spec(_type@),
    {
        if same_text(_type, "maven") {
            ProjectType::Maven
        } else if same_text(_type, "cargo") {
            ProjectType::Cargo
        } else {
            ProjectType::Any
        }
    }

    /// Whether a scan for this kind keeps an entry named `name`.
    pub fn accepts(&self, name: &str) -> (r: bool)
        ensures
            r == accepts_spec(*self, name@),
    {
        match self {
            ProjectType::Cargo => same_text(name, "Cargo.toml"),
            ProjectType::Maven => same_text(name, "pom.xml"),
            ProjectType::Any => same_text(name, "Cargo.toml") || same_text(name, "pom.xml"),
        }
    }

    /// The label that this kind's candidates carry.
    pub fn label(&self) -> (r: String)
        ensures
            r@ == label_spec(*self),
    {
        match self {
            ProjectType::Cargo => String::from_str("Cargo"),
            ProjectType::Maven => String::from_str("Maven"),
            ProjectType::Any => String::new(),
        }
    }

    /// Whether a project of this kind owns a build-output directory named `name`.
    pub fn owns_artifact(&self, name: &str) -> (r: bool)
        ensures
            r == owns_spec(*self, name@),
    {
        match self {
            ProjectType::Cargo => same_text(name, "target"),
            ProjectType::Maven => same_text(name, "target") || same_text(name, "build"),
            ProjectType::Any => false,
        }
    }

    /// The names of the build-output directories beside a manifest of this kind.
    pub fn artifact_dir_names(&self) -> (r: Vec<String>)
        ensures
            r@.len() == artifact_names_spec(*self).len(),
            forall|i: int| 0 <= i < r@.len() ==> r@[i]@ == artifact_names_spec(*self)[i],
    {
        let mut names: Vec<String> = Vec::new();
        match self {
            ProjectType::Cargo => {
                names.push(MavenTargetType::Target.name());
            },
            ProjectType::Maven => {
                names.push(MavenTargetType::Target.name());
                names.push(MavenTargetType::Build.name());
            },
            ProjectType::Any => {},
        }
        names
    }
}

impl MavenTargetType {
    /// The directory name: `"target"` or `"build"`.
    pub fn name(&self) -> (r: String)
        ensures
            r@ == match *self {
                MavenTargetType::Target => "target"@,
                MavenTargetType::Build => "build"@,
            },
    {
        match self {
            MavenTargetType::Target => String::from_str("target"),
            MavenTargetType::Build => String::from_str("build"),
        }
    }
}

/// The path of the build-output directory `name` in the project directory `dir`.
pub fn artifact_path(dir: &str, name: &str) -> (r: String)
    ensures
        r@ == dir@ + "/"@ + name@,
{
    let mut s = String::from_str(dir);
    s.append("/");
    s.append(name);
    s
}

/// The kind of project that a manifest named `file_name` declares, if any.
pub fn process_project(file_name: &str) -> (r: Option<ProjectType>)
    ensures
        r == manifest_kind_spec(file_name@),
{
    if same_text(file_name, "Cargo.toml") {
        Some(ProjectType::Cargo)
    } else if same_text(file_name, "pom.xml") {
        Some(ProjectType::Maven)
    } else {
        None
    }
}

/// The paths of the walked entries that are manifests of kind `k`, in walk order.
pub fn find_manifests(entries: &Vec<Entry>, k: &ProjectType) -> (r: Vec<String>)
    ensures
        r@ == manifests_spec(entries@, *k),
{
    let mut found: Vec<String> = Vec::new();
    let mut i: usize = 0;
    while i < entries.len()
        invariant
            i <= entries@.len(),
            found@ == manifests_upto(entries@, *k, i as int),
        decreases entries@.len() - i,
    {
        if k.accepts(entries[i].name.as_str()) {
            found.push(entries[i].path.clone());
        }
        i = i + 1;
    }
    found
}

/// A scan for `Cargo` keeps only `Cargo.toml` manifests and one for `Maven` only `pom.xml`
/// manifests, so each kind's candidates carry that kind's label and never the other's.
pub proof fn lemma_kinds_apart(name: Seq<char>)
    ensures
        accepts_spec(ProjectType::Cargo, name) ==> manifest_kind_spec(name) == Some(ProjectType::Cargo),
        accepts_spec(ProjectType::Maven, name) ==> manifest_kind_spec(name) == Some(ProjectType::Maven),
        label_spec(ProjectType::Cargo) != label_spec(ProjectType::Maven),
{
    reveal_strlit("Cargo.toml");
    reveal_strlit("pom.xml");
    reveal_strlit("Cargo");
    reveal_strlit("Maven");
    assert("Cargo"@[0] != "Maven"@[0]);
    assert("pom.xml"@.len() != "Cargo.toml"@.len());
}

/// Every manifest that a scan for `Cargo` or for `Maven` finds, a scan for any kind finds
/// too, in the same relative order.
pub proof fn lemma_any_covers(es: Seq<Entry>, n: int)
    requires
        0 <= n <= es.len(),
    ensures
        forall|p: String| manifests_upto(es, ProjectType::Cargo, n).contains(p)
            ==> manifests_upto(es, ProjectType::Any, n).contains(p),
        forall|p: String| manifests_upto(es, ProjectType::Maven, n).contains(p)
            ==> manifests_upto(es, ProjectType::Any, n).contains(p),
    decreases n,
{
    if n > 0 {
        lemma_any_covers(es, n - 1);
        let c0 = manifests_upto(es, ProjectType::Cargo, n - 1);
        let m0 = manifests_upto(es, ProjectType::Maven, n - 1);
        let a0 = manifests_upto(es, ProjectType::Any, n - 1);
        let a = manifests_upto(es, ProjectType::Any, n);
        assert forall|p: String| a0.contains(p) implies a.contains(p) by {
            let j = choose|j: int| 0 <= j < a0.len() && a0[j] == p;
            if accepts_spec(ProjectType::Any, es[n - 1].name@) {
                assert(a[j] == p);
            }
        }
        if accepts_spec(ProjectType::Any, es[n - 1].name@) {
            assert(a[a.len() - 1] == es[n - 1].path);
        }
    }
}

} // verus!
