//! Size accounting, candidate building and the assembly of scan and clean answers.
use vstd::prelude::*;

use crate::entry::{ArtifactDir, FileMeta, ManifestFindings};
use crate::error::PanError;
use crate::outside::{decimal_size, format_decimal, local_date, MAX_DATED_SECS};
use crate::text::{date_shaped, ends_with_spec};
use crate::kinds::{
    accepts_spec, artifact_path, label_spec, manifest_kind_spec, mapping_spec, owns_spec,
    process_project,
};
use crate::parts::{CleanResult, ProjectCleanserRespond, ProjectType};

verus! {

/// A byte count clamped to what a `u64` holds.
pub open spec fn saturate(n: int) -> u64 {
    if n > u64::MAX {
        u64::MAX
    } else if n < 0 {
        0
    } else {
        n as u64
    }
}

/// The summed length of the first `n` files.
pub open spec fn files_total_upto(fs: Seq<FileMeta>, n: int) -> int
    decreases n,
{
    if n <= 0 {
        0
    } else {
        files_total_upto(fs, n - 1) + fs[n - 1].len
    }
}

/// The summed length of all files.
pub open spec fn files_total(fs: Seq<FileMeta>) -> int {
    files_total_upto(fs, fs.len() as int)
}

/// The latest modification time among the first `n` files, or 0 when none reports one.
pub open spec fn latest_upto(fs: Seq<FileMeta>, n: int) -> u64
    decreases n,
{
    if n <= 0 {
        0
    } else {
        let before = latest_upto(fs, n - 1);
        match fs[n - 1].modified_secs {
            Some(t) => if t > before { t } else { before },
            None => before,
        }
    }
}

/// The summed size of the first `n` candidates.
pub open spec fn sizes_upto(cs: Seq<CleanResult>, n: int) -> int
    decreases n,
{
    if n <= 0 {
        0
    } else {
        sizes_upto(cs, n - 1) + cs[n - 1].size
    }
}

/// The summed size of all candidates.
pub open spec fn sizes_total(cs: Seq<CleanResult>) -> int {
    sizes_upto(cs, cs.len() as int)
}

/// What an answer over `items` holds: the items, their number, their total size and that
/// size as text.
pub open spec fn respond_spec(r: ProjectCleanserRespond, items: Seq<CleanResult>, spent: u128) -> bool {
    &&& r.vec@ == items
    &&& r.count == items.len()
    &&& r.total_size == saturate(sizes_total(items))
    &&& r.occupied@ == decimal_size(r.total_size)
    &&& r.spent_millis == spent
}

proof fn lemma_files_total_nonneg(fs: Seq<FileMeta>, n: int)
    ensures
        files_total_upto(fs, n) >= 0,
    decreases n,
{
    if n > 0 {
        lemma_files_total_nonneg(fs, n - 1);
    }
}

proof fn lemma_sizes_nonneg(cs: Seq<CleanResult>, n: int)
    ensures
        sizes_upto(cs, n) >= 0,
    decreases n,
{
    if n > 0 {
        lemma_sizes_nonneg(cs, n - 1);
    }
}

/// Sums the files' lengths, clamped at `u64::MAX`.
pub fn total_length(files: &Vec<FileMeta>) -> (r: u64)
    ensures
        r == saturate(files_total(files@)),
{
    let mut total: u64 = 0;
    let mut i: usize = 0;
    while i < files.len()
        invariant
            i <= files@.len(),
            total == saturate(files_total_upto(files@, i as int)),
        decreases files@.len() - i,
    {
        proof {
            lemma_files_total_nonneg(files@, i as int);
        }
        let len = files[i].len;
        if len > u64::MAX - total {
            total = u64::MAX;
        } else {
            total = total + len;
        }
        i = i + 1;
    }
    total
}

/// The latest modification time among the files, or 0 when none reports one.
pub fn latest_modified(files: &Vec<FileMeta>) -> (r: u64)
    ensures
        r == latest_upto(files@, files@.len() as int),
{
    let mut latest: u64 = 0;
    let mut i: usize = 0;
    while i < files.len()
        invariant
            i <= files@.len(),
            latest == latest_upto(files@, i as int),
        decreases files@.len() - i,
    {
        match files[i].modified_secs {
            Some(t) => {
                if t > latest {
                    latest = t;
                }
            },
            None => {},
        }
        i = i + 1;
    }
    latest
}

/// Builds the candidate for the directory at `path` from the regular files found in it:
/// none when they hold no bytes, else one of kind `label` whose size is their summed
/// length and whose date is that of the latest modification, in local time, written
/// `YYYY-MM-DD` (empty where the time is beyond what the calendar writer accepts).
pub fn calculate_folder_metadata(path: String, files: &Vec<FileMeta>, label: &str) -> (r: Option<
    CleanResult,
>)
    ensures
        r is Some <==> files_total(files@) > 0,
        r matches Some(c) ==> {
            &&& c.path == path
            &&& c.size > 0
            &&& c.size == saturate(files_total(files@))
            &&& c.occupied@ == decimal_size(c.size)
            &&& c._type@ == label@
            &&& latest_upto(files@, files@.len() as int) <= MAX_DATED_SECS ==> date_shaped(
                c.updated_at@,
            )
        },
{
    let total = total_length(files);
    if total == 0 {
        proof {
            lemma_files_total_nonneg(files@, files@.len() as int);
        }
        return None;
    }
    let latest = latest_modified(files);
    let updated_at = if latest <= i64::MAX as u64 {
        match local_date(latest as i64) {
            Some(d) => d,
            None => String::new(),
        }
    } else {
        String::new()
    };
    Some(
        CleanResult {
            path,
            occupied: format_decimal(total),
            size: total,
            _type: label.to_string(),
            updated_at,
        },
    )
}

/// Packages candidates into an answer: their number, their total size (clamped at
/// `u64::MAX`), that size as text, and the time spent.
pub fn combine_respond(results: Vec<CleanResult>, spent_millis: u128) -> (r: Result<
    ProjectCleanserRespond,
    PanError,
>)
    ensures
        r matches Ok(resp) && respond_spec(resp, results@, spent_millis),
{
    let mut total: u64 = 0;
    let mut i: usize = 0;
    while i < results.len()
        invariant
            i <= results@.len(),
            total == saturate(sizes_upto(results@, i as int)),
        decreases results@.len() - i,
    {
        proof {
            lemma_sizes_nonneg(results@, i as int);
        }
        let size = results[i].size;
        if size > u64::MAX - total {
            total = u64::MAX;
        } else {
            total = total + size;
        }
        i = i + 1;
    }
    let count = results.len();
    Ok(
        ProjectCleanserRespond {
            vec: results,
            count,
            occupied: format_decimal(total),
            total_size: total,
            spent_millis,
        },
    )
}

/// The first `n` targets whose removal succeeded, in order.
pub open spec fn kept_upto(ts: Seq<CleanResult>, removed: Seq<bool>, n: int) -> Seq<CleanResult>
    decreases n,
{
    if n <= 0 {
        Seq::empty()
    } else {
        let before = kept_upto(ts, removed, n - 1);
        if removed[n - 1] {
            before.push(ts[n - 1])
        } else {
            before
        }
    }
}

/// What a report says of a candidate, its date aside: path, size and kind label.
pub type Row = (Seq<char>, u64, Seq<char>);

/// The row of a candidate.
pub open spec fn row_of(c: CleanResult) -> Row {
    (c.path@, c.size, c._type@)
}

/// The rows of candidates, in order.
pub open spec fn rows_of(cs: Seq<CleanResult>) -> Seq<Row> {
    cs.map_values(|c: CleanResult| row_of(c))
}

/// Whether a candidate is sound: it holds bytes, and its size text is that of its size.
pub open spec fn sound_candidate(c: CleanResult) -> bool {
    c.size > 0 && c.occupied@ == decimal_size(c.size)
}

/// The label that candidates beside a manifest named `name` carry.
pub open spec fn manifest_label(name: Seq<char>) -> Seq<char> {
    match manifest_kind_spec(name) {
        Some(k) => label_spec(k),
        None => Seq::empty(),
    }
}

/// Whether a manifest named `mname` owns a build-output directory named `n`.
pub open spec fn manifest_owns(mname: Seq<char>, n: Seq<char>) -> bool {
    match manifest_kind_spec(mname) {
        Some(k) => owns_spec(k, n),
        None => false,
    }
}

/// The path of the build-output directory `name` in the project directory `dir`.
pub open spec fn joined(dir: Seq<char>, name: Seq<char>) -> Seq<char> {
    dir + "/"@ + name
}

/// The rows of the first `n` directories beside a manifest named `mname` that it owns
/// and that hold bytes.
pub open spec fn dir_rows_upto(ds: Seq<ArtifactDir>, mname: Seq<char>, n: int) -> Seq<Row>
    decreases n,
{
    if n <= 0 {
        Seq::empty()
    } else {
        let before = dir_rows_upto(ds, mname, n - 1);
        let d = ds[n - 1];
        let t = files_total(d.files@);
        if manifest_owns(mname, d.name@) && t > 0 {
            before.push((joined(d.dir@, d.name@), saturate(t), manifest_label(mname)))
        } else {
            before
        }
    }
}

/// Whether a candidate's path ends in a directory name that its label owns: `/target`
/// for Cargo, `/target` or `/build` for Maven.
pub open spec fn path_fits_label(c: CleanResult) -> bool {
    ||| c._type@ == label_spec(ProjectType::Cargo) && ends_with_spec(c.path@, "/"@ + "target"@)
    ||| c._type@ == label_spec(ProjectType::Maven) && (ends_with_spec(c.path@, "/"@ + "target"@)
        || ends_with_spec(c.path@, "/"@ + "build"@))
}

proof fn lemma_joined_ends(dir: Seq<char>, name: Seq<char>)
    ensures
        ends_with_spec(joined(dir, name), "/"@ + name),
{
    let s = joined(dir, name);
    let t = "/"@ + name;
    assert(s.subrange(s.len() - t.len(), s.len() as int) =~= t);
}

/// Whether some findings declare the manifest at `p` as one of their sub-modules.
pub open spec fn declared(ms: Seq<ManifestFindings>, p: Seq<char>) -> bool {
    exists|i: int, j: int|
        0 <= i < ms.len() && 0 <= j < ms[i].modules@.len() && ms[i].modules@[j]@ == p
}

/// Whether the findings `m` fail a scan for kind `k`: the scan reads them, their manifest
/// is a pom that could not be read, and no other manifest declares it as a sub-module (a
/// sub-module's failure only drops that branch).
pub open spec fn fatal(ms: Seq<ManifestFindings>, k: ProjectType, m: ManifestFindings) -> bool {
    reads(k, m) && m.dirs is Err && manifest_kind_spec(m.name@) == Some(ProjectType::Maven)
        && !declared(ms, m.path@)
}

fn is_declared(ms: &Vec<ManifestFindings>, p: &String) -> (r: bool)
    ensures
        r == declared(ms@, p@),
{
    let mut i: usize = 0;
    while i < ms.len()
        invariant
            i <= ms@.len(),
            forall|a: int, b: int|
                0 <= a < i && 0 <= b < ms@[a].modules@.len() ==> ms@[a].modules@[b]@ != p@,
        decreases ms@.len() - i,
    {
        let mods = &ms[i].modules;
        let mut j: usize = 0;
        while j < mods.len()
            invariant
                i < ms@.len(),
                *mods == ms@[i as int].modules,
                j <= mods@.len(),
                forall|a: int, b: int|
                    0 <= a < i && 0 <= b < ms@[a].modules@.len() ==> ms@[a].modules@[b]@ != p@,
                forall|b: int| 0 <= b < j ==> mods@[b]@ != p@,
            decreases mods@.len() - j,
        {
            if mods[j] == *p {
                return true;
            }
            j = j + 1;
        }
        i = i + 1;
    }
    false
}

/// Whether a scan for kind `k` reads the findings `m`.
pub open spec fn reads(k: ProjectType, m: ManifestFindings) -> bool {
    accepts_spec(k, m.name@)
}

/// The rows of the candidates of the first `n` findings that a scan for `k` reads.
pub open spec fn rows_upto(ms: Seq<ManifestFindings>, k: ProjectType, n: int) -> Seq<Row>
    decreases n,
{
    if n <= 0 {
        Seq::empty()
    } else {
        let before = rows_upto(ms, k, n - 1);
        if reads(k, ms[n - 1]) {
            match ms[n - 1].dirs {
                Ok(v) => before + dir_rows_upto(v@, ms[n - 1].name@, v@.len() as int),
                Err(_) => before,
            }
        } else {
            before
        }
    }
}

/// The first `n` rows, each kept only where no earlier kept one is the same row.
pub open spec fn dedup_rows_upto(rs: Seq<Row>, n: int) -> Seq<Row>
    decreases n,
{
    if n <= 0 {
        Seq::empty()
    } else {
        let before = dedup_rows_upto(rs, n - 1);
        if before.contains(rs[n - 1]) {
            before
        } else {
            before.push(rs[n - 1])
        }
    }
}

fn contains_row(cs: &Vec<CleanResult>, c: &CleanResult) -> (r: bool)
    ensures
        r == rows_of(cs@).contains(row_of(*c)),
{
    let mut i: usize = 0;
    while i < cs.len()
        invariant
            i <= cs@.len(),
            forall|k: int| 0 <= k < i ==> row_of(cs@[k]) != row_of(*c),
        decreases cs@.len() - i,
    {
        if cs[i].path == c.path && cs[i].size == c.size && cs[i]._type == c._type {
            assert(rows_of(cs@)[i as int] == row_of(*c));
            return true;
        }
        i = i + 1;
    }
    proof {
        if rows_of(cs@).contains(row_of(*c)) {
            let w = choose|w: int| 0 <= w < rows_of(cs@).len() && rows_of(cs@)[w] == row_of(*c);
            assert(row_of(cs@[w]) == row_of(*c));
        }
    }
    false
}

/// The rows that a scan for kind `k` reports from the findings `ms`.
pub open spec fn scan_rows(ms: Seq<ManifestFindings>, k: ProjectType) -> Seq<Row> {
    let rs = rows_upto(ms, k, ms.len() as int);
    dedup_rows_upto(rs, rs.len() as int)
}

proof fn lemma_rows_push(cs: Seq<CleanResult>, c: CleanResult)
    ensures
        rows_of(cs.push(c)) == rows_of(cs).push(row_of(c)),
{
    assert(rows_of(cs.push(c)) =~= rows_of(cs).push(row_of(c)));
}

/// Scans the findings of a walk for projects of the kind that `target_type` names. Only
/// findings for that kind's manifests are read. The first of those, in walk order, that is
/// a pom which could not be read fails the scan, unless another manifest declares it as
/// a sub-module: then only that branch is dropped. Otherwise every build-output directory
/// that its manifest owns (`target` for Cargo, `target` or `build` for Maven) and that
/// holds bytes becomes a candidate labelled with its manifest's kind; each such row of
/// path, size and label is reported once, the first time it appears, and the answer
/// totals them.
pub fn scan_projects(target_type: &str, findings: Vec<ManifestFindings>, spent_millis: u128) -> (r:
    Result<ProjectCleanserRespond, PanError>)
    ensures
        r is Err <==> exists|i: int|
            0 <= i < findings@.len() && fatal(findings@, mapping_spec(target_type@), findings@[i]),
        r matches Err(e) ==> exists|i: int|
            0 <= i < findings@.len() && fatal(findings@, mapping_spec(target_type@), findings@[i])
                && findings@[i].dirs == Err::<Vec<ArtifactDir>, PanError>(e) && forall|j: int|
                0 <= j < i ==> !fatal(findings@, mapping_spec(target_type@), findings@[j]),
        mapping_spec(target_type@) == ProjectType::Cargo ==> r is Ok,
        r matches Ok(resp) ==> {
            &&& respond_spec(resp, resp.vec@, spent_millis)
            &&& rows_of(resp.vec@) == scan_rows(findings@, mapping_spec(target_type@))
            &&& forall|i: int| 0 <= i < resp.vec@.len() ==> sound_candidate(#[trigger] resp.vec@[i])
            &&& forall|i: int| 0 <= i < resp.vec@.len() ==> path_fits_label(#[trigger] resp.vec@[i])
            &&& mapping_spec(target_type@) != ProjectType::Any ==> forall|i: int|
                0 <= i < resp.vec@.len() ==> (#[trigger] resp.vec@[i])._type@ == label_spec(
                    mapping_spec(target_type@),
                )
        },
{
    let k = ProjectType::mapping(target_type);
    let ghost ms = findings@;
    let mut flat: Vec<CleanResult> = Vec::new();
    let mut i: usize = 0;
    while i < findings.len()
        invariant
            ms == findings@,
            k == mapping_spec(target_type@),
            i <= ms.len(),
            rows_of(flat@) == rows_upto(ms, k, i as int),
            forall|q: int| 0 <= q < flat@.len() ==> sound_candidate(#[trigger] flat@[q]),
            forall|q: int| 0 <= q < flat@.len() ==> path_fits_label(#[trigger] flat@[q]),
            k != ProjectType::Any ==> forall|q: int|
                0 <= q < flat@.len() ==> (#[trigger] flat@[q])._type@ == label_spec(k),
            forall|j: int| 0 <= j < i ==> !fatal(ms, k, ms[j]),
        decreases ms.len() - i,
    {
        let m = &findings[i];
        if k.accepts(m.name.as_str()) {
            let kind = process_project(m.name.as_str());
            proof {
                crate::kinds::lemma_kinds_apart(m.name@);
            }
            match &m.dirs {
                Err(e) => {
                    if matches!(kind, Some(ProjectType::Maven)) && !is_declared(&findings, &m.path) {
                        return Err(e.duplicate());
                    }
                },
                Ok(v) => {
                    let label = match &kind {
                        Some(kk) => kk.label(),
                        None => String::new(),
                    };
                    let mut j: usize = 0;
                    while j < v.len()
                        invariant
                            ms == findings@,
                            k == mapping_spec(target_type@),
                            i < ms.len(),
                            ms[i as int].dirs == Ok::<Vec<ArtifactDir>, PanError>(*v),
                            reads(k, ms[i as int]),
                            kind == manifest_kind_spec(ms[i as int].name@),
                            label@ == manifest_label(ms[i as int].name@),
                            k != ProjectType::Any ==> label@ == label_spec(k),
                            j <= v@.len(),
                            rows_of(flat@) == rows_upto(ms, k, i as int) + dir_rows_upto(
                                v@,
                                ms[i as int].name@,
                                j as int,
                            ),
                            forall|q: int| 0 <= q < flat@.len() ==> sound_candidate(#[trigger] flat@[q]),
                            forall|q: int| 0 <= q < flat@.len() ==> path_fits_label(#[trigger] flat@[q]),
                            k != ProjectType::Any ==> forall|q: int|
                                0 <= q < flat@.len() ==> (#[trigger] flat@[q])._type@ == label_spec(k),
                        decreases v@.len() - j,
                    {
                        let d = &v[j];
                        let owned = match &kind {
                            Some(kk) => kk.owns_artifact(d.name.as_str()),
                            None => false,
                        };
                        if owned {
                            let path = artifact_path(d.dir.as_str(), d.name.as_str());
                            proof {
                                lemma_joined_ends(d.dir@, d.name@);
                            }
                            match calculate_folder_metadata(path, &d.files, label.as_str()) {
                                Some(c) => {
                                    proof {
                                        lemma_rows_push(flat@, c);
                                        assert(rows_upto(ms, k, i as int) + dir_rows_upto(
                                            v@,
                                            ms[i as int].name@,
                                            j + 1,
                                        ) =~= (rows_upto(ms, k, i as int) + dir_rows_upto(
                                            v@,
                                            ms[i as int].name@,
                                            j as int,
                                        )).push(row_of(c)));
                                    }
                                    flat.push(c);
                                },
                                None => {},
                            }
                        }
                        j = j + 1;
                    }
                },
            }
        }
        i = i + 1;
    }
    let ghost rs = rows_of(flat@);
    let mut out: Vec<CleanResult> = Vec::new();
    let mut q: usize = 0;
    while q < flat.len()
        invariant
            rs == rows_of(flat@),
            q <= flat@.len(),
            rows_of(out@) == dedup_rows_upto(rs, q as int),
            forall|x: int| 0 <= x < out@.len() ==> sound_candidate(#[trigger] out@[x]),
            forall|x: int| 0 <= x < flat@.len() ==> sound_candidate(#[trigger] flat@[x]),
            forall|x: int| 0 <= x < out@.len() ==> path_fits_label(#[trigger] out@[x]),
            forall|x: int| 0 <= x < flat@.len() ==> path_fits_label(#[trigger] flat@[x]),
            k != ProjectType::Any ==> forall|x: int|
                0 <= x < flat@.len() ==> (#[trigger] flat@[x])._type@ == label_spec(k),
            k != ProjectType::Any ==> forall|x: int|
                0 <= x < out@.len() ==> (#[trigger] out@[x])._type@ == label_spec(k),
        decreases flat@.len() - q,
    {
        let seen = contains_row(&out, &flat[q]);
        if !seen {
            let c = flat[q].duplicate();
            proof {
                lemma_rows_push(out@, c);
            }
            out.push(c);
        }
        q = q + 1;
    }
    combine_respond(out, spent_millis)
}

/// Packages the targets whose removal succeeded (`removed[i]` for `targets[i]`) into an
/// answer; the others are left out.
pub fn remove_targets(targets: Vec<CleanResult>, removed: Vec<bool>, spent_millis: u128) -> (r:
    Result<ProjectCleanserRespond, PanError>)
    requires
        targets@.len() == removed@.len(),
    ensures
        r matches Ok(resp) && respond_spec(
            resp,
            kept_upto(targets@, removed@, targets@.len() as int),
            spent_millis,
        ),
{
    let mut done: Vec<CleanResult> = Vec::new();
    let mut i: usize = 0;
    while i < targets.len()
        invariant
            i <= targets@.len(),
            targets@.len() == removed@.len(),
            done@ == kept_upto(targets@, removed@, i as int),
        decreases targets@.len() - i,
    {
        if removed[i] {
            done.push(targets[i].duplicate());
        }
        i = i + 1;
    }
    combine_respond(done, spent_millis)
}

proof fn lemma_dedup_members(rs: Seq<Row>, n: int)
    requires
        0 <= n <= rs.len(),
    ensures
        forall|x: Row| dedup_rows_upto(rs, n).contains(x) <==> exists|j: int| 0 <= j < n && rs[j] == x,
    decreases n,
{
    if n > 0 {
        lemma_dedup_members(rs, n - 1);
        let before = dedup_rows_upto(rs, n - 1);
        let d = dedup_rows_upto(rs, n);
        assert forall|x: Row| d.contains(x) <==> exists|j: int| 0 <= j < n && rs[j] == x by {
            if d.contains(x) {
                let w = choose|w: int| 0 <= w < d.len() && d[w] == x;
                if w < before.len() {
                    assert(before[w] == x);
                    assert(before.contains(x));
                    let j = choose|j: int| 0 <= j < n - 1 && rs[j] == x;
                    assert(0 <= j < n && rs[j] == x);
                } else {
                    assert(d == before.push(rs[n - 1]));
                    assert(rs[n - 1] == x);
                }
            }
            if exists|j: int| 0 <= j < n && rs[j] == x {
                let j = choose|j: int| 0 <= j < n && rs[j] == x;
                if j < n - 1 {
                    assert(0 <= j < n - 1 && rs[j] == x);
                    assert(before.contains(x));
                    let w = choose|w: int| 0 <= w < before.len() && before[w] == x;
                    assert(d[w] == x);
                } else if !before.contains(x) {
                    assert(d[d.len() - 1] == x);
                } else {
                    let w = choose|w: int| 0 <= w < before.len() && before[w] == x;
                    assert(d[w] == x);
                }
            }
        }
    }
}

proof fn lemma_rows_covered(ms: Seq<ManifestFindings>, k: ProjectType, n: int)
    requires
        0 <= n <= ms.len(),
        k != ProjectType::Any,
    ensures
        forall|x: Row| rows_upto(ms, k, n).contains(x) ==> rows_upto(ms, ProjectType::Any, n).contains(x),
    decreases n,
{
    if n > 0 {
        lemma_rows_covered(ms, k, n - 1);
        let bk = rows_upto(ms, k, n - 1);
        let ba = rows_upto(ms, ProjectType::Any, n - 1);
        let rk = rows_upto(ms, k, n);
        let ra = rows_upto(ms, ProjectType::Any, n);
        assert forall|x: Row| rk.contains(x) implies ra.contains(x) by {
            let w = choose|w: int| 0 <= w < rk.len() && rk[w] == x;
            if w < bk.len() {
                assert(bk[w] == x);
                assert(bk.contains(x));
                assert(ba.contains(x));
                let v = choose|v: int| 0 <= v < ba.len() && ba[v] == x;
                if reads(ProjectType::Any, ms[n - 1]) {
                    match ms[n - 1].dirs {
                        Ok(vv) => {
                            let dr = dir_rows_upto(vv@, ms[n - 1].name@, vv@.len() as int);
                            assert(ra == ba + dr);
                            assert(ra[v] == ba[v]);
                        },
                        Err(_) => {
                            assert(ra == ba);
                        },
                    }
                } else {
                    assert(ra == ba);
                }
            } else {
                assert(reads(k, ms[n - 1]) && ms[n - 1].dirs is Ok);
                assert(reads(ProjectType::Any, ms[n - 1]));
                let off = w - bk.len();
                assert(ra[ba.len() + off] == rk[w]);
            }
        }
    }
}

/// Every row of path, size and label that a scan for `Cargo` or for `Maven` reports from
/// some findings, a scan for any kind reports from the same findings too.
pub proof fn lemma_any_scan_covers(ms: Seq<ManifestFindings>, k: ProjectType, x: Row)
    requires
        k != ProjectType::Any,
        scan_rows(ms, k).contains(x),
    ensures
        scan_rows(ms, ProjectType::Any).contains(x),
{
    let rk = rows_upto(ms, k, ms.len() as int);
    let ra = rows_upto(ms, ProjectType::Any, ms.len() as int);
    lemma_dedup_members(rk, rk.len() as int);
    lemma_dedup_members(ra, ra.len() as int);
    let j = choose|j: int| 0 <= j < rk.len() && rk[j] == x;
    assert(rk.contains(x));
    lemma_rows_covered(ms, k, ms.len() as int);
    let v = choose|v: int| 0 <= v < ra.len() && ra[v] == x;
    assert(exists|v: int| 0 <= v < ra.len() && ra[v] == x);
}

/// A scan over no findings reports nothing.
pub proof fn lemma_scan_empty(ms: Seq<ManifestFindings>, k: ProjectType)
    requires
        ms.len() == 0,
    ensures
        scan_rows(ms, k).len() == 0,
{
}

} // verus!
