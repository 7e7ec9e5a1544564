use pandorust::cleanser::{
    calculate_folder_metadata, combine_respond, latest_modified, remove_targets, scan_projects,
    total_length,
};
use pandorust::entry::{ArtifactDir, Entry, FileMeta, ManifestFindings};
use pandorust::error::PanError;
use pandorust::kinds::{find_manifests, process_project};
use pandorust::maven::{branch_failure, module_manifest, module_manifests, MavenWalk, MAX_MODULE_DEPTH};
use pandorust::parts::{CleanResult, MavenModule, MavenPom, MavenTargetType, ProjectType};

fn candidate(path: &str, size: u64, kind: &str) -> CleanResult {
    CleanResult {
        path: path.to_string(),
        occupied: String::new(),
        size,
        _type: kind.to_string(),
        updated_at: String::new(),
    }
}

fn entry(path: &str, name: &str) -> Entry {
    Entry { path: path.to_string(), name: name.to_string() }
}

fn dir(path: &str, lens: &[u64]) -> ArtifactDir {
    let (parent, name) = path.rsplit_once('/').unwrap();
    ArtifactDir {
        dir: parent.to_string(),
        name: name.to_string(),
        files: lens.iter().map(|l| file(*l, Some(1_600_000_000))).collect(),
    }
}

fn found(name: &str, dirs: Vec<ArtifactDir>) -> ManifestFindings {
    found_at(name, name, vec![], Ok(dirs))
}

fn found_at(
    name: &str,
    path: &str,
    modules: Vec<&str>,
    dirs: Result<Vec<ArtifactDir>, PanError>,
) -> ManifestFindings {
    ManifestFindings {
        name: name.to_string(),
        path: path.to_string(),
        modules: modules.into_iter().map(String::from).collect(),
        dirs,
    }
}

fn file(len: u64, secs: Option<u64>) -> FileMeta {
    FileMeta { len, modified_secs: secs }
}

#[test]
fn mapping_reads_tags() {
    assert!(matches!(ProjectType::mapping("maven"), ProjectType::Maven));
    assert!(matches!(ProjectType::mapping("cargo"), ProjectType::Cargo));
    assert!(matches!(ProjectType::mapping("any"), ProjectType::Any));
    assert!(matches!(ProjectType::mapping("Cargo"), ProjectType::Any));
    assert!(matches!(ProjectType::mapping(""), ProjectType::Any));
}

#[test]
fn tag_names_manifest() {
    assert_eq!(ProjectType::Cargo.tag(), "Cargo.toml");
    assert_eq!(ProjectType::Maven.tag(), "pom.xml");
    assert_eq!(ProjectType::Any.tag(), "");
}

#[test]
fn labels_and_artifact_names() {
    assert_eq!(ProjectType::Cargo.label(), "Cargo");
    assert_eq!(ProjectType::Maven.label(), "Maven");
    assert_eq!(ProjectType::Cargo.artifact_dir_names(), vec!["target".to_string()]);
    assert_eq!(
        ProjectType::Maven.artifact_dir_names(),
        vec!["target".to_string(), "build".to_string()]
    );
    assert!(ProjectType::Any.artifact_dir_names().is_empty());
    assert_eq!(MavenTargetType::Target.name(), "target");
    assert_eq!(MavenTargetType::Build.name(), "build");
}

#[test]
fn manifest_kinds_by_name() {
    assert!(matches!(process_project("Cargo.toml"), Some(ProjectType::Cargo)));
    assert!(matches!(process_project("pom.xml"), Some(ProjectType::Maven)));
    assert!(process_project("cargo.toml").is_none());
    assert!(process_project("README").is_none());
}

#[test]
fn find_manifests_filters_by_kind() {
    let es = vec![
        entry("/r/a/Cargo.toml", "Cargo.toml"),
        entry("/r/p/pom.xml", "pom.xml"),
        entry("/r/a/src/main.rs", "main.rs"),
        entry("/r/b/Cargo.toml", "Cargo.toml"),
    ];
    assert_eq!(
        find_manifests(&es, &ProjectType::Cargo),
        vec!["/r/a/Cargo.toml".to_string(), "/r/b/Cargo.toml".to_string()]
    );
    assert_eq!(find_manifests(&es, &ProjectType::Maven), vec!["/r/p/pom.xml".to_string()]);
    assert_eq!(find_manifests(&es, &ProjectType::Any).len(), 3);
}

#[test]
fn any_covers_cargo_and_maven() {
    let es = vec![
        entry("/r/a/Cargo.toml", "Cargo.toml"),
        entry("/r/p/pom.xml", "pom.xml"),
        entry("/r/x", "x"),
    ];
    let any = find_manifests(&es, &ProjectType::Any);
    for p in find_manifests(&es, &ProjectType::Cargo) {
        assert!(any.contains(&p));
    }
    for p in find_manifests(&es, &ProjectType::Maven) {
        assert!(any.contains(&p));
    }
}

#[test]
fn cargo_scan_reports_target_size() {
    let files = vec![file(1000, Some(1_700_000_000)), file(500, Some(1_600_000_000))];
    let c = calculate_folder_metadata("/r/a/target".to_string(), &files, "Cargo").unwrap();
    assert_eq!(c.path, "/r/a/target");
    assert_eq!(c.size, 1500);
    assert_eq!(c.occupied, "1.50 kB");
    assert_eq!(c._type, "Cargo");
    assert_eq!(c.updated_at.len(), 10);
    let resp = scan_projects("cargo", vec![found("Cargo.toml", vec![dir("/r/a/target", &[1000, 500])])], 3)
        .ok()
        .unwrap();
    assert_eq!(resp.count, 1);
    assert_eq!(resp.vec[0].path, "/r/a/target");
    assert_eq!(resp.vec[0].size, 1500);
    assert_eq!(resp.vec[0].occupied, "1.50 kB");
    assert_eq!(resp.vec[0]._type, "Cargo");
    assert_eq!(resp.total_size, 1500);
    assert_eq!(resp.occupied, "1.50 kB");
    assert_eq!(resp.spent_millis, 3);
}

#[test]
fn empty_folder_is_no_candidate() {
    assert!(calculate_folder_metadata("/r/a/target".to_string(), &vec![], "Cargo").is_none());
    let zeros = vec![file(0, Some(5)), file(0, None)];
    assert!(calculate_folder_metadata("/r/a/target".to_string(), &zeros, "Maven").is_none());
}

#[test]
fn totals_and_latest() {
    let files = vec![file(7, Some(10)), file(3, None), file(u64::MAX, Some(4))];
    assert_eq!(total_length(&files), u64::MAX);
    assert_eq!(total_length(&vec![file(7, None), file(3, None)]), 10);
    assert_eq!(latest_modified(&files), 10);
    assert_eq!(latest_modified(&vec![file(1, None)]), 0);
}

#[test]
fn empty_scan_is_empty() {
    let resp = scan_projects("any", vec![], 0).ok().unwrap();
    assert!(resp.vec.is_empty());
    assert_eq!(resp.count, 0);
    assert_eq!(resp.total_size, 0);
    assert_eq!(resp.occupied, "0 B");
    let resp = combine_respond(vec![], 9).ok().unwrap();
    assert_eq!(resp.occupied, "0 B");
    assert_eq!(resp.spent_millis, 9);
}

#[test]
fn maven_modules_reported_once() {
    let parent = found("pom.xml", vec![dir("/r/p/m2/build", &[2000])]);
    let m1 = found("pom.xml", vec![]);
    let m2 = found("pom.xml", vec![dir("/r/p/m2/build", &[2000])]);
    let resp = scan_projects("maven", vec![parent, m1, m2], 1).ok().unwrap();
    assert_eq!(resp.count, 1);
    assert_eq!(resp.vec[0].path, "/r/p/m2/build");
    assert_eq!(resp.vec[0].size, 2000);
    assert_eq!(resp.vec[0]._type, "Maven");
    assert_eq!(resp.total_size, 2000);
    assert_eq!(resp.occupied, "2 kB");
}

#[test]
fn malformed_pom_fails_scan() {
    let bad = PanError::CommonErr("pom.xml parse failed : bad xml".to_string());
    let findings = vec![
        found("Cargo.toml", vec![dir("/r/a/target", &[5])]),
        found_at("pom.xml", "/r/p/pom.xml", vec![], Err(bad)),
        found_at("pom.xml", "/r/q/pom.xml", vec![], Err(PanError::Io("x".to_string()))),
    ];
    match scan_projects("maven", findings, 0) {
        Err(PanError::CommonErr(m)) => assert!(m.contains("pom.xml parse failed")),
        _ => panic!("expected the pom error"),
    }
}

#[test]
fn scan_keeps_kinds_apart() {
    let make = || {
        vec![
            found("Cargo.toml", vec![dir("/r/a/target", &[10])]),
            found("pom.xml", vec![dir("/r/p/target", &[20]), dir("/r/p/build", &[0])]),
        ]
    };
    let cargo = scan_projects("cargo", make(), 0).ok().unwrap();
    assert_eq!(cargo.count, 1);
    assert!(cargo.vec.iter().all(|c| c._type == "Cargo" && c.size > 0));
    let maven = scan_projects("maven", make(), 0).ok().unwrap();
    assert_eq!(maven.count, 1);
    assert_eq!(maven.vec[0].path, "/r/p/target");
    assert_eq!(maven.vec[0]._type, "Maven");
}

#[test]
fn failed_pom_only_fails_its_kind() {
    let make = || {
        vec![
            found("Cargo.toml", vec![dir("/r/a/target", &[10])]),
            found_at("pom.xml", "/r/q/pom.xml", vec![], Err(PanError::Io("x".to_string()))),
        ]
    };
    assert_eq!(scan_projects("cargo", make(), 0).ok().unwrap().count, 1);
    assert!(scan_projects("maven", make(), 0).is_err());
    assert!(scan_projects("any", make(), 0).is_err());
}

#[test]
fn failed_submodule_drops_branch() {
    let bad = PanError::CommonErr("pom.xml parse failed : bad xml".to_string());
    let findings = vec![
        found_at("pom.xml", "/r/p/pom.xml", vec!["/r/p/m1/pom.xml"], Ok(vec![dir("/r/p/target", &[7])])),
        found_at("pom.xml", "/r/p/m1/pom.xml", vec![], Err(bad)),
    ];
    let resp = scan_projects("maven", findings, 0).ok().unwrap();
    assert_eq!(resp.count, 1);
    assert_eq!(resp.vec[0].path, "/r/p/target");
}

#[test]
fn any_scan_covers_both() {
    let make = || {
        vec![
            found("Cargo.toml", vec![dir("/r/a/target", &[10])]),
            found("pom.xml", vec![dir("/r/p/target", &[20])]),
            found("README", vec![dir("/r/x/target", &[30])]),
        ]
    };
    let any = scan_projects("whatever", make(), 0).ok().unwrap();
    let paths: Vec<String> = any.vec.iter().map(|c| c.path.clone()).collect();
    assert_eq!(paths, vec!["/r/a/target".to_string(), "/r/p/target".to_string()]);
    for k in ["cargo", "maven"] {
        for c in scan_projects(k, make(), 0).ok().unwrap().vec {
            assert!(paths.contains(&c.path));
        }
    }
    assert_eq!(any.total_size, 30);
}

#[test]
fn removal_keeps_only_deleted() {
    let targets = vec![candidate("/r/a/target", 1500, "Cargo"), candidate("/nonexistent", 9, "Cargo")];
    let resp = remove_targets(targets, vec![true, false], 4).ok().unwrap();
    assert_eq!(resp.count, 1);
    assert_eq!(resp.vec.len(), 1);
    assert_eq!(resp.vec[0].path, "/r/a/target");
    assert_eq!(resp.total_size, 1500);
    assert_eq!(resp.occupied, "1.50 kB");
}

#[test]
fn removal_of_nothing() {
    let resp = remove_targets(vec![candidate("/x", 1, "Maven")], vec![false], 0).ok().unwrap();
    assert_eq!(resp.count, 0);
    assert_eq!(resp.total_size, 0);
}

#[test]
fn maven_walk_skips_visited_and_deep() {
    let mut w = MavenWalk::new("/r/p/pom.xml".to_string());
    assert!(w.push_module("/r/p/m1/pom.xml".to_string(), 1));
    assert!(!w.push_module("/r/p/pom.xml".to_string(), 1));
    assert!(!w.push_module("/r/p/m1/pom.xml".to_string(), 2));
    assert!(!w.push_module("/r/deep/pom.xml".to_string(), MAX_MODULE_DEPTH + 1));
    assert!(w.push_module("/r/p/m2/pom.xml".to_string(), MAX_MODULE_DEPTH));
    assert_eq!(w.next_manifest(), Some(("/r/p/m2/pom.xml".to_string(), MAX_MODULE_DEPTH)));
    assert_eq!(w.next_manifest(), Some(("/r/p/m1/pom.xml".to_string(), 1)));
    assert_eq!(w.next_manifest(), Some(("/r/p/pom.xml".to_string(), 0)));
    assert_eq!(w.next_manifest(), None);
    assert_eq!(w.visited.len(), 3);
}

#[test]
fn module_paths_join() {
    assert_eq!(module_manifest("/r/p", "m1"), "/r/p/m1/pom.xml");
    let pom = MavenPom { modules: MavenModule { module: vec!["m1".to_string(), "m2".to_string()] } };
    assert_eq!(
        module_manifests("/r/p", &pom),
        vec!["/r/p/m1/pom.xml".to_string(), "/r/p/m2/pom.xml".to_string()]
    );
}

#[test]
fn pom_failures_by_depth() {
    let e = branch_failure(0, PanError::Io("gone".to_string()));
    assert!(matches!(e, Some(PanError::Io(m)) if m == "gone"));
    assert!(branch_failure(1, PanError::Io("gone".to_string())).is_none());
}

#[test]
fn shared_folder_keeps_both_kinds() {
    let make = || {
        vec![
            found("pom.xml", vec![dir("/r/x/target", &[10])]),
            found("Cargo.toml", vec![dir("/r/x/target", &[10])]),
        ]
    };
    let any = scan_projects("any", make(), 0).ok().unwrap();
    assert_eq!(any.count, 2);
    assert_eq!(any.vec[0]._type, "Maven");
    assert_eq!(any.vec[1]._type, "Cargo");
    let cargo = scan_projects("cargo", make(), 0).ok().unwrap();
    assert_eq!(cargo.count, 1);
    assert_eq!(cargo.vec[0]._type, "Cargo");
}

#[test]
fn cargo_scan_never_fails() {
    let findings = vec![
        found_at("Cargo.toml", "/r/a/Cargo.toml", vec![], Err(PanError::Io("x".to_string()))),
        found("Cargo.toml", vec![dir("/r/b/target", &[3])]),
    ];
    let resp = scan_projects("cargo", findings, 0).ok().unwrap();
    assert_eq!(resp.count, 1);
    assert_eq!(resp.vec[0].path, "/r/b/target");
}

#[test]
fn only_owned_folders_count() {
    let findings = vec![found(
        "Cargo.toml",
        vec![dir("/r/a/build", &[5]), dir("/r/a/target", &[6]), dir("/r/a/out", &[7])],
    )];
    let resp = scan_projects("cargo", findings, 0).ok().unwrap();
    assert_eq!(resp.count, 1);
    assert_eq!(resp.vec[0].path, "/r/a/target");
    let maven = scan_projects("maven", vec![found("pom.xml", vec![dir("/r/p/build", &[5]), dir("/r/p/out", &[7])])], 0)
        .ok()
        .unwrap();
    assert_eq!(maven.count, 1);
    assert_eq!(maven.vec[0].path, "/r/p/build");
}
