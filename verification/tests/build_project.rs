use turbolift::build_project::{
    check, copy_exclusions, edit_cargo_file, exclusive_recursive_copy, is_ancestor,
    is_project_source, leaf, lint,
    make_executable, plan_local_dep, step_result, CargoToml, DepAction, Dependency,
    DependencyFull, FsEntry, NamedDependency,
};
use turbolift::distributed_platform::{DistributionError, ErrorKind};

fn s(text: &str) -> String {
    text.to_string()
}

fn path(components: &[&str]) -> Vec<String> {
    components.iter().map(|c| c.to_string()).collect()
}

fn simple(name: &str, version: &str) -> NamedDependency {
    NamedDependency { name: s(name), dependency: Dependency::Simple(s(version)) }
}

fn with_path(name: &str, p: &str) -> NamedDependency {
    NamedDependency {
        name: s(name),
        dependency: Dependency::Full(DependencyFull { version: None, path: Some(s(p)) }),
    }
}

fn full(d: &NamedDependency) -> &DependencyFull {
    match &d.dependency {
        Dependency::Full(f) => f,
        Dependency::Simple(_) => panic!("{} is not written out", d.name),
    }
}

#[test]
fn lint_installs_the_formatter_then_formats() {
    let steps = lint(".turbolift/square");
    assert_eq!(steps.len(), 2);
    assert_eq!(steps[0].command.program, "rustup");
    assert_eq!(steps[0].command.args, vec![s("component"), s("add"), s("rustfmt")]);
    assert_eq!(steps[1].command.program, "cargo");
    assert_eq!(steps[1].command.args, vec![s("fmt")]);
    assert_eq!(steps[1].command.current_dir, ".turbolift/square");
    assert_eq!(steps[1].failure, "rustfmt fix failed");
}

#[test]
fn check_runs_cargo_check_in_the_project() {
    let step = check("proj");
    assert_eq!(step.command.program, "cargo");
    assert_eq!(step.command.args, vec![s("check")]);
    assert_eq!(step.command.current_dir, "proj");
    assert!(step_result(&step, true).is_ok());
    match step_result(&step, false) {
        Err(DistributionError::BuildStep(why)) => assert_eq!(why, "cargo check failed"),
        other => panic!("unexpected: {:?}", other),
    }
}

#[test]
fn executable_is_moved_from_the_build_output() {
    let plan = make_executable("proj", "square_turbolift", Some("out/server"), true);
    assert_eq!(plan.build.command.args, vec![s("build"), s("--release")]);
    assert_eq!(plan.build.command.current_dir, "proj");
    assert_eq!(
        plan.rename,
        Some((s("proj/target/release/square_turbolift"), s("out/server")))
    );
    let debug = make_executable("proj", "p", Some("d"), false);
    assert_eq!(debug.build.command.args, vec![s("build")]);
    assert_eq!(debug.rename, Some((s("proj/target/debug/p"), s("d"))));
    assert_eq!(make_executable("proj", "p", None, true).rename, None);
}

#[test]
fn manifest_is_renamed_and_written_out() {
    let manifest = CargoToml {
        package_name: s("caller"),
        dependencies: Some(vec![
            simple("rand", "0.8"),
            with_path("helper", "../helper"),
            NamedDependency {
                name: s("serde_json"),
                dependency: Dependency::Full(DependencyFull {
                    version: Some(s("1.0.50")),
                    path: None,
                }),
            },
        ]),
    };
    let (derived, locals) = edit_cargo_file(&manifest, "square").unwrap();
    assert_eq!(derived.package_name, "square_turbolift");
    let deps = derived.dependencies.unwrap();
    let names: Vec<&str> = deps.iter().map(|d| d.name.as_str()).collect();
    assert_eq!(names, vec!["rand", "helper", "serde_json", "actix-web", "uuid", "tokio"]);
    assert_eq!(full(&deps[0]).version.as_deref(), Some("0.8"));
    assert_eq!(full(&deps[0]).path, None);
    assert_eq!(full(&deps[1]).path.as_deref(), Some("./.local_deps/helper"));
    assert_eq!(full(&deps[1]).version, None);
    assert_eq!(full(&deps[2]).version.as_deref(), Some("1.0.50"));
    assert_eq!(full(&deps[3]).version.as_deref(), Some("4"));
    assert_eq!(full(&deps[4]).version.as_deref(), Some("1"));
    assert_eq!(full(&deps[5]).version.as_deref(), Some("1"));
    assert_eq!(locals.len(), 1);
    assert_eq!(locals[0].name, "helper");
    assert_eq!(locals[0].source, "../helper");
    assert_eq!(locals[0].location, ".local_deps/helper");
}

#[test]
fn manifest_without_dependencies_gets_the_service_dependencies() {
    let manifest = CargoToml { package_name: s("caller"), dependencies: None };
    let (derived, locals) = edit_cargo_file(&manifest, "f").unwrap();
    let deps = derived.dependencies.unwrap();
    let names: Vec<&str> = deps.iter().map(|d| d.name.as_str()).collect();
    assert_eq!(names, vec!["actix-web", "serde_json", "uuid", "tokio"]);
    assert!(locals.is_empty());
}

#[test]
fn two_path_dependencies_of_one_name_are_refused() {
    let manifest = CargoToml {
        package_name: s("caller"),
        dependencies: Some(vec![
            with_path("a", "../x/a"),
            simple("shared", "1"),
            with_path("shared", "../one/shared"),
            with_path("shared", "../two/shared"),
        ]),
    };
    match edit_cargo_file(&manifest, "square") {
        Err(e) => {
            assert!(matches!(&e, DistributionError::NameCollision(n) if n == "shared"));
            assert_eq!(e.kind(), ErrorKind::Configuration);
        }
        Ok(_) => panic!("the collision was not seen"),
    }
}

#[test]
fn two_path_dependencies_with_the_same_leaf_directory_are_refused() {
    for (first, second) in [
        ("../x/util", "../y/util"),
        ("../x/util/", "../y/util"),
        ("util", "../../deep/util//"),
        ("..\\x\\util", "../y/util"),
    ] {
        let manifest = CargoToml {
            package_name: s("caller"),
            dependencies: Some(vec![
                simple("rand", "1"),
                with_path("a", first),
                with_path("b", second),
            ]),
        };
        match edit_cargo_file(&manifest, "square") {
            Err(e) => {
                assert!(matches!(&e, DistributionError::NameCollision(n) if n == "b"));
                assert_eq!(e.kind(), ErrorKind::Configuration);
            }
            Ok(_) => panic!("{:?} and {:?} were both taken", first, second),
        }
    }
    let apart = CargoToml {
        package_name: s("caller"),
        dependencies: Some(vec![with_path("a", "../x/util"), with_path("b", "../x/utils")]),
    };
    assert!(edit_cargo_file(&apart, "square").is_ok());
}

#[test]
fn leaf_is_the_last_directory_of_a_path() {
    for (path, expected) in [
        ("../x/util", "util"),
        ("../x/util///", "util"),
        ("util", "util"),
        ("", ""),
        ("/", ""),
        ("a\\b", "b"),
        ("../..", ".."),
    ] {
        let got: String = leaf(path).into_iter().collect();
        assert_eq!(got, expected, "path {:?}", path);
    }
}

#[test]
fn a_path_dependency_whose_name_leads_elsewhere_is_refused() {
    for bad in ["../escape", "..", "", "a/b"] {
        let manifest = CargoToml {
            package_name: s("caller"),
            dependencies: Some(vec![with_path("fine", "../fine"), with_path(bad, "../x")]),
        };
        match edit_cargo_file(&manifest, "square") {
            Err(e) => {
                assert!(matches!(&e, DistributionError::DependencyName(n) if n == bad));
                assert_eq!(e.kind(), ErrorKind::Configuration);
            }
            Ok(_) => panic!("{:?} was taken", bad),
        }
    }
    let unnamed_version = CargoToml {
        package_name: s("caller"),
        dependencies: Some(vec![simple("a/b", "1")]),
    };
    assert!(edit_cargo_file(&unnamed_version, "square").is_ok());
}

#[test]
fn a_name_shared_with_a_dependency_without_path_is_no_collision() {
    let manifest = CargoToml {
        package_name: s("caller"),
        dependencies: Some(vec![simple("shared", "1"), with_path("shared", "../shared")]),
    };
    assert!(edit_cargo_file(&manifest, "square").is_ok());
}

#[test]
fn local_dependency_is_kept_linked_or_copied() {
    let kept = plan_local_dep(true, true, false);
    assert_eq!(kept.action, DepAction::Keep);
    assert!(!kept.remove_stale);
    let kept_ancestor = plan_local_dep(true, true, true);
    assert_eq!(kept_ancestor.action, DepAction::Keep);
    let stale = plan_local_dep(true, false, false);
    assert_eq!(stale.action, DepAction::Link);
    assert!(stale.remove_stale);
    let fresh = plan_local_dep(false, false, false);
    assert_eq!(fresh.action, DepAction::Link);
    assert!(!fresh.remove_stale);
    let ancestor = plan_local_dep(false, false, true);
    assert_eq!(ancestor.action, DepAction::Copy);
    assert!(!ancestor.remove_stale);
    let stale_ancestor = plan_local_dep(true, false, true);
    assert_eq!(stale_ancestor.action, DepAction::Copy);
    assert!(stale_ancestor.remove_stale);
}

#[test]
fn ancestors_are_prefixes() {
    let project = path(&["home", "me", "work", "app"]);
    assert!(is_ancestor(&path(&["home", "me"]), &project));
    assert!(is_ancestor(&project, &project));
    assert!(is_ancestor(&path(&[]), &project));
    assert!(!is_ancestor(&path(&["home", "you"]), &project));
    assert!(!is_ancestor(&path(&["home", "me", "work", "app", "sub"]), &project));
}

#[test]
fn copy_leaves_out_excluded_paths_and_names_with_what_they_hold() {
    let entries = vec![
        FsEntry { path: path(&["src"]), is_dir: true },
        FsEntry { path: path(&["target"]), is_dir: true },
        FsEntry { path: path(&["app"]), is_dir: true },
        FsEntry { path: path(&["src", "lib.rs"]), is_dir: false },
        FsEntry { path: path(&["target", "debug"]), is_dir: true },
        FsEntry { path: path(&["app", "main.rs"]), is_dir: false },
        FsEntry { path: path(&["lib", "app"]), is_dir: true },
        FsEntry { path: path(&["lib", "target", "x"]), is_dir: false },
    ];
    let kept = exclusive_recursive_copy(&entries, &vec![path(&["app"])], &vec![s("target")]);
    let got: Vec<(String, bool)> = kept.iter().map(|e| (e.path.join("/"), e.is_dir)).collect();
    assert_eq!(
        got,
        vec![(s("src"), true), (s("src/lib.rs"), false), (s("lib/app"), true)]
    );
}

#[test]
fn cache_and_build_output_are_no_project_sources() {
    assert!(is_project_source("src"));
    assert!(is_project_source("Cargo.toml"));
    assert!(!is_project_source(".turbolift"));
    assert!(!is_project_source("target"));
}

#[test]
fn copy_of_a_dependency_holds_neither_cache_nor_build_output() {
    let entries = vec![
        FsEntry { path: path(&["lib.rs"]), is_dir: false },
        FsEntry { path: path(&["app"]), is_dir: true },
        FsEntry { path: path(&["app", ".turbolift"]), is_dir: true },
        FsEntry { path: path(&["app", "target"]), is_dir: true },
        FsEntry { path: path(&["app", "main.rs"]), is_dir: false },
        FsEntry { path: path(&["app", ".turbolift", "square"]), is_dir: true },
    ];
    let kept = exclusive_recursive_copy(&entries, &Vec::new(), &copy_exclusions());
    let got: Vec<String> = kept.iter().map(|e| e.path.join("/")).collect();
    assert_eq!(got, vec![s("lib.rs"), s("app"), s("app/main.rs")]);
}
