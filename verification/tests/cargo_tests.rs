use cargo_nuttx::cargo::{
    cargo_build_invocation, find_package, find_package_checked, find_potential_cargo_targets,
    select_build_target, staticlib_artifact_path, ArtifactInfo, FindPackageError, PackageInfo,
    TargetInfo, Workspace,
};
use cargo_nuttx::metadata::BoardSpecificMetadata;

fn target(name: &str, kinds: &[&str]) -> TargetInfo {
    TargetInfo { name: name.to_string(), kinds: kinds.iter().map(|k| k.to_string()).collect() }
}

fn package(id: &str, name: &str, manifest: &str) -> PackageInfo {
    PackageInfo {
        id: id.to_string(),
        name: name.to_string(),
        manifest_path: manifest.to_string(),
        targets: Vec::new(),
        nuttx_metadata: None,
    }
}

fn workspace() -> Workspace {
    Workspace {
        packages: vec![
            package("root-id", "root", "/w/Cargo.toml"),
            package("app-id", "app", "/w/crates/app/Cargo.toml"),
            package("dep-id", "serde", "/home/u/.cargo/registry/serde/Cargo.toml"),
            package("lib-id", "lib", "/w/crates/lib/Cargo.toml"),
        ],
        workspace_members: vec!["root-id".to_string(), "app-id".to_string(), "lib-id".to_string()],
        target_directory: "/w/target".to_string(),
    }
}

#[test]
fn explicit_name_selects_any_package() {
    let ws = workspace();
    assert_eq!(find_package(Some("app"), &ws, "/elsewhere").unwrap().id, "app-id");
    assert_eq!(find_package(Some("serde"), &ws, "").unwrap().id, "dep-id");
}

#[test]
fn explicit_name_that_is_missing() {
    let ws = workspace();
    let e = expect_err(find_package(Some("nope"), &ws, "/w"));
    assert_eq!(e, FindPackageError::NoSuchPackage);
    assert_eq!(e.message(), "No such package in workspace: {name}");
}

#[test]
fn working_directory_selects_innermost_member() {
    let ws = workspace();
    assert_eq!(find_package(None, &ws, "/w/crates/app/src").unwrap().id, "app-id");
    assert_eq!(find_package(None, &ws, "/w/crates/lib").unwrap().id, "lib-id");
    assert_eq!(find_package(None, &ws, "/w/crates").unwrap().id, "root-id");
    assert_eq!(find_package(None, &ws, "/w").unwrap().id, "root-id");
}

#[test]
fn working_directory_matches_whole_components() {
    let ws = workspace();
    assert_eq!(find_package(None, &ws, "/w/crates/application").unwrap().id, "root-id");
}

#[test]
fn dependencies_are_not_inferred() {
    let ws = workspace();
    let e = expect_err(find_package(None, &ws, "/home/u/.cargo/registry/serde"));
    assert_eq!(e, FindPackageError::CurrentPackageUnknown);
    assert_eq!(e.message(), "Could not determine current package; pass the -p flag");
}

#[test]
fn outside_the_workspace_is_unknown() {
    let ws = workspace();
    assert_eq!(expect_err(find_package(None, &ws, "/tmp")), FindPackageError::CurrentPackageUnknown);
}

#[test]
fn equal_manifest_lengths_take_the_last() {
    let ws = Workspace {
        packages: vec![package("a", "first", "/w/a/Cargo.toml"), package("b", "second", "/w/a/Cargo.toml")],
        workspace_members: vec!["a".to_string(), "b".to_string()],
        target_directory: "/w/target".to_string(),
    };
    assert_eq!(find_package(None, &ws, "/w/a").unwrap().name, "second");
}

#[test]
fn manifest_length_counts_bytes() {
    let ws = Workspace {
        packages: vec![
            package("a", "accented", "/w/é/ééé.toml"),
            package("b", "plain", "/w/é/abcd.toml"),
        ],
        workspace_members: vec!["a".to_string(), "b".to_string()],
        target_directory: "/t".to_string(),
    };
    assert_eq!(find_package(None, &ws, "/w/é/src").unwrap().name, "accented");
}

#[test]
fn checked_search_refuses_rootless_manifests() {
    let ws = Workspace {
        packages: vec![package("a", "odd", "/")],
        workspace_members: vec!["a".to_string()],
        target_directory: "/t".to_string(),
    };
    assert!(find_package_checked(None, &ws, "/").is_none());
    assert_eq!(find_package_checked(Some("odd"), &ws, "/").unwrap().unwrap().id, "a");
    let ws = workspace();
    assert_eq!(find_package_checked(None, &ws, "/w/crates/app").unwrap().unwrap().id, "app-id");
}

#[test]
fn staticlib_targets_are_kept_in_order() {
    let targets = vec![
        target("tool", &["bin"]),
        target("fw", &["lib", "staticlib"]),
        target("other", &["cdylib"]),
        target("fw2", &["staticlib"]),
    ];
    let found: Vec<&str> = find_potential_cargo_targets(&targets).iter().map(|t| t.name.as_str()).collect();
    assert_eq!(found, vec!["fw", "fw2"]);
    assert!(!targets[0].is_staticlib());
    assert!(targets[1].is_staticlib());
}

#[test]
fn build_target_must_be_unique() {
    let one = vec![target("tool", &["bin"]), target("fw", &["staticlib"])];
    assert_eq!(select_build_target(&one).unwrap().name, "fw");
    let none = vec![target("tool", &["bin"])];
    assert_eq!(select_build_target(&none).unwrap_err().len(), 0);
    let two = vec![target("a", &["staticlib"]), target("b", &["staticlib"])];
    assert_eq!(select_build_target(&two).unwrap_err().len(), 2);
}

fn board(cpu: Option<&str>, opt: Option<&str>) -> BoardSpecificMetadata {
    BoardSpecificMetadata {
        target: "thumbv8m.main-nuttx-eabihf".to_string(),
        firmware_file: "nuttx.uf2".to_string(),
        target_cpu: cpu.map(|s| s.to_string()),
        opt_level: opt.map(|s| s.to_string()),
    }
}

#[test]
fn cargo_arguments_for_a_release_build() {
    let dirs = vec!["/n/nuttx/include".to_string(), "/n/nuttx/include/arch".to_string()];
    let inv = cargo_build_invocation("fw", true, &board(None, None), &dirs, None);
    assert_eq!(
        inv.args,
        vec![
            "build",
            "--message-format=json-render-diagnostics",
            "-Zunstable-options",
            "-Zbuild-std=std,panic_abort",
            "-Zjson-target-spec",
            "--target",
            "thumbv8m.main-nuttx-eabihf",
            "--package",
            "fw",
            "--release",
        ]
    );
    assert_eq!(inv.include_dir_env, "/n/nuttx/include:/n/nuttx/include/arch");
    assert_eq!(inv.rustflags_env, "");
}

#[test]
fn cargo_arguments_for_a_debug_build() {
    let inv = cargo_build_invocation("fw", false, &board(None, None), &Vec::new(), None);
    assert_eq!(inv.args.len(), 9);
    assert_eq!(inv.args.last().unwrap(), "fw");
    assert_eq!(inv.include_dir_env, "");
}

#[test]
fn rustflags_add_board_knobs() {
    let inv = cargo_build_invocation("fw", false, &board(Some("cortex-m33"), Some("s")), &Vec::new(), Some("-Cpanic=abort -g"));
    assert_eq!(inv.rustflags_env, "-Cpanic=abort -g -Ctarget-cpu=cortex-m33 -Copt-level=s");
    let inv = cargo_build_invocation("fw", false, &board(None, Some("z")), &Vec::new(), None);
    assert_eq!(inv.rustflags_env, "-Copt-level=z");
    let inv = cargo_build_invocation("fw", false, &board(Some("cortex-m0"), None), &Vec::new(), Some(""));
    assert_eq!(inv.rustflags_env, " -Ctarget-cpu=cortex-m0");
}

#[test]
fn inherited_rustflags_pass_through_unchanged() {
    for flags in ["", "-g", "-C link-arg=-Tx.ld  -g "] {
        let inv = cargo_build_invocation("fw", false, &board(None, None), &Vec::new(), Some(flags));
        assert_eq!(inv.rustflags_env, flags);
    }
}

fn artifact(name: &str, kinds: &[&str], files: &[&str]) -> ArtifactInfo {
    ArtifactInfo { target: target(name, kinds), filenames: files.iter().map(|f| f.to_string()).collect() }
}

#[test]
fn last_matching_artifact_wins() {
    let artifacts = vec![
        artifact("core", &["lib"], &["/t/libcore.rlib"]),
        artifact("fw", &["staticlib"], &["/t/a/libfw.a", "/t/a/libfw.d"]),
        artifact("fw", &["bin"], &["/t/fw"]),
        artifact("fw", &["lib", "staticlib"], &["/t/b/libfw.a"]),
        artifact("other", &["staticlib"], &["/t/libother.a"]),
        artifact("fw", &["staticlib"], &[]),
    ];
    assert_eq!(staticlib_artifact_path(&artifacts, "fw").unwrap(), "/t/b/libfw.a");
    assert_eq!(staticlib_artifact_path(&artifacts, "other").unwrap(), "/t/libother.a");
}

#[test]
fn no_staticlib_is_an_error() {
    let artifacts = vec![artifact("fw", &["bin"], &["/t/fw"])];
    assert_eq!(staticlib_artifact_path(&artifacts, "fw").unwrap_err(), "No staticlib produced!");
    assert_eq!(staticlib_artifact_path(&Vec::new(), "fw").unwrap_err(), "No staticlib produced!");
}

fn expect_err<T, E>(r: Result<T, E>) -> E {
    match r {
        Ok(_) => panic!("expected an error"),
        Err(e) => e,
    }
}

#[test]
fn select_current_package_from_given_marks() {
    let ws = workspace();
    assert_eq!(ws.select_current_package(&vec![true, true, false, false]).unwrap().id, "app-id");
    assert_eq!(ws.select_current_package(&vec![true, true, false, true]).unwrap().id, "lib-id");
    assert_eq!(ws.select_current_package(&vec![true, false, true, false]).unwrap().id, "root-id");
    assert_eq!(ws.select_current_package(&vec![false, false, true, false]).err(), Some(FindPackageError::CurrentPackageUnknown));
    let tie = Workspace {
        packages: vec![package("a", "first", "/w/a/Cargo.toml"), package("b", "second", "/w/b/Cargo.toml")],
        workspace_members: vec!["a".to_string(), "b".to_string()],
        target_directory: "/t".to_string(),
    };
    assert_eq!(tie.select_current_package(&vec![true, true]).unwrap().name, "second");
    assert_eq!(tie.select_current_package(&vec![true, false]).unwrap().name, "first");
}
