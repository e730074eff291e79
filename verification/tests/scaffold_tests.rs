use cargo_dimension::overrides::{resolve_overrides, DimensionOverrides, OverrideArgsError};
use cargo_dimension::registry::{DependencyRegistry, DependencyRole};
use cargo_dimension::rust_toolchain;
use cargo_dimension::scaffold::{plan_scaffold, Args, ScaffoldError};

fn no_override_args(root: &str) -> Args {
    Args::new(root.to_string(), None)
}

fn local_args(root: &str, workspace: &str) -> Args {
    let sel = resolve_overrides(Some(workspace.to_string()), None, None)
        .expect("a lone workspace path must resolve");
    Args::new(root.to_string(), sel)
}

fn remote_args(root: &str, url: &str, branch: &str) -> Args {
    let sel = resolve_overrides(None, Some(url.to_string()), Some(branch.to_string()))
        .expect("a full remote pair must resolve");
    Args::new(root.to_string(), sel)
}

#[test]
fn registry_holds_the_four_shared_libraries() {
    let registry = DependencyRegistry::new();
    let contract = registry.get(DependencyRole::ContractInterface);
    assert_eq!(contract.name(), "dimension-contract");
    assert_eq!(contract.version(), "1.4.3");
    assert_eq!(contract.relative_path(), "smart_contracts/contract");
    let types = registry.get(DependencyRole::Types);
    assert_eq!(types.name(), "dimension-types");
    assert_eq!(types.version(), "1.4.6");
    assert_eq!(types.relative_path(), "types");
    let engine = registry.get(DependencyRole::ExecutionEngine);
    assert_eq!(engine.name(), "dimension-execution-engine");
    assert_eq!(engine.version(), "1.4.4");
    assert_eq!(engine.relative_path(), "execution_engine");
    let test_support = registry.get(DependencyRole::TestSupport);
    assert_eq!(test_support.name(), "dimension-engine-test-support");
    assert_eq!(test_support.version(), "2.0.3");
    assert_eq!(
        test_support.relative_path(),
        "execution_engine_testing/test_support"
    );
}

#[test]
fn package_dependency_lists_follow_registry_order() {
    let registry = DependencyRegistry::new();
    let contract_deps = registry.contract_package_deps();
    let names: Vec<&str> = contract_deps.iter().map(|d| d.name()).collect();
    assert_eq!(
        names,
        vec![
            "dimension-contract",
            "dimension-types",
            "dimension-execution-engine"
        ]
    );
    let tests_deps = registry.tests_package_deps();
    let names: Vec<&str> = tests_deps.iter().map(|d| d.name()).collect();
    assert_eq!(
        names,
        vec![
            "dimension-contract",
            "dimension-types",
            "dimension-execution-engine",
            "dimension-engine-test-support"
        ]
    );
}

#[test]
fn resolving_no_inputs_selects_published_versions() {
    let sel = resolve_overrides(None, None, None).expect("no inputs must resolve");
    assert!(sel.is_none());
}

#[test]
fn resolving_a_workspace_path_selects_the_local_copy() {
    let sel = resolve_overrides(Some("/work".to_string()), None, None)
        .expect("a lone workspace path must resolve");
    match sel {
        Some(DimensionOverrides::WorkspacePath(path)) => assert_eq!(path, "/work"),
        other => panic!("expected a workspace-path override, got {:?}", other.is_some()),
    }
}

#[test]
fn resolving_a_remote_pair_selects_the_branch() {
    let sel = resolve_overrides(
        None,
        Some("https://example.com/dimension-node".to_string()),
        Some("dev".to_string()),
    )
    .expect("a full remote pair must resolve");
    match sel {
        Some(DimensionOverrides::GitRepo { url, branch }) => {
            assert_eq!(url, "https://example.com/dimension-node");
            assert_eq!(branch, "dev");
        }
        _ => panic!("expected a remote-branch override"),
    }
}

#[test]
fn conflicting_override_inputs_are_refused() {
    let both = resolve_overrides(
        Some("/work".to_string()),
        Some("https://example.com/r".to_string()),
        Some("dev".to_string()),
    );
    assert_eq!(both.unwrap_err(), OverrideArgsError::ConflictingSources);
    let path_and_url = resolve_overrides(
        Some("/work".to_string()),
        Some("https://example.com/r".to_string()),
        None,
    );
    assert_eq!(
        path_and_url.unwrap_err(),
        OverrideArgsError::ConflictingSources
    );
    let path_and_branch =
        resolve_overrides(Some("/work".to_string()), None, Some("dev".to_string()));
    assert_eq!(
        path_and_branch.unwrap_err(),
        OverrideArgsError::ConflictingSources
    );
}

#[test]
fn a_lone_remote_field_is_refused() {
    let url_only = resolve_overrides(None, Some("https://example.com/r".to_string()), None);
    assert_eq!(url_only.unwrap_err(), OverrideArgsError::IncompleteRemote);
    let branch_only = resolve_overrides(None, None, Some("dev".to_string()));
    assert_eq!(branch_only.unwrap_err(), OverrideArgsError::IncompleteRemote);
}

#[test]
fn args_expose_their_inputs() {
    let args = local_args("/tmp/foo", "/work");
    assert_eq!(args.root_path(), "/tmp/foo");
    match args.dimension_overrides() {
        Some(DimensionOverrides::WorkspacePath(path)) => assert_eq!(path, "/work"),
        _ => panic!("expected the workspace-path override back"),
    }
    let args = no_override_args("/tmp/foo");
    assert!(args.dimension_overrides().is_none());
}

#[test]
fn a_run_without_overrides_writes_clean_manifests() {
    let registry = DependencyRegistry::new();
    let args = no_override_args("/tmp/foo");
    let plan = plan_scaffold(&args, &registry, false).expect("a fresh destination must succeed");
    assert_eq!(plan.root_path, "/tmp/foo");
    assert_eq!(plan.files.len(), 3);
    assert_eq!(plan.files[0].relative_path, "contract/Cargo.toml");
    assert_eq!(plan.files[1].relative_path, "tests/Cargo.toml");
    let contract = &plan.files[0].contents;
    let tests = &plan.files[1].contents;
    assert!(!contract.contains("[patch.crates-io]"));
    assert!(!tests.contains("[patch.crates-io]"));
    assert!(contract.contains("dimension-contract = \"1.4.3\""));
    assert!(tests.contains("dimension-contract = \"1.4.3\""));
}

#[test]
fn an_existing_destination_fails_before_any_file_is_planned() {
    let registry = DependencyRegistry::new();
    let args = no_override_args("/tmp/foo");
    let err = plan_scaffold(&args, &registry, true).unwrap_err();
    assert_eq!(err, ScaffoldError::DestinationExists);
}

#[test]
fn a_local_override_points_every_entry_under_the_workspace() {
    let registry = DependencyRegistry::new();
    let args = local_args("/tmp/foo", "/work");
    let plan = plan_scaffold(&args, &registry, false).expect("a fresh destination must succeed");
    let contract = &plan.files[0].contents;
    let tests = &plan.files[1].contents;
    for manifest in [contract, tests] {
        assert!(manifest.contains("[patch.crates-io]"));
        assert!(manifest
            .contains("dimension-contract = { path = \"/work/smart_contracts/contract\" }"));
        assert!(manifest.contains("dimension-types = { path = \"/work/types\" }"));
        assert!(
            manifest.contains("dimension-execution-engine = { path = \"/work/execution_engine\" }")
        );
    }
    assert!(tests.contains(
        "dimension-engine-test-support = { path = \"/work/execution_engine_testing/test_support\" }"
    ));
    assert!(!contract.contains("dimension-engine-test-support"));
}

#[test]
fn a_local_override_names_exactly_the_declared_dependencies() {
    let registry = DependencyRegistry::new();
    let args = local_args("/tmp/foo", "/work");
    let plan = plan_scaffold(&args, &registry, false).expect("a fresh destination must succeed");
    for file in &plan.files[..2] {
        let manifest = &file.contents;
        let (before_patch, overrides) = manifest
            .split_once("[patch.crates-io]\n")
            .expect("an override section must be present");
        let declarations = before_patch
            .split_once("[dependencies]\n")
            .expect("a dependency section must be present")
            .1;
        let mut declared: Vec<&str> = declarations
            .lines()
            .filter_map(|l| l.split_once(" = ").map(|(name, _)| name))
            .collect();
        let mut overridden: Vec<&str> = overrides
            .lines()
            .filter_map(|l| l.split_once(" = ").map(|(name, _)| name))
            .collect();
        declared.sort_unstable();
        overridden.sort_unstable();
        assert_eq!(declared, overridden);
    }
}

#[test]
fn a_remote_override_references_exactly_the_url_and_branch() {
    let registry = DependencyRegistry::new();
    let args = remote_args("/tmp/foo", "https://example.com/dimension-node", "dev");
    let plan = plan_scaffold(&args, &registry, false).expect("a fresh destination must succeed");
    let contract = &plan.files[0].contents;
    let tests = &plan.files[1].contents;
    for manifest in [contract, tests] {
        let section = manifest
            .split("[patch.crates-io]\n")
            .nth(1)
            .expect("an override section must be present");
        for line in section.lines() {
            assert!(
                line.contains("{ git = \"https://example.com/dimension-node\", branch = \"dev\" }"),
                "entry does not reference the remote pair: {}",
                line
            );
        }
    }
    assert!(tests.contains(
        "dimension-engine-test-support = { git = \"https://example.com/dimension-node\", branch = \"dev\" }"
    ));
}

#[test]
fn shared_dependencies_carry_one_version_in_both_manifests() {
    let registry = DependencyRegistry::new();
    let args = no_override_args("/tmp/foo");
    let plan = plan_scaffold(&args, &registry, false).expect("a fresh destination must succeed");
    let contract = &plan.files[0].contents;
    let tests = &plan.files[1].contents;
    for name in [
        "dimension-contract",
        "dimension-types",
        "dimension-execution-engine",
    ] {
        let line_of = |manifest: &str| {
            manifest
                .lines()
                .find(|l| l.starts_with(&format!("{} = ", name)))
                .expect("both manifests declare the shared dependency")
                .to_string()
        };
        assert_eq!(line_of(contract), line_of(tests));
    }
}

#[test]
fn planning_twice_with_identical_inputs_is_byte_identical() {
    let registry = DependencyRegistry::new();
    let first = plan_scaffold(&local_args("/tmp/foo", "/work"), &registry, false)
        .expect("a fresh destination must succeed");
    let second = plan_scaffold(&local_args("/tmp/foo", "/work"), &registry, false)
        .expect("a fresh destination must succeed");
    assert_eq!(first.files.len(), second.files.len());
    for (a, b) in first.files.iter().zip(second.files.iter()) {
        assert_eq!(a.relative_path, b.relative_path);
        assert_eq!(a.contents, b.contents);
    }
}

#[test]
fn the_toolchain_pin_is_fixed() {
    let file = rust_toolchain::create();
    assert_eq!(file.relative_path, "rust-toolchain");
    assert_eq!(file.contents, "nightly-2021-06-17\n");
}
