use cargo_build_bpf::config::{default_sdk_path, BuildOptions, Config};
use cargo_build_bpf::error::BuildError;
use cargo_build_bpf::metadata::{
    contains_name, inspect, module_target_names, PackageInfo, TargetInfo, WorkspaceInfo,
};
use cargo_build_bpf::paths::join_path;
use cargo_build_bpf::pipeline::{build_args, plan_build, plan_stages, Plan, StageKind};
use cargo_build_bpf::runner::{after_stage, command_line, NextStep, StageOutcome};

fn strings(v: &[&str]) -> Vec<String> {
    v.iter().map(|s| s.to_string()).collect()
}

fn target(name: &str, crate_types: &[&str]) -> TargetInfo {
    TargetInfo { name: name.to_string(), crate_types: strings(crate_types) }
}

fn workspace(name: &str, targets: Vec<TargetInfo>, features: &[&str]) -> WorkspaceInfo {
    WorkspaceInfo {
        workspace_root: "/ws".to_string(),
        target_directory: "/ws/target".to_string(),
        root_package: Some(PackageInfo {
            name: name.to_string(),
            targets,
            features: strings(features),
            manifest_dir: Some("/ws/pkg".to_string()),
        }),
    }
}

fn config(dump: bool, features: &[&str], no_default_features: bool) -> Config {
    Config {
        bpf_sdk: "/sdk/bpf".to_string(),
        dump,
        features: strings(features),
        manifest_path: None,
        no_default_features,
    }
}

fn plan_of(c: &Config, ws: &WorkspaceInfo) -> Plan {
    match plan_build(c, ws) {
        Ok(p) => p,
        Err(_) => panic!("planning failed"),
    }
}

#[test]
fn scenario_single_target_with_feature() {
    let ws = workspace("foo", vec![target("foo-lib", &["cdylib"])], &[]);
    let plan = plan_of(&config(false, &["x"], false), &ws);
    assert_eq!(plan.stages.len(), 2);
    assert_eq!(plan.stages[0].kind, StageKind::Build);
    assert_eq!(plan.stages[0].program, "/sdk/bpf/rust/xargo-build.sh");
    assert_eq!(plan.stages[0].args, strings(&["--features", "x"]));
    assert_eq!(plan.stages[0].working_dir, "/ws/pkg");
    assert_eq!(plan.stages[1].kind, StageKind::Strip);
    assert_eq!(plan.stages[1].program, "/sdk/bpf/scripts/strip.sh");
    assert_eq!(
        plan.stages[1].args,
        strings(&["/ws/target/bpfel-unknown-unknown/release/foo_lib.so", "foo_lib.so"])
    );
    assert!(!plan.dump_unavailable);
}

#[test]
fn scenario_legacy_feature_with_dump() {
    let ws = workspace("bar", vec![target("bar", &["cdylib", "lib"])], &["program", "default"]);
    let plan = plan_of(&config(true, &[], false), &ws);
    assert_eq!(plan.stages.len(), 3);
    assert_eq!(plan.stages[0].args, strings(&["--no-default-features", "--features=program"]));
    assert_eq!(plan.stages[1].kind, StageKind::Strip);
    assert_eq!(
        plan.stages[1].args,
        strings(&["/ws/target/bpfel-unknown-unknown/release/bar.so", "bar.so"])
    );
    assert_eq!(plan.stages[2].kind, StageKind::Dump);
    assert_eq!(plan.stages[2].program, "/sdk/bpf/scripts/dump.sh");
    assert_eq!(
        plan.stages[2].args,
        strings(&["/ws/target/bpfel-unknown-unknown/release/bar.so", "bar-dump.txt"])
    );
}

#[test]
fn scenario_missing_sdk_is_configuration_error() {
    let options = BuildOptions {
        bpf_sdk: "/no/such/sdk".to_string(),
        dump: false,
        features: vec![],
        manifest_path: None,
        no_default_features: false,
    };
    match Config::resolve(options, None) {
        Err(BuildError::SdkNotFound { path }) => assert_eq!(path, "/no/such/sdk"),
        _ => panic!("expected SdkNotFound"),
    }
}

#[test]
fn resolve_keeps_options() {
    let options = BuildOptions {
        bpf_sdk: "sdk".to_string(),
        dump: true,
        features: strings(&["a", "b"]),
        manifest_path: Some("x/Cargo.toml".to_string()),
        no_default_features: true,
    };
    match Config::resolve(options, Some("/abs/sdk".to_string())) {
        Ok(c) => {
            assert_eq!(c.bpf_sdk, "/abs/sdk");
            assert!(c.dump);
            assert_eq!(c.features, strings(&["a", "b"]));
            assert_eq!(c.manifest_path, Some("x/Cargo.toml".to_string()));
            assert!(c.no_default_features);
        }
        Err(_) => panic!("expected a configuration"),
    }
}

#[test]
fn default_options_use_executable_directory() {
    assert_eq!(default_sdk_path("/usr/local/bin"), "/usr/local/bin/sdk/bpf");
    assert_eq!(default_sdk_path("/opt/"), "/opt/sdk/bpf");
    let o = BuildOptions::defaults("/home/u/bin");
    assert_eq!(o.bpf_sdk, "/home/u/bin/sdk/bpf");
    assert!(o.dump);
    assert!(o.features.is_empty());
    assert!(o.manifest_path.is_none());
    assert!(!o.no_default_features);
}

#[test]
fn join_path_adds_one_separator() {
    assert_eq!(join_path("a", "b"), "a/b");
    assert_eq!(join_path("a/", "b"), "a/b");
    assert_eq!(join_path("", "b"), "b");
}

#[test]
fn hyphens_become_underscores() {
    let ws = workspace("p", vec![target("my-cool-prog", &["cdylib"])], &[]);
    match inspect(&ws) {
        Ok(f) => {
            assert_eq!(f.program_name, Some("my_cool_prog".to_string()));
            assert_eq!(f.package_name, "p");
            assert!(!f.legacy_program_feature);
            assert_eq!(f.package_dir, "/ws/pkg");
            assert_eq!(f.target_build_dir, "/ws/target/bpfel-unknown-unknown/release");
        }
        Err(_) => panic!("expected facts"),
    }
}

#[test]
fn single_target_with_dump_strips_and_dumps() {
    let ws = workspace("q", vec![target("a-b", &["cdylib"]), target("q", &["bin"])], &[]);
    let plan = plan_of(&config(true, &[], false), &ws);
    assert_eq!(plan.stages.len(), 3);
    assert_eq!(plan.stages[1].args[1], "a_b.so");
    assert_eq!(plan.stages[2].args[1], "a_b-dump.txt");
}

#[test]
fn no_module_target_only_builds() {
    let ws = workspace("lib", vec![target("lib", &["lib"]), target("cli", &["bin"])], &[]);
    for dump in [false, true] {
        let plan = plan_of(&config(dump, &[], false), &ws);
        assert_eq!(plan.stages.len(), 1);
        assert_eq!(plan.stages[0].kind, StageKind::Build);
        assert_eq!(plan.dump_unavailable, dump);
    }
}

#[test]
fn no_targets_at_all_only_builds() {
    let ws = workspace("empty", vec![], &[]);
    let plan = plan_of(&config(true, &[], true), &ws);
    assert_eq!(plan.stages.len(), 1);
    assert_eq!(plan.stages[0].args, strings(&["--no-default-features"]));
}

#[test]
fn many_module_targets_are_refused() {
    let ws = workspace(
        "multi",
        vec![target("one", &["cdylib"]), target("mid", &["lib"]), target("two-x", &["rlib", "cdylib"])],
        &[],
    );
    match plan_build(&config(true, &[], false), &ws) {
        Err(BuildError::MultipleModuleTargets { package, targets }) => {
            assert_eq!(package, "multi");
            assert_eq!(targets, strings(&["one", "two-x"]));
        }
        _ => panic!("expected MultipleModuleTargets"),
    }
}

#[test]
fn missing_root_package_is_refused() {
    let ws = WorkspaceInfo {
        workspace_root: "/virtual".to_string(),
        target_directory: "/virtual/target".to_string(),
        root_package: None,
    };
    match plan_build(&config(false, &[], false), &ws) {
        Err(BuildError::NoRootPackage { workspace_root }) => assert_eq!(workspace_root, "/virtual"),
        _ => panic!("expected NoRootPackage"),
    }
}

#[test]
fn missing_package_directory_is_refused() {
    let mut ws = workspace("nodir", vec![], &[]);
    if let Some(p) = ws.root_package.as_mut() {
        p.manifest_dir = None;
    }
    match inspect(&ws) {
        Err(BuildError::NoPackageDirectory { package }) => assert_eq!(package, "nodir"),
        _ => panic!("expected NoPackageDirectory"),
    }
}

#[test]
fn legacy_arguments_follow_user_arguments() {
    let c = config(false, &["a", "b"], false);
    assert_eq!(
        build_args(&c, true),
        strings(&["--features", "a", "--features", "b", "--no-default-features", "--features=program"])
    );
    let c = config(false, &["a"], true);
    assert_eq!(
        build_args(&c, true),
        strings(&["--no-default-features", "--features", "a", "--features=program"])
    );
}

#[test]
fn user_arguments_keep_order_and_duplicates() {
    let c = config(false, &["z", "a", "z"], true);
    assert_eq!(
        build_args(&c, false),
        strings(&["--no-default-features", "--features", "z", "--features", "a", "--features", "z"])
    );
    assert_eq!(build_args(&config(false, &[], false), false), Vec::<String>::new());
}

#[test]
fn planning_twice_gives_same_stages() {
    let ws = workspace("foo", vec![target("foo-lib", &["cdylib"])], &["program"]);
    let c = config(true, &["x", "y"], false);
    let a = plan_of(&c, &ws);
    let b = plan_of(&c, &ws);
    assert_eq!(a.stages.len(), b.stages.len());
    for (s, t) in a.stages.iter().zip(b.stages.iter()) {
        assert_eq!(s.kind, t.kind);
        assert_eq!(s.program, t.program);
        assert_eq!(s.args, t.args);
        assert_eq!(s.working_dir, t.working_dir);
    }
    assert_eq!(a.dump_unavailable, b.dump_unavailable);
}

#[test]
fn plan_stages_from_facts() {
    let ws = workspace("foo", vec![target("foo", &["cdylib"])], &[]);
    let facts = match inspect(&ws) {
        Ok(f) => f,
        Err(_) => panic!("expected facts"),
    };
    let plan = plan_stages(&config(false, &[], false), &facts);
    assert_eq!(plan.stages.len(), 2);
    assert!(plan.stages[0].args.is_empty());
}

#[test]
fn module_target_names_keep_order() {
    let ts = vec![target("b", &["cdylib"]), target("x", &["bin"]), target("a", &["staticlib", "cdylib"])];
    assert_eq!(module_target_names(&ts), strings(&["b", "a"]));
    assert!(contains_name(&strings(&["x", "program"]), &"program".to_string()));
    assert!(!contains_name(&strings(&["programs"]), &"program".to_string()));
}

#[test]
fn command_line_names_program_and_arguments() {
    let ws = workspace("foo", vec![target("foo", &["cdylib"])], &[]);
    let plan = plan_of(&config(false, &["x"], false), &ws);
    assert_eq!(command_line(&plan.stages[0]), "Running: /sdk/bpf/rust/xargo-build.sh --features x");
    assert_eq!(
        command_line(&plan.stages[1]),
        "Running: /sdk/bpf/scripts/strip.sh /ws/target/bpfel-unknown-unknown/release/foo.so foo.so"
    );
}

#[test]
fn stages_advance_until_done() {
    let ws = workspace("foo", vec![target("foo", &["cdylib"])], &[]);
    let plan = plan_of(&config(true, &[], false), &ws);
    assert!(matches!(after_stage(&plan, 0, StageOutcome::Succeeded), Ok(NextStep::Run(1))));
    assert!(matches!(after_stage(&plan, 1, StageOutcome::Succeeded), Ok(NextStep::Run(2))));
    assert!(matches!(after_stage(&plan, 2, StageOutcome::Succeeded), Ok(NextStep::Done)));
}

#[test]
fn stage_failures_stop_the_build() {
    let ws = workspace("foo", vec![target("foo", &["cdylib"])], &[]);
    let plan = plan_of(&config(true, &[], false), &ws);
    match after_stage(&plan, 0, StageOutcome::Failed) {
        Err(BuildError::StageFailed { program }) => {
            assert_eq!(program, "/sdk/bpf/rust/xargo-build.sh")
        }
        _ => panic!("expected StageFailed"),
    }
    let reason = "No such file or directory".to_string();
    match after_stage(&plan, 1, StageOutcome::NotStarted { reason }) {
        Err(BuildError::StageNotStarted { program, reason }) => {
            assert_eq!(program, "/sdk/bpf/scripts/strip.sh");
            assert_eq!(reason, "No such file or directory");
        }
        _ => panic!("expected StageNotStarted"),
    }
}
