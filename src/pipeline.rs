use vstd::prelude::*;

use crate::config::Config;
use crate::error::BuildError;
use crate::metadata::{
    build_subdir, has_name, inspect, metadata_error, metadata_usable, module_targets, names,
    opt_name, program_feature, program_of, PackageFacts, WorkspaceInfo,
};
use crate::paths::{join_path, joined};

verus! {

/// The three kinds of external invocation, in the order they run.
#[derive(PartialEq, Eq, Structural, Clone, Copy, Debug)]
pub enum StageKind {
    Build,
    Strip,
    Dump,
}

/// One external invocation: a program, its arguments, and the directory it
/// runs in.
pub struct Stage {
    pub kind: StageKind,
    pub program: String,
    pub args: Vec<String>,
    pub working_dir: String,
}

/// A stage as text: what its contract speaks of.
pub struct StageView {
    pub kind: StageKind,
    pub program: Seq<char>,
    pub args: Seq<Seq<char>>,
    pub working_dir: Seq<char>,
}

impl View for Stage {
    type V = StageView;

    open spec fn view(&self) -> StageView {
        StageView {
            kind: self.kind,
            program: self.program@,
            args: names(self.args@),
            working_dir: self.working_dir@,
        }
    }
}

/// The invocations of one build, in order, and whether a requested dump is
/// skipped for want of a loadable-module target.
pub struct Plan {
    pub stages: Vec<Stage>,
    pub dump_unavailable: bool,
}

/// A plan as text: what its contract speaks of.
pub struct PlanView {
    pub stages: Seq<StageView>,
    pub dump_unavailable: bool,
}

impl View for Plan {
    type V = PlanView;

    open spec fn view(&self) -> PlanView {
        PlanView {
            stages: self.stages@.map_values(|s: Stage| s@),
            dump_unavailable: self.dump_unavailable,
        }
    }
}

/// The flag that turns the default features off.
pub open spec fn no_default_features_flag() -> Seq<char> {
    "--no-default-features"@
}

/// The flag that precedes a feature name.
pub open spec fn features_flag() -> Seq<char> {
    "--features"@
}

/// The flag that turns the legacy `program` feature on.
pub open spec fn program_features_flag() -> Seq<char> {
    "--features=program"@
}

/// `--features <name>` for each feature, in order.
pub open spec fn feature_args(fs: Seq<String>) -> Seq<Seq<char>>
    decreases fs.len(),
{
    if fs.len() == 0 {
        Seq::empty()
    } else {
        feature_args(fs.drop_last()).push(features_flag()).push(fs.last()@)
    }
}

/// The arguments the user's own options ask for.
pub open spec fn requested_args(no_default_features: bool, fs: Seq<String>) -> Seq<Seq<char>> {
    let head = if no_default_features {
        seq![no_default_features_flag()]
    } else {
        Seq::empty()
    };
    head + feature_args(fs)
}

/// The arguments a package with the legacy feature adds after the user's.
pub open spec fn legacy_args(no_default_features: bool) -> Seq<Seq<char>> {
    if no_default_features {
        seq![program_features_flag()]
    } else {
        seq![no_default_features_flag(), program_features_flag()]
    }
}

/// The arguments of the toolchain build stage.
pub open spec fn build_args_of(no_default_features: bool, fs: Seq<String>, legacy: bool) -> Seq<
    Seq<char>,
> {
    if legacy {
        requested_args(no_default_features, fs) + legacy_args(no_default_features)
    } else {
        requested_args(no_default_features, fs)
    }
}

/// The toolchain build script, relative to the SDK.
pub open spec fn build_script() -> Seq<char> {
    "rust/xargo-build.sh"@
}

/// The strip script, relative to the SDK.
pub open spec fn strip_script() -> Seq<char> {
    "scripts/strip.sh"@
}

/// The dump script, relative to the SDK.
pub open spec fn dump_script() -> Seq<char> {
    "scripts/dump.sh"@
}

/// The extension of a loadable module.
pub open spec fn so_suffix() -> Seq<char> {
    ".so"@
}

/// The end of a dump file's name.
pub open spec fn dump_suffix() -> Seq<char> {
    "-dump.txt"@
}

/// The stages for `config` and a package whose program name is `program`,
/// which declares the legacy feature where `legacy` holds, whose directory
/// is `dir`, and whose unstripped artifact lies in `out_dir`.
pub open spec fn expected_plan(
    config: Config,
    program: Option<Seq<char>>,
    legacy: bool,
    dir: Seq<char>,
    out_dir: Seq<char>,
) -> PlanView {
    let sdk = config.bpf_sdk@;
    let build = StageView {
        kind: StageKind::Build,
        program: joined(sdk, build_script()),
        args: build_args_of(config.no_default_features, config.features@, legacy),
        working_dir: dir,
    };
    match program {
        None => PlanView { stages: seq![build], dump_unavailable: config.dump },
        Some(n) => {
            let unstripped = joined(out_dir, n + so_suffix());
            let strip = StageView {
                kind: StageKind::Strip,
                program: joined(sdk, strip_script()),
                args: seq![unstripped, n + so_suffix()],
                working_dir: dir,
            };
            let dump = StageView {
                kind: StageKind::Dump,
                program: joined(sdk, dump_script()),
                args: seq![unstripped, n + dump_suffix()],
                working_dir: dir,
            };
            if config.dump {
                PlanView { stages: seq![build, strip, dump], dump_unavailable: false }
            } else {
                PlanView { stages: seq![build, strip], dump_unavailable: false }
            }
        },
    }
}

/// The stages for `config` and the package described by `facts`.
pub open spec fn plan_for(config: Config, facts: PackageFacts) -> PlanView {
    expected_plan(
        config,
        opt_name(facts.program_name),
        facts.legacy_program_feature,
        facts.package_dir@,
        facts.target_build_dir@,
    )
}

/// The stages for `config` and a workspace whose metadata is usable.
pub open spec fn plan_for_workspace(config: Config, ws: WorkspaceInfo) -> PlanView {
    let p = ws.root_package->0;
    expected_plan(
        config,
        program_of(module_targets(p.targets@)),
        has_name(p.features@, program_feature()),
        p.manifest_dir->0@,
        joined(ws.target_directory@, build_subdir()),
    )
}

/// `r` is what planning the build of `ws` under `config` yields.
pub open spec fn build_planned(config: Config, ws: WorkspaceInfo, r: Result<Plan, BuildError>) -> bool {
    match r {
        Ok(p) => metadata_usable(ws) && p@ == plan_for_workspace(config, ws),
        Err(e) => !metadata_usable(ws) && metadata_error(ws, e),
    }
}

/// `s` followed by `suffix`.
fn with_suffix(s: &String, suffix: &str) -> (r: String)
    ensures
        r@ == s@ + suffix@,
{
    let mut r = s.clone();
    r.append(suffix);
    r
}

/// The arguments of the toolchain build stage: the user's options, then,
/// for a package with the legacy feature, `--no-default-features` where the
/// user did not ask for it and `--features=program`.
pub fn build_args(config: &Config, legacy: bool) -> (r: Vec<String>)
    ensures
        names(r@) == build_args_of(config.no_default_features, config.features@, legacy),
{
    let mut r: Vec<String> = Vec::new();
    if config.no_default_features {
        r.push("--no-default-features".to_owned());
    }
    let ghost head = names(r@);
    assert(head =~= requested_args(config.no_default_features, Seq::empty()));
    let fs = &config.features;
    let mut i: usize = 0;
    while i < fs.len()
        invariant
            i <= fs@.len(),
            fs == config.features,
            names(r@) == head + feature_args(fs@.subrange(0, i as int)),
        decreases fs@.len() - i,
    {
        let ghost before = names(r@);
        assert(fs@.subrange(0, i + 1).drop_last() =~= fs@.subrange(0, i as int));
        r.push("--features".to_owned());
        r.push(fs[i].clone());
        assert(names(r@) =~= before.push(features_flag()).push(fs@[i as int]@));
        assert(feature_args(fs@.subrange(0, i + 1)) == feature_args(
            fs@.subrange(0, i as int),
        ).push(features_flag()).push(fs@[i as int]@));
        i = i + 1;
    }
    assert(fs@.subrange(0, fs@.len() as int) =~= fs@);
    assert(names(r@) =~= requested_args(config.no_default_features, config.features@));
    if legacy {
        let ghost before = names(r@);
        if !config.no_default_features {
            r.push("--no-default-features".to_owned());
        }
        r.push("--features=program".to_owned());
        assert(names(r@) =~= before + legacy_args(config.no_default_features));
    }
    r
}

/// The stages to run for `config` and the package described by `facts`:
/// the toolchain build; then, where there is a program name, the strip,
/// and the dump where one is requested.
pub fn plan_stages(config: &Config, facts: &PackageFacts) -> (r: Plan)
    ensures
        r@ == plan_for(*config, *facts),
{
    let sdk = config.bpf_sdk.as_str();
    let dir = &facts.package_dir;
    let mut stages: Vec<Stage> = Vec::new();
    stages.push(
        Stage {
            kind: StageKind::Build,
            program: join_path(sdk, "rust/xargo-build.sh"),
            args: build_args(config, facts.legacy_program_feature),
            working_dir: dir.clone(),
        },
    );
    let mut dump_unavailable = false;
    match &facts.program_name {
        None => {
            dump_unavailable = config.dump;
        },
        Some(n) => {
            let so = with_suffix(n, ".so");
            let unstripped = join_path(facts.target_build_dir.as_str(), so.as_str());
            let mut strip_args: Vec<String> = Vec::new();
            strip_args.push(unstripped.clone());
            strip_args.push(so);
            assert(names(strip_args@) =~= seq![unstripped@, n@ + so_suffix()]);
            stages.push(
                Stage {
                    kind: StageKind::Strip,
                    program: join_path(sdk, "scripts/strip.sh"),
                    args: strip_args,
                    working_dir: dir.clone(),
                },
            );
            if config.dump {
                let mut dump_args: Vec<String> = Vec::new();
                dump_args.push(unstripped);
                dump_args.push(with_suffix(n, "-dump.txt"));
                assert(names(dump_args@) =~= seq![unstripped@, n@ + dump_suffix()]);
                stages.push(
                    Stage {
                        kind: StageKind::Dump,
                        program: join_path(sdk, "scripts/dump.sh"),
                        args: dump_args,
                        working_dir: dir.clone(),
                    },
                );
            }
        },
    }
    let r = Plan { stages, dump_unavailable };
    assert(r@.stages =~= plan_for(*config, *facts).stages);
    r
}

/// Plans the build of the root package of `ws` under `config`. Fails, before
/// any stage, where the package metadata is not usable.
pub fn plan_build(config: &Config, ws: &WorkspaceInfo) -> (r: Result<Plan, BuildError>)
    ensures
        build_planned(*config, *ws, r),
{
    match inspect(ws) {
        Err(e) => Err(e),
        Ok(facts) => Ok(plan_stages(config, &facts)),
    }
}

} // verus!
