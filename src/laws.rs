use vstd::prelude::*;

use crate::config::Config;
use crate::error::BuildError;
use crate::metadata::{build_subdir, module_targets, names, WorkspaceInfo};
use crate::paths::{joined, module_file_stem};
use crate::pipeline::{
    build_args_of, build_planned, dump_suffix, no_default_features_flag, program_features_flag,
    requested_args, so_suffix, Plan, StageKind,
};

verus! {

/// A package with exactly one loadable-module target `t` yields the program
/// name `t` with every hyphen replaced by an underscore, and the build plan
/// strips, and dumps if asked, the artifact of that name.
pub proof fn lemma_single_module_target(
    config: Config,
    ws: WorkspaceInfo,
    r: Result<Plan, BuildError>,
)
    requires
        ws.root_package is Some,
        ws.root_package->0.manifest_dir is Some,
        module_targets(ws.root_package->0.targets@).len() == 1,
        build_planned(config, ws, r),
    ensures
        ({
            let t = module_targets(ws.root_package->0.targets@)[0];
            let n = module_file_stem(t);
            let out = joined(ws.target_directory@, build_subdir());
            let stages = r->Ok_0@.stages;
            &&& n.len() == t.len()
            &&& forall|i: int|
                0 <= i < t.len() ==> #[trigger] n[i] == if t[i] == '-' {
                    '_'
                } else {
                    t[i]
                }
            &&& r is Ok
            &&& stages.len() == if config.dump {
                3int
            } else {
                2int
            }
            &&& stages[1].kind == StageKind::Strip
            &&& stages[1].args == seq![joined(out, n + so_suffix()), n + so_suffix()]
            &&& config.dump ==> stages[2].kind == StageKind::Dump && stages[2].args == seq![
                joined(out, n + so_suffix()),
                n + dump_suffix(),
            ]
        }),
{
}

/// A package without a loadable-module target builds without error, and
/// nothing is stripped or dumped, whether or not a dump was asked for.
pub proof fn lemma_no_module_target(config: Config, ws: WorkspaceInfo, r: Result<Plan, BuildError>)
    requires
        ws.root_package is Some,
        ws.root_package->0.manifest_dir is Some,
        module_targets(ws.root_package->0.targets@).len() == 0,
        build_planned(config, ws, r),
    ensures
        r is Ok,
        r->Ok_0@.stages.len() == 1,
        r->Ok_0@.stages[0].kind == StageKind::Build,
        r->Ok_0@.dump_unavailable == config.dump,
{
}

/// A package with two or more loadable-module targets is refused before any
/// stage is planned, with an error that names every candidate.
pub proof fn lemma_many_module_targets(
    config: Config,
    ws: WorkspaceInfo,
    r: Result<Plan, BuildError>,
)
    requires
        ws.root_package is Some,
        module_targets(ws.root_package->0.targets@).len() >= 2,
        build_planned(config, ws, r),
    ensures
        r matches Err(BuildError::MultipleModuleTargets { package, targets }) && package@
            == ws.root_package->0.name@ && names(targets@) == module_targets(
            ws.root_package->0.targets@,
        ),
{
}

/// For a package with the legacy feature the build arguments are the user's
/// own, followed by `--features=program`, with `--no-default-features`
/// present whether or not the user asked for it.
pub proof fn lemma_legacy_arguments(no_default_features: bool, features: Seq<String>)
    ensures
        ({
            let user = requested_args(no_default_features, features);
            let a = build_args_of(no_default_features, features, true);
            &&& a.len() > user.len()
            &&& a.subrange(0, user.len() as int) == user
            &&& a.last() == program_features_flag()
            &&& a.contains(no_default_features_flag())
            &&& !no_default_features ==> a[a.len() - 2] == no_default_features_flag()
        }),
{
    let user = requested_args(no_default_features, features);
    let a = build_args_of(no_default_features, features, true);
    assert(a.subrange(0, user.len() as int) =~= user);
    if no_default_features {
        assert(a[0] == no_default_features_flag());
    } else {
        assert(a[a.len() - 2] == no_default_features_flag());
    }
}

/// Planning twice with the same configuration and the same package metadata
/// gives the same outcome, and the same stages with the same arguments.
pub proof fn lemma_plan_deterministic(
    config: Config,
    ws: WorkspaceInfo,
    r1: Result<Plan, BuildError>,
    r2: Result<Plan, BuildError>,
)
    requires
        build_planned(config, ws, r1),
        build_planned(config, ws, r2),
    ensures
        r1 is Ok <==> r2 is Ok,
        r1 is Ok ==> r1->Ok_0@ == r2->Ok_0@,
{
}

} // verus!
