use vstd::prelude::*;

use crate::error::BuildError;
use crate::paths::{join_path, joined, module_file_stem, replace_hyphens};

verus! {

/// One build target of a package.
pub struct TargetInfo {
    pub name: String,
    pub crate_types: Vec<String>,
}

/// What the metadata query reports of the root package.
pub struct PackageInfo {
    pub name: String,
    pub targets: Vec<TargetInfo>,
    /// The names of the features the package declares.
    pub features: Vec<String>,
    /// The directory that holds the package's manifest, where it has one.
    pub manifest_dir: Option<String>,
}

/// What the metadata query reports of the workspace.
pub struct WorkspaceInfo {
    pub workspace_root: String,
    /// The workspace's shared output directory root.
    pub target_directory: String,
    pub root_package: Option<PackageInfo>,
}

/// The facts about the package to build that the pipeline needs.
pub struct PackageFacts {
    pub package_name: String,
    /// The name of the single loadable-module artifact, if there is one.
    pub program_name: Option<String>,
    /// Whether the package declares the legacy `program` feature.
    pub legacy_program_feature: bool,
    /// The directory the stages run in.
    pub package_dir: String,
    /// Where the toolchain writes the unstripped artifact.
    pub target_build_dir: String,
}

/// The crate type of a loadable module.
pub open spec fn cdylib_kind() -> Seq<char> {
    seq!['c', 'd', 'y', 'l', 'i', 'b']
}

/// The legacy compatibility feature.
pub open spec fn program_feature() -> Seq<char> {
    seq!['p', 'r', 'o', 'g', 'r', 'a', 'm']
}

/// The output directory for the target instruction set and release profile,
/// relative to the workspace's target directory.
pub open spec fn build_subdir() -> Seq<char> {
    "bpfel-unknown-unknown/release"@
}

/// Some string of `v` reads `s`.
pub open spec fn has_name(v: Seq<String>, s: Seq<char>) -> bool {
    exists|i: int| 0 <= i < v.len() && #[trigger] v[i]@ == s
}

/// The text of each string of `v`, in order.
pub open spec fn names(v: Seq<String>) -> Seq<Seq<char>> {
    v.map_values(|s: String| s@)
}

/// The text of an optional string.
pub open spec fn opt_name(o: Option<String>) -> Option<Seq<char>> {
    match o {
        Some(s) => Some(s@),
        None => None,
    }
}

/// The names of the loadable-module targets among `ts`, in order.
pub open spec fn module_targets(ts: Seq<TargetInfo>) -> Seq<Seq<char>>
    decreases ts.len(),
{
    if ts.len() == 0 {
        Seq::empty()
    } else {
        let rest = module_targets(ts.drop_last());
        if has_name(ts.last().crate_types@, cdylib_kind()) {
            rest.push(ts.last().name@)
        } else {
            rest
        }
    }
}

/// The program name for a list of module targets: none for none, the
/// target's file stem for one; more than one is refused elsewhere.
pub open spec fn program_of(cands: Seq<Seq<char>>) -> Option<Seq<char>> {
    if cands.len() == 1 {
        Some(module_file_stem(cands[0]))
    } else {
        None
    }
}

/// `f` holds the facts of package `p` in a workspace whose target directory
/// is `target_dir`.
pub open spec fn facts_of(p: PackageInfo, target_dir: Seq<char>, f: PackageFacts) -> bool {
    &&& f.package_name@ == p.name@
    &&& opt_name(f.program_name) == program_of(module_targets(p.targets@))
    &&& f.legacy_program_feature == has_name(p.features@, program_feature())
    &&& p.manifest_dir is Some
    &&& f.package_dir@ == p.manifest_dir->0@
    &&& f.target_build_dir@ == joined(target_dir, build_subdir())
}

/// The package metadata of `ws` is usable: there is a root package, it
/// declares at most one loadable-module target, and its directory is known.
pub open spec fn metadata_usable(ws: WorkspaceInfo) -> bool {
    &&& ws.root_package is Some
    &&& module_targets(ws.root_package->0.targets@).len() <= 1
    &&& ws.root_package->0.manifest_dir is Some
}

/// `e` is the error that the package metadata of `ws` is rejected with.
pub open spec fn metadata_error(ws: WorkspaceInfo, e: BuildError) -> bool {
    match ws.root_package {
        None => e matches BuildError::NoRootPackage { workspace_root }
            && workspace_root@ == ws.workspace_root@,
        Some(p) => {
            let cands = module_targets(p.targets@);
            if cands.len() > 1 {
                e matches BuildError::MultipleModuleTargets { package, targets }
                    && package@ == p.name@ && names(targets@) == cands
            } else {
                e matches BuildError::NoPackageDirectory { package } && package@ == p.name@
            }
        },
    }
}

/// `r` is what inspecting `ws` yields.
pub open spec fn inspected(ws: WorkspaceInfo, r: Result<PackageFacts, BuildError>) -> bool {
    match r {
        Ok(f) => metadata_usable(ws) && facts_of(ws.root_package->0, ws.target_directory@, f),
        Err(e) => !metadata_usable(ws) && metadata_error(ws, e),
    }
}

/// Whether `v` holds a string equal to `s`.
pub fn contains_name(v: &Vec<String>, s: &String) -> (r: bool)
    ensures
        r == has_name(v@, s@),
{
    let mut i: usize = 0;
    while i < v.len()
        invariant
            i <= v@.len(),
            forall|j: int| 0 <= j < i ==> v@[j]@ != s@,
        decreases v@.len() - i,
    {
        if v[i] == *s {
            return true;
        }
        i = i + 1;
    }
    false
}

/// The names of the loadable-module targets among `targets`, in order.
pub fn module_target_names(targets: &Vec<TargetInfo>) -> (r: Vec<String>)
    ensures
        names(r@) == module_targets(targets@),
{
    let cdylib = "cdylib".to_owned();
    proof {
        reveal_strlit("cdylib");
    }
    assert(cdylib@ =~= cdylib_kind());
    let mut r: Vec<String> = Vec::new();
    let mut i: usize = 0;
    while i < targets.len()
        invariant
            i <= targets@.len(),
            cdylib@ == cdylib_kind(),
            names(r@) == module_targets(targets@.subrange(0, i as int)),
        decreases targets@.len() - i,
    {
        let t = &targets[i];
        let ghost before = r@;
        assert(targets@.subrange(0, i + 1).drop_last() =~= targets@.subrange(0, i as int));
        if contains_name(&t.crate_types, &cdylib) {
            r.push(t.name.clone());
            assert(names(r@) =~= names(before).push(t.name@));
        }
        i = i + 1;
    }
    assert(targets@.subrange(0, targets@.len() as int) =~= targets@);
    r
}

/// Derives the facts about the root package of `ws`. Fails where there is
/// no root package, where it declares more than one loadable-module target
/// (naming them all), or where its directory is unknown.
pub fn inspect(ws: &WorkspaceInfo) -> (r: Result<PackageFacts, BuildError>)
    ensures
        inspected(*ws, r),
{
    let p = match &ws.root_package {
        None => {
            return Err(BuildError::NoRootPackage { workspace_root: ws.workspace_root.clone() });
        },
        Some(p) => p,
    };
    let cands = module_target_names(&p.targets);
    let program_name = if cands.len() == 0 {
        None
    } else if cands.len() == 1 {
        Some(replace_hyphens(cands[0].as_str()))
    } else {
        return Err(BuildError::MultipleModuleTargets { package: p.name.clone(), targets: cands });
    };
    let program = "program".to_owned();
    proof {
        reveal_strlit("program");
    }
    assert(program@ =~= program_feature());
    let legacy = contains_name(&p.features, &program);
    let package_dir = match &p.manifest_dir {
        None => {
            return Err(BuildError::NoPackageDirectory { package: p.name.clone() });
        },
        Some(d) => d.clone(),
    };
    let target_build_dir = join_path(ws.target_directory.as_str(), "bpfel-unknown-unknown/release");
    Ok(
        PackageFacts {
            package_name: p.name.clone(),
            program_name,
            legacy_program_feature: legacy,
            package_dir,
            target_build_dir,
        },
    )
}

} // verus!
