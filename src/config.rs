use vstd::prelude::*;

use crate::error::BuildError;
use crate::paths::{join_path, joined};

verus! {

/// The SDK location relative to the directory of the running executable.
pub open spec fn sdk_rel_path() -> Seq<char> {
    seq!['s', 'd', 'k', '/', 'b', 'p', 'f']
}

/// The options a build is asked for, before the SDK path is checked.
pub struct BuildOptions {
    pub bpf_sdk: String,
    pub dump: bool,
    pub features: Vec<String>,
    pub manifest_path: Option<String>,
    pub no_default_features: bool,
}

/// The resolved configuration of one build: `bpf_sdk` is canonical.
pub struct Config {
    pub bpf_sdk: String,
    pub dump: bool,
    pub features: Vec<String>,
    pub manifest_path: Option<String>,
    pub no_default_features: bool,
}

/// The default SDK path for an executable that lies in `exe_dir`.
pub fn default_sdk_path(exe_dir: &str) -> (r: String)
    ensures
        r@ == joined(exe_dir@, sdk_rel_path()),
{
    let rel = "sdk/bpf";
    proof {
        reveal_strlit("sdk/bpf");
    }
    assert(rel@ =~= sdk_rel_path());
    join_path(exe_dir, rel)
}

impl BuildOptions {
    /// The options used when none is given: the default SDK path for an
    /// executable in `exe_dir`, no features, default features on, the
    /// manifest found from the current directory, and a dump.
    pub fn defaults(exe_dir: &str) -> (r: BuildOptions)
        ensures
            r.bpf_sdk@ == joined(exe_dir@, sdk_rel_path()),
            r.dump,
            r.features@.len() == 0,
            r.manifest_path is None,
            !r.no_default_features,
    {
        BuildOptions {
            bpf_sdk: default_sdk_path(exe_dir),
            dump: true,
            features: Vec::new(),
            manifest_path: None,
            no_default_features: false,
        }
    }
}

impl Config {
    /// Resolves `options` into a configuration. `canonical_sdk` is the
    /// canonical form of `options.bpf_sdk`, or `None` where that path does
    /// not exist; the build cannot go on without it.
    pub fn resolve(options: BuildOptions, canonical_sdk: Option<String>) -> (r: Result<
        Config,
        BuildError,
    >)
        ensures
            canonical_sdk is None <==> r is Err,
            r matches Err(e) ==> e matches BuildError::SdkNotFound { path } && path@
                == options.bpf_sdk@,
            r matches Ok(c) ==> {
                &&& c.bpf_sdk@ == canonical_sdk->0@
                &&& c.dump == options.dump
                &&& c.features@ == options.features@
                &&& c.manifest_path == options.manifest_path
                &&& c.no_default_features == options.no_default_features
            },
    {
        match canonical_sdk {
            None => Err(BuildError::SdkNotFound { path: options.bpf_sdk }),
            Some(sdk) => Ok(
                Config {
                    bpf_sdk: sdk,
                    dump: options.dump,
                    features: options.features,
                    manifest_path: options.manifest_path,
                    no_default_features: options.no_default_features,
                },
            ),
        }
    }
}

} // verus!
