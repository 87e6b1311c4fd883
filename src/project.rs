//! Decisions of the `init` and `build` commands that need no I/O.

use crate::error::Error;
use crate::text::{has_prefix, same_text, starts_with_text};
use crate::tools::WASM_TARGET;
use vstd::prelude::*;
use vstd::string::StringExecFns;

verus! {

/// Template used when none is named; it is written from built-in files.
pub const DEFAULT_TEMPLATE: &'static str = "greeting";

/// Git source that SDK dependencies of a template are pointed to.
pub const SDK_GIT_URL: &'static str = "https://github.com/fluentlabs-xyz/fluentbase";

/// Branch of the SDK repository that templates follow.
pub const SDK_BRANCH: &'static str = "devel";

/// Arguments of `init`.
pub struct InitArgs {
    /// Project directory; the current directory when absent.
    pub path: Option<String>,
    /// Template to start from.
    pub template: String,
    /// List the templates instead of creating a project.
    pub list: bool,
    /// Accept an existing project directory.
    pub force: bool,
}

/// Arguments of `build`.
pub struct BuildArgs {
    pub release: bool,
    pub path: String,
    pub wat: bool,
    pub verbose: bool,
    pub target_dir: Option<String>,
}

/// Additional facts about a build.
pub struct BuildMetadata {
    /// Time taken to build, in milliseconds.
    pub build_time_ms: u64,
    pub compiler_version: String,
    pub target: String,
    pub optimization_level: String,
}

/// Result of a build.
pub struct BuildResult {
    /// Path of the produced module.
    pub wasm_path: String,
    /// Size of the produced module in bytes.
    pub size: u64,
    pub warnings: Option<Vec<String>>,
    pub metadata: Option<BuildMetadata>,
}

/// Whether `init` writes the built-in template rather than copying one.
pub fn uses_default_template(args: &InitArgs) -> (r: bool)
    ensures
        r == (args.template@ == DEFAULT_TEMPLATE@),
{
    same_text(args.template.as_str(), DEFAULT_TEMPLATE)
}

/// A project directory may be reused only when forced.
pub fn check_project_dir(exists: bool, force: bool, path: &str) -> (r: Result<(), Error>)
    ensures
        r is Err <==> exists && !force,
        r is Err ==> r matches Err(Error::Initialization(_)),
{
    if exists && !force {
        Err(
            Error::Initialization(
                String::from_str("Directory ").concat(path).concat(
                    " already exists. Use --force to overwrite.",
                ),
            ),
        )
    } else {
        Ok(())
    }
}

/// A buildable project has a manifest and a library root (`lib.rs` or
/// `src/lib.rs`).
pub fn validate_project_structure(has_manifest: bool, has_lib_rs: bool, has_src_lib_rs: bool) -> (r:
    Result<(), Error>)
    ensures
        !has_manifest ==> r matches Err(Error::InvalidProject(_)),
        has_manifest && !has_lib_rs && !has_src_lib_rs ==> r matches Err(Error::InvalidProject(_)),
        r is Ok <==> has_manifest && (has_lib_rs || has_src_lib_rs),
{
    if !has_manifest {
        return Err(
            Error::InvalidProject(String::from_str("Cargo.toml not found. Is this a Rust project?")),
        );
    }
    if !has_lib_rs && !has_src_lib_rs {
        return Err(
            Error::InvalidProject(
                String::from_str(
                    "Neither lib.rs nor src/lib.rs found. This should be a library project.",
                ),
            ),
        );
    }
    Ok(())
}

/// Profile directory name of a build.
pub fn build_mode(release: bool) -> (r: &'static str)
    ensures
        release ==> r@ == "release"@,
        !release ==> r@ == "debug"@,
{
    if release {
        "release"
    } else {
        "debug"
    }
}

/// Arguments of the `cargo` invocation that builds a contract.
pub open spec fn build_args_spec(release: bool, target_dir: Option<String>) -> Seq<Seq<char>> {
    seq!["build"@, "--target"@, WASM_TARGET@, "--no-default-features"@] + (if target_dir is Some {
        seq!["--target-dir"@, target_dir->0@]
    } else {
        Seq::empty()
    }) + (if release {
        seq!["--release"@]
    } else {
        Seq::empty()
    })
}

/// The arguments for `cargo` that build the contract for the WebAssembly
/// target, optionally into `target_dir` and in release mode.
pub fn cargo_build_args(release: bool, target_dir: Option<String>) -> (r: Vec<String>)
    ensures
        r@.map_values(|s: String| s@) == build_args_spec(release, target_dir),
{
    let ghost td = target_dir;
    let mut args: Vec<String> = Vec::new();
    args.push(String::from_str("build"));
    args.push(String::from_str("--target"));
    args.push(String::from_str(WASM_TARGET));
    args.push(String::from_str("--no-default-features"));
    match target_dir {
        Some(dir) => {
            args.push(String::from_str("--target-dir"));
            args.push(dir);
        },
        None => {},
    }
    if release {
        args.push(String::from_str("--release"));
    }
    assert(args@.map_values(|s: String| s@) =~= build_args_spec(release, td));
    args
}

/// `s` with each `-` replaced by `_`.
pub open spec fn underscored(s: Seq<char>) -> Seq<char> {
    Seq::new(s.len(), |i: int| if s[i] == '-' { '_' } else { s[i] })
}

/// File name of the module that a package builds when its manifest names
/// no library target: the package name with `_` for `-`, and `.wasm`.
pub fn wasm_library_name(project_name: &str) -> (r: String)
    ensures
        r@ == underscored(project_name@) + ".wasm"@,
{
    let n = project_name.unicode_len();
    let mut out = String::new();
    let mut i: usize = 0;
    while i < n
        invariant
            n == project_name@.len(),
            i <= n,
            out@ == underscored(project_name@).subrange(0, i as int),
        decreases n - i,
    {
        let ghost before = out@;
        if project_name.get_char(i) == '-' {
            out.append("_");
            proof {
                reveal_strlit("_");
            }
        } else {
            out.append(project_name.substring_char(i, i + 1));
        }
        assert(out@ =~= underscored(project_name@).subrange(0, i + 1));
        i = i + 1;
    }
    assert(out@ =~= underscored(project_name@));
    out.concat(".wasm")
}

/// What becomes of one dependency of a template's manifest.
#[derive(Clone, Copy, Debug, PartialEq, Eq, Structural)]
pub enum DependencyUpdate {
    /// Not inherited from the workspace: left as written.
    Keep,
    /// An SDK crate: pointed at the SDK's git branch, keeping its
    /// `default-features` setting.
    GitSource,
    /// Replaced by the workspace's own entry.
    CopyFromWorkspace,
    /// Inherited, but the workspace does not define it: the template is
    /// broken.
    MissingFromWorkspace,
}

/// Decides how a dependency `name` of a template is resolved, given whether
/// it is marked `workspace = true` and whether the workspace defines it.
pub fn dependency_update(name: &str, uses_workspace: bool, in_workspace: bool) -> (r:
    DependencyUpdate)
    ensures
        !uses_workspace ==> r == DependencyUpdate::Keep,
        uses_workspace && !in_workspace ==> r == DependencyUpdate::MissingFromWorkspace,
        uses_workspace && in_workspace && has_prefix(name@, "fluentbase-"@) ==> r
            == DependencyUpdate::GitSource,
        uses_workspace && in_workspace && !has_prefix(name@, "fluentbase-"@) ==> r
            == DependencyUpdate::CopyFromWorkspace,
{
    if !uses_workspace {
        DependencyUpdate::Keep
    } else if !in_workspace {
        DependencyUpdate::MissingFromWorkspace
    } else if starts_with_text(name, "fluentbase-") {
        DependencyUpdate::GitSource
    } else {
        DependencyUpdate::CopyFromWorkspace
    }
}

} // verus!
