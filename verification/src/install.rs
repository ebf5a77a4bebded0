//! Placement of an extracted Java runtime: the canonical directory name, the
//! rename/overwrite plan, and the platform-specific executable path. The
//! filesystem operations themselves are carried out by the composition root,
//! following the plan computed here.

use vstd::prelude::*;
use crate::platform::TargetOs;
use crate::strings::{append_chars, append_str_chars, chars_to_string, dec_rep_signed, i64_to_chars};

verus! {

/// The directory holding all managed Java runtimes under the application
/// data directory.
pub open spec fn java_dir_chars(app_data_dir: Seq<char>) -> Seq<char> {
    app_data_dir + "/java"@
}

/// The default directory for managed Java runtimes: `{app_data_dir}/java`.
pub fn get_default_java_dir(app_data_dir: &str) -> (r: String)
    ensures
        r@ == java_dir_chars(app_data_dir@),
{
    let mut v: Vec<char> = Vec::new();
    append_str_chars(&mut v, app_data_dir);
    append_str_chars(&mut v, "/java");
    chars_to_string(&v)
}

/// Canonical directory name for an installed major version: `zulu{major}`.
pub open spec fn zulu_dir_chars(java_version: int) -> Seq<char> {
    "zulu"@ + dec_rep_signed(java_version)
}

/// The canonical directory name `zulu{java_version}`.
pub fn zulu_dir_name(java_version: i32) -> (r: String)
    ensures
        r@ == zulu_dir_chars(java_version as int),
{
    let mut v: Vec<char> = Vec::new();
    append_str_chars(&mut v, "zulu");
    let digits = i64_to_chars(java_version as i64);
    append_chars(&mut v, &digits);
    chars_to_string(&v)
}

/// The platform-specific path of the Java executable inside the canonical
/// target directory.
pub open spec fn executable_path_chars(target: Seq<char>, java_version: int, os: TargetOs) -> Seq<
    char,
> {
    match os {
        TargetOs::MacOs => target + "/zulu-"@ + dec_rep_signed(java_version)
            + ".jre/Contents/Home/bin/java"@,
        TargetOs::Windows => target + "/bin/javaw.exe"@,
        TargetOs::Linux => target + "/bin/java"@,
        TargetOs::Other => target + "/bin/java"@,
    }
}

/// Computes the platform-specific Java executable path under `target_path`.
/// No existence check is made here: callers validate the path independently.
pub fn build_java_executable_path(target_path: &str, java_version: i32, os: TargetOs) -> (r:
    String)
    ensures
        r@ == executable_path_chars(target_path@, java_version as int, os),
{
    let mut v: Vec<char> = Vec::new();
    append_str_chars(&mut v, target_path);
    match os {
        TargetOs::MacOs => {
            append_str_chars(&mut v, "/zulu-");
            let digits = i64_to_chars(java_version as i64);
            append_chars(&mut v, &digits);
            append_str_chars(&mut v, ".jre/Contents/Home/bin/java");
        },
        TargetOs::Windows => {
            append_str_chars(&mut v, "/bin/javaw.exe");
        },
        TargetOs::Linux => {
            append_str_chars(&mut v, "/bin/java");
        },
        TargetOs::Other => {
            append_str_chars(&mut v, "/bin/java");
        },
    }
    chars_to_string(&v)
}

/// The filesystem plan and computed paths of one configuration step.
pub struct ConfigureOutcome {
    /// Where the extracted root directory currently sits.
    pub original_path: String,
    /// The canonical target directory `{versions_dir}/zulu{major}`.
    pub target_path: String,
    /// Whether the pre-existing target must be removed first (overwrite
    /// semantics).
    pub remove_target: bool,
    /// Whether the extracted root is to be renamed onto the target.
    pub rename_original: bool,
    /// The platform-specific executable path inside the target.
    pub executable_path: String,
}

/// What a correct configuration step computes from its inputs.
pub open spec fn configure_outcome_spec(
    r: ConfigureOutcome,
    versions_dir: Seq<char>,
    root_dir_name: Seq<char>,
    java_version: int,
    os: TargetOs,
    target_exists: bool,
    original_exists: bool,
) -> bool {
    &&& r.original_path@ == versions_dir + "/"@ + root_dir_name
    &&& r.target_path@ == versions_dir + "/"@ + zulu_dir_chars(java_version)
    &&& r.remove_target == target_exists
    &&& r.rename_original == original_exists
    &&& r.executable_path@ == executable_path_chars(
        versions_dir + "/"@ + zulu_dir_chars(java_version),
        java_version,
        os,
    )
}

/// Plans the configuration of an extracted runtime: remove a pre-existing
/// canonical target, rename the extracted root onto it, and compute the
/// executable path. `target_exists` and `original_exists` report the current
/// state of the filesystem; the step itself never fails.
pub fn configure_java_installation(
    versions_dir: &str,
    root_dir_name: &str,
    java_version: i32,
    os: TargetOs,
    target_exists: bool,
    original_exists: bool,
) -> (r: ConfigureOutcome)
    ensures
        configure_outcome_spec(
            r,
            versions_dir@,
            root_dir_name@,
            java_version as int,
            os,
            target_exists,
            original_exists,
        ),
{
    let mut original: Vec<char> = Vec::new();
    append_str_chars(&mut original, versions_dir);
    append_str_chars(&mut original, "/");
    append_str_chars(&mut original, root_dir_name);

    let mut target: Vec<char> = Vec::new();
    append_str_chars(&mut target, versions_dir);
    append_str_chars(&mut target, "/");
    let zulu = zulu_dir_name(java_version);
    append_str_chars(&mut target, zulu.as_str());

    let target_path = chars_to_string(&target);
    let executable_path = build_java_executable_path(target_path.as_str(), java_version, os);

    ConfigureOutcome {
        original_path: chars_to_string(&original),
        target_path,
        remove_target: target_exists,
        rename_original: original_exists,
        executable_path,
    }
}

/// Configuration is idempotent as far as its result is concerned: whatever
/// the filesystem currently holds (in particular, on a repeated run with the
/// same inputs), the computed executable path is the same.
pub proof fn lemma_configure_path_stable(
    r1: ConfigureOutcome,
    r2: ConfigureOutcome,
    versions_dir: Seq<char>,
    root_dir_name: Seq<char>,
    java_version: int,
    os: TargetOs,
    te1: bool,
    oe1: bool,
    te2: bool,
    oe2: bool,
)
    requires
        configure_outcome_spec(r1, versions_dir, root_dir_name, java_version, os, te1, oe1),
        configure_outcome_spec(r2, versions_dir, root_dir_name, java_version, os, te2, oe2),
    ensures
        r1.executable_path@ == r2.executable_path@,
        r1.target_path@ == r2.target_path@,
{
}

} // verus!
