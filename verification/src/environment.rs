//! The environment resolver: host facts gathered once per launch.

use vstd::prelude::*;

use crate::text::str_eq;

verus! {

/// Facts about the host and the deployment, gathered once per launch and
/// then threaded unchanged through discovery, assembly and supervision.
pub struct ArecaEnvironment {
    /// Whether the platform uses Windows path conventions.
    pub is_windows: bool,
    /// The platform's path-component separator, a single character.
    pub dir_separator: String,
    /// The platform's path-list separator: `;` on Windows, `:` elsewhere.
    pub path_separator: String,
    /// The resolved application install directory.
    pub program_dir: String,
    /// The directory that holds the runtime executable, empty when the bare
    /// executable name is deferred to the operating system's search path.
    pub java_path: String,
}

impl ArecaEnvironment {
    /// The internal consistency every resolved environment satisfies: the
    /// component separator is a single character, the platform flag holds
    /// exactly when that separator is the backslash, and the path-list
    /// separator follows the flag.
    pub open spec fn wf(self) -> bool {
        &&& self.dir_separator@.len() == 1
        &&& self.is_windows == (self.dir_separator@ == "\\"@)
        &&& self.path_separator@ == (if self.is_windows {
            ";"@
        } else {
            ":"@
        })
    }
}

/// Relies on `std::path::MAIN_SEPARATOR`: the platform's primary
/// path-component separator, always a single character.
#[verifier::external_body]
pub fn get_system_directory_separator() -> (r: String)
    ensures
        r@.len() == 1,
{
    String::from(std::path::MAIN_SEPARATOR)
}

/// Relies on `std::path::Path::exists`: whether the path points at an
/// existing filesystem entity. The answer depends on the state of the disk,
/// so nothing is promised of it.
#[verifier::external_body]
pub(crate) fn path_exists(path: &str) -> bool {
    std::path::Path::new(path).exists()
}

/// Whether the platform's component separator is the Windows one. The
/// result mirrors the separator probe directly, so nothing more can be
/// promised of it.
pub fn is_windows() -> bool {
    let sep = get_system_directory_separator();
    str_eq(sep.as_str(), "\\")
}

/// The path-list separator for a platform: `;` under Windows conventions,
/// `:` otherwise.
pub fn path_separator_for(is_windows: bool) -> (r: String)
    ensures
        r@ == (if is_windows {
            ";"@
        } else {
            ":"@
        }),
{
    if is_windows {
        String::from_str(";")
    } else {
        String::from_str(":")
    }
}

/// The separator placed between classpath entries on this host. The result
/// follows the platform probe, so only the two possible values are
/// promised; the tie to the flag is `path_separator_for`'s contract.
pub fn get_system_path_separator() -> (r: String)
    ensures
        r@ == ";"@ || r@ == ":"@,
{
    path_separator_for(is_windows())
}

/// The dependency marker archive's path under `path`:
/// `<path><sep>lib<sep>areca.jar`.
pub open spec fn spec_areca_marker_path(path: Seq<char>, sep: Seq<char>) -> Seq<char> {
    path + sep + "lib"@ + sep + "areca.jar"@
}

/// Builds the dependency marker archive's path under `path`.
pub fn areca_marker_path(path: &String, dir_separator: &str) -> (r: String)
    ensures
        r@ == spec_areca_marker_path(path@, dir_separator@),
{
    let mut r = path.clone();
    r.append(dir_separator);
    r.append("lib");
    r.append(dir_separator);
    r.append("areca.jar");
    r
}

/// Whether `path` names a directory that holds the application's dependency
/// marker archive. The path handed to the probe is exactly
/// `spec_areca_marker_path(path@, dir_separator@)`; the probe's answer
/// depends on the disk, so of the result only the rejection of an empty
/// path is promised.
pub fn is_areca_present(path: &String, dir_separator: &str) -> (r: bool)
    ensures
        path@.len() == 0 ==> !r,
{
    let areca_jar = areca_marker_path(path, dir_separator);
    let named: bool = !path.as_str().is_empty();
    named && path_exists(areca_jar.as_str())
}

/// The install directory for one launch: the app-home directory exactly
/// when the dependency marker was found under it, the launcher's own
/// directory otherwise.
pub fn resolve_program_dir(areca_home: &String, launcher_dir: &String, marker_present: bool) -> (r:
    String)
    ensures
        r@ == (if marker_present {
            areca_home@
        } else {
            launcher_dir@
        }),
{
    if marker_present {
        areca_home.clone()
    } else {
        launcher_dir.clone()
    }
}

/// Resolves the immutable environment descriptor for one launch.
///
/// The platform flag is derived from the probed separator (`wf` ties the
/// two together), and the install directory is chosen by
/// `resolve_program_dir` from the marker probe's outcome: the app-home
/// directory exactly when `is_areca_present` found the marker under it,
/// the launcher's own directory otherwise. The probe's answer depends on
/// the disk, so this contract states membership and that an empty app-home
/// value never wins; the decision itself is `resolve_program_dir`'s exact
/// contract. The caller supplies the launcher directory, the app-home
/// variable's value and the resolved runtime parent directory as plain
/// strings.
pub fn get_environmental_data_for_areca(
    launcher_dir: &String,
    areca_home: &String,
    java_path: String,
) -> (env: ArecaEnvironment)
    ensures
        env.wf(),
        env.java_path@ == java_path@,
        env.program_dir@ == areca_home@ || env.program_dir@ == launcher_dir@,
        areca_home@.len() == 0 ==> env.program_dir@ == launcher_dir@,
{
    let dir_separator = get_system_directory_separator();
    let windows: bool = str_eq(dir_separator.as_str(), "\\");
    let path_separator = path_separator_for(windows);
    let marker_present = is_areca_present(areca_home, dir_separator.as_str());
    let program_dir = resolve_program_dir(areca_home, launcher_dir, marker_present);
    ArecaEnvironment {
        is_windows: windows,
        dir_separator,
        path_separator,
        program_dir,
        java_path,
    }
}

} // verus!
