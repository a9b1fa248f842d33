//! The file-system paths the installer touches.
//!
//! Paths are modelled as plain strings joined with the target platform's
//! `\` separator, the way the host application's installer lays them out.
//! Three fixed locations matter: the launcher script inside the install
//! tree, the shim library waiting in the working directory, and the name
//! that library must carry inside the install tree for the host to load
//! it automatically.

use vstd::prelude::*;
use vstd::string::*;

verus! {

/// The launcher script's location relative to the install directory.
pub open spec fn launcher_script_rel_spec() -> Seq<char> {
    "resources\\app\\app_launcher\\index.js"@
}

/// The shim library's file name in the working directory.
pub open spec fn shim_source_name_spec() -> Seq<char> {
    "dbghelp_x64.dll"@
}

/// The name the shim library must carry inside the install directory so
/// the host application loads it on startup.
pub open spec fn shim_target_name_spec() -> Seq<char> {
    "dbghelp.dll"@
}

/// `base` and `rel` joined with a single `\`: the separator is inserted
/// unless `base` already ends with one.
pub open spec fn joined_spec(base: Seq<char>, rel: Seq<char>) -> Seq<char> {
    if base.len() > 0 && base.last() == '\\' {
        base + rel
    } else {
        base + "\\"@ + rel
    }
}

/// Joins a directory path and a relative path with a `\` separator.
pub fn join_path(base: &str, rel: &str) -> (r: String)
    ensures
        r@ == joined_spec(base@, rel@),
{
    let n = base.unicode_len();
    let mut s = base.to_owned();
    if n == 0 || base.get_char(n - 1) != '\\' {
        s.append("\\");
    }
    s.append(rel);
    s
}

/// Where the launcher script sits below the install directory.
pub open spec fn script_path_spec(install: Seq<char>) -> Seq<char> {
    joined_spec(install, launcher_script_rel_spec())
}

/// The full path of the launcher script for a given install directory.
pub fn script_path(install: &str) -> (r: String)
    ensures
        r@ == script_path_spec(install@),
{
    join_path(install, "resources\\app\\app_launcher\\index.js")
}

/// Where the shim library sits in the working directory.
pub open spec fn shim_source_spec(cwd: Seq<char>) -> Seq<char> {
    joined_spec(cwd, shim_source_name_spec())
}

/// The full path of the shim library in the working directory.
pub fn shim_source_path(cwd: &str) -> (r: String)
    ensures
        r@ == shim_source_spec(cwd@),
{
    join_path(cwd, "dbghelp_x64.dll")
}

/// Where the shim library must land inside the install directory.
pub open spec fn shim_target_spec(install: Seq<char>) -> Seq<char> {
    joined_spec(install, shim_target_name_spec())
}

/// The full path the shim library is moved to.
pub fn shim_target_path(install: &str) -> (r: String)
    ensures
        r@ == shim_target_spec(install@),
{
    join_path(install, "dbghelp.dll")
}

} // verus!
