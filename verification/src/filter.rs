//! Pruning predicate over directory names and full paths.
//!
//! A directory is pruned from traversal when its lower-cased name is in a
//! fixed denylist of system and tooling directories, or when its lower-cased
//! full path contains a platform-specific denied fragment. Both checks are
//! pure; lower-casing happens once at the entry point.

use vstd::prelude::*;
use crate::text::contains_fragment;
use crate::text::lower_of;
use crate::text::spec_contains;
use crate::text::str_eq;
use crate::text::to_lower;

verus! {

/// The platform whose path conventions and denied fragments apply.
#[derive(Clone, Copy, PartialEq, Eq, Structural, Debug)]
pub enum Platform {
    Windows,
    Posix,
}

/// The fixed name denylist: operating-system internals, trash, temp,
/// version-control metadata, and build or dependency-cache directories.
pub open spec fn spec_is_system_directory(name: Seq<char>) -> bool {
    ||| name == "windows"@
    ||| name == "system32"@
    ||| name == "syswow64"@
    ||| name == "programdata"@
    ||| name == "$recycle.bin"@
    ||| name == "recovery"@
    ||| name == "boot"@
    ||| name == "msocache"@
    ||| name == "system volume information"@
    ||| name == "config.msi"@
    ||| name == "temp"@
    ||| name == "tmp"@
    ||| name == "pagefile.sys"@
    ||| name == "hiberfil.sys"@
    ||| name == "node_modules"@
    ||| name == ".git"@
    ||| name == "target"@
    ||| name == "dist"@
    ||| name == "build"@
}

/// Membership of an already lower-cased directory name in the system denylist.
pub fn is_system_directory(dir_name: &str) -> (r: bool)
    ensures
        r == spec_is_system_directory(dir_name@),
{
    str_eq(dir_name, "windows") || str_eq(dir_name, "system32") || str_eq(dir_name, "syswow64")
        || str_eq(dir_name, "programdata") || str_eq(dir_name, "$recycle.bin") || str_eq(
        dir_name,
        "recovery",
    ) || str_eq(dir_name, "boot") || str_eq(dir_name, "msocache") || str_eq(
        dir_name,
        "system volume information",
    ) || str_eq(dir_name, "config.msi") || str_eq(dir_name, "temp") || str_eq(dir_name, "tmp")
        || str_eq(dir_name, "pagefile.sys") || str_eq(dir_name, "hiberfil.sys") || str_eq(
        dir_name,
        "node_modules",
    ) || str_eq(dir_name, ".git") || str_eq(dir_name, "target") || str_eq(dir_name, "dist")
        || str_eq(dir_name, "build")
}

/// A lower-cased full path contains a fragment denied on the given platform.
/// Windows denies its system, program and profile-temp locations; Posix denies
/// virtual, device, cache, log and system-binary locations. Both deny the
/// dependency-manager cache directory.
pub open spec fn spec_has_denied_fragment(path: Seq<char>, p: Platform) -> bool {
    match p {
        Platform::Windows => {
            ||| spec_contains(path, "windows"@)
            ||| spec_contains(path, "program files"@)
            ||| spec_contains(path, "programdata"@)
            ||| spec_contains(path, "system32"@)
            ||| spec_contains(path, "$recycle.bin"@)
            ||| spec_contains(path, "recovery"@)
            ||| spec_contains(path, "appdata\\local\\temp"@)
            ||| spec_contains(path, "node_modules"@)
        },
        Platform::Posix => {
            ||| spec_contains(path, "/proc"@)
            ||| spec_contains(path, "/sys"@)
            ||| spec_contains(path, "/dev"@)
            ||| spec_contains(path, "/run"@)
            ||| spec_contains(path, "/var/cache"@)
            ||| spec_contains(path, "/var/log"@)
            ||| spec_contains(path, "/usr/bin"@)
            ||| spec_contains(path, "/usr/sbin"@)
            ||| spec_contains(path, "node_modules"@)
        },
    }
}

/// Fragment check over an already lower-cased full path.
pub fn has_denied_fragment(path_lower: &str, p: Platform) -> (r: bool)
    ensures
        r == spec_has_denied_fragment(path_lower@, p),
{
    match p {
        Platform::Windows => {
            contains_fragment(path_lower, "windows") || contains_fragment(
                path_lower,
                "program files",
            ) || contains_fragment(path_lower, "programdata") || contains_fragment(
                path_lower,
                "system32",
            ) || contains_fragment(path_lower, "$recycle.bin") || contains_fragment(
                path_lower,
                "recovery",
            ) || contains_fragment(path_lower, "appdata\\local\\temp") || contains_fragment(
                path_lower,
                "node_modules",
            )
        },
        Platform::Posix => {
            contains_fragment(path_lower, "/proc") || contains_fragment(path_lower, "/sys")
                || contains_fragment(path_lower, "/dev") || contains_fragment(path_lower, "/run")
                || contains_fragment(path_lower, "/var/cache") || contains_fragment(
                path_lower,
                "/var/log",
            ) || contains_fragment(path_lower, "/usr/bin") || contains_fragment(
                path_lower,
                "/usr/sbin",
            ) || contains_fragment(path_lower, "node_modules")
        },
    }
}

/// The pruning decision over a lower-cased name and lower-cased full path.
pub open spec fn spec_should_prune(name_lower: Seq<char>, path_lower: Seq<char>, p: Platform) -> bool {
    spec_is_system_directory(name_lower) || spec_has_denied_fragment(path_lower, p)
}

/// Whether the directory with the given name and full path is pruned from
/// traversal on the given platform. Either check alone suffices to prune.
pub fn should_prune(dir_name: &str, full_path: &str, p: Platform) -> (r: bool)
    ensures
        r == spec_should_prune(lower_of(dir_name@), lower_of(full_path@), p),
{
    let name_lower = to_lower(dir_name);
    if is_system_directory(name_lower.as_str()) {
        return true;
    }
    let path_lower = to_lower(full_path);
    has_denied_fragment(path_lower.as_str(), p)
}

/// A directory whose lower-cased name is in the system denylist is pruned,
/// whatever its full path and whatever the platform.
pub proof fn lemma_denylisted_name_always_pruned(
    name_lower: Seq<char>,
    path_lower: Seq<char>,
    p: Platform,
)
    requires
        spec_is_system_directory(name_lower),
    ensures
        spec_should_prune(name_lower, path_lower, p),
{
}

} // verus!
