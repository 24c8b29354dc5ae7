//! Platform-dependent naming: executable names for the external tool and the
//! sidecar binary, and path assembly under a directory.

use vstd::prelude::*;
use vstd::string::StringExecFns;

verus! {

/// The platform the host application runs on. Executable names carry an
/// `.exe` suffix on Windows and are bare otherwise, and the two platforms
/// join path components with different separators.
#[derive(Clone, Copy, PartialEq, Eq, Structural, Debug)]
pub enum Platform {
    Windows,
    Unix,
}

/// File name of the external tool's executable on the given platform.
pub open spec fn spec_tool_name(p: Platform) -> Seq<char> {
    match p {
        Platform::Windows => "uvx.exe"@,
        Platform::Unix => "uvx"@,
    }
}

/// Executable names to try, in order, when searching the system search path.
pub open spec fn spec_tool_candidates(p: Platform) -> Seq<Seq<char>> {
    match p {
        Platform::Windows => seq!["uvx.exe"@, "uvx"@],
        Platform::Unix => seq!["uvx"@],
    }
}

/// File name of the bundled sidecar binary on the given platform.
pub open spec fn spec_sidecar_name(p: Platform) -> Seq<char> {
    match p {
        Platform::Windows => "dataflow_sidecar.exe"@,
        Platform::Unix => "dataflow_sidecar"@,
    }
}

/// Path separator used when assembling paths on the given platform.
pub open spec fn spec_sep(p: Platform) -> Seq<char> {
    match p {
        Platform::Windows => "\\"@,
        Platform::Unix => "/"@,
    }
}

/// `dir` with `name` appended as one more path component.
pub open spec fn spec_path_join(p: Platform, dir: Seq<char>, name: Seq<char>) -> Seq<char> {
    dir + spec_sep(p) + name
}

/// Where the sidecar binary is expected under the application's bundled
/// resource directory: `<resource_dir>/bin/sidecar/<platform-named-executable>`.
pub open spec fn spec_sidecar_path(p: Platform, resource_dir: Seq<char>) -> Seq<char> {
    spec_path_join(
        p,
        spec_path_join(p, spec_path_join(p, resource_dir, "bin"@), "sidecar"@),
        spec_sidecar_name(p),
    )
}

pub fn tool_name(p: Platform) -> (r: String)
    ensures
        r@ == spec_tool_name(p),
{
    match p {
        Platform::Windows => "uvx.exe".to_owned(),
        Platform::Unix => "uvx".to_owned(),
    }
}

pub fn tool_candidates(p: Platform) -> (r: Vec<String>)
    ensures
        r@.len() == spec_tool_candidates(p).len(),
        forall|i: int| 0 <= i < r@.len() ==> r@[i]@ == spec_tool_candidates(p)[i],
{
    let mut v: Vec<String> = Vec::new();
    match p {
        Platform::Windows => {
            v.push("uvx.exe".to_owned());
            v.push("uvx".to_owned());
        },
        Platform::Unix => {
            v.push("uvx".to_owned());
        },
    }
    v
}

pub fn sidecar_name(p: Platform) -> (r: String)
    ensures
        r@ == spec_sidecar_name(p),
{
    match p {
        Platform::Windows => "dataflow_sidecar.exe".to_owned(),
        Platform::Unix => "dataflow_sidecar".to_owned(),
    }
}

fn sep(p: Platform) -> (r: &'static str)
    ensures
        r@ == spec_sep(p),
{
    match p {
        Platform::Windows => "\\",
        Platform::Unix => "/",
    }
}

/// Appends `name` to `dir` as one more path component.
pub fn path_join(p: Platform, dir: &str, name: &str) -> (r: String)
    ensures
        r@ == spec_path_join(p, dir@, name@),
{
    let mut s: String = dir.to_owned();
    s.append(sep(p));
    s.append(name);
    s
}

/// Full path of the bundled sidecar binary under `resource_dir`.
pub fn sidecar_path(p: Platform, resource_dir: &str) -> (r: String)
    ensures
        r@ == spec_sidecar_path(p, resource_dir@),
{
    let under_bin = path_join(p, resource_dir, "bin");
    let under_sidecar = path_join(p, under_bin.as_str(), "sidecar");
    let name = sidecar_name(p);
    path_join(p, under_sidecar.as_str(), name.as_str())
}

} // verus!
