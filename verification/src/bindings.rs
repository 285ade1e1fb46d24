//! The paths that the binding generators work with: where the headers are
//! read from and where the generated files go, with their defaults relative
//! to the generator's own directory, and the checks made on them first.

use vstd::prelude::*;
use vstd::string::StringExecFns;

use crate::oneapi_helper::opt_string;
use crate::paths::{is_absolute, join_path, path_is_absolute, path_join};

verus! {

/// A relative path taken from `base`; an absolute path as it is.
pub open spec fn normalized(path: Seq<char>, base: Seq<char>) -> Seq<char> {
    if is_absolute(path) {
        path
    } else {
        path_join(base, path)
    }
}

/// `path` taken from the generator's directory `manifest_dir` when relative.
pub fn normalize_path(path: String, manifest_dir: &str) -> (p: String)
    ensures
        p@ == normalized(path@, manifest_dir@),
{
    if path_is_absolute(path.as_str()) {
        path
    } else {
        join_path(manifest_dir, path.as_str())
    }
}

/// The argument if given, else the default `rel` under `manifest_dir`,
/// then normalized.
pub open spec fn chosen_path(arg: Option<Seq<char>>, manifest_dir: Seq<char>, rel: Seq<char>) -> Seq<char> {
    normalized(
        match arg {
            Some(p) => p,
            None => path_join(manifest_dir, rel),
        },
        manifest_dir,
    )
}

fn choose_path(arg: Option<String>, manifest_dir: &str, rel: &str) -> (p: String)
    ensures
        p@ == chosen_path(opt_string(arg), manifest_dir@, rel@),
{
    let path = match arg {
        Some(p) => p,
        None => join_path(manifest_dir, rel),
    };
    normalize_path(path, manifest_dir)
}

/// The paths of the Unified Runtime binding generator.
#[derive(Clone, Debug, PartialEq, Eq)]
pub struct Paths {
    pub header: String,
    pub include_dir: String,
    pub output: String,
}

impl Paths {
    /// The paths given on the command line, each defaulting to its place
    /// under the generator's directory `manifest_dir`: `include/wrapper.h`,
    /// `../../unified-runtime/include` and `out/ur_api.rs`.
    pub fn from_args(
        header: Option<String>,
        include_dir: Option<String>,
        output: Option<String>,
        manifest_dir: &str,
    ) -> (p: Paths)
        ensures
            p.header@ == chosen_path(opt_string(header), manifest_dir@, "include/wrapper.h"@),
            p.include_dir@ == chosen_path(
                opt_string(include_dir),
                manifest_dir@,
                "../../unified-runtime/include"@,
            ),
            p.output@ == chosen_path(opt_string(output), manifest_dir@, "out/ur_api.rs"@),
    {
        Paths {
            header: choose_path(header, manifest_dir, "include/wrapper.h"),
            include_dir: choose_path(include_dir, manifest_dir, "../../unified-runtime/include"),
            output: choose_path(output, manifest_dir, "out/ur_api.rs"),
        }
    }
}

/// A path that must exist before generation, as a file or as a directory,
/// with the label that names it in the error.
#[derive(Clone, Debug, PartialEq, Eq)]
pub struct InputCheck {
    pub path: String,
    pub label: String,
    pub directory: bool,
}

/// The mathematical form of an [`InputCheck`]: path, label, directory.
pub open spec fn check_view(c: InputCheck) -> (Seq<char>, Seq<char>, bool) {
    (c.path@, c.label@, c.directory)
}

fn input_check(path: &str, label: &str, directory: bool) -> (c: InputCheck)
    ensures
        check_view(c) == (path@, label@, directory),
{
    InputCheck { path: String::from_str(path), label: String::from_str(label), directory }
}

/// What must exist before the Unified Runtime bindings are generated: the
/// header as a file, the include directory, and the Unified Runtime header
/// inside it.
pub fn validate_inputs(paths: &Paths) -> (checks: Vec<InputCheck>)
    ensures
        checks@.map_values(|c: InputCheck| check_view(c)) == seq![
            (paths.header@, "header"@, false),
            (paths.include_dir@, "include directory"@, true),
            (path_join(paths.include_dir@, "unified-runtime/ur_api.h"@), "Unified Runtime header"@, false),
        ],
{
    let ur_header = join_path(paths.include_dir.as_str(), "unified-runtime/ur_api.h");
    let checks = vec![
        input_check(paths.header.as_str(), "header", false),
        input_check(paths.include_dir.as_str(), "include directory", true),
        input_check(ur_header.as_str(), "Unified Runtime header", false),
    ];
    assert(checks@.map_values(|c: InputCheck| check_view(c)) =~= seq![
        (paths.header@, "header"@, false),
        (paths.include_dir@, "include directory"@, true),
        (path_join(paths.include_dir@, "unified-runtime/ur_api.h"@), "Unified Runtime header"@, false),
    ]);
    checks
}

/// The error text for a missing input: `<label> not found: <path>`.
pub open spec fn missing_input(label: Seq<char>, path: Seq<char>) -> Seq<char> {
    label + " not found: "@ + path
}

/// The error text for a missing input.
pub fn missing_input_message(label: &str, path: &str) -> (m: String)
    ensures
        m@ == missing_input(label@, path@),
{
    let mut m = String::from_str(label);
    m.append(" not found: ");
    m.append(path);
    m
}

/// A file that must exist: `Ok` when it is one (`is_file`), otherwise the
/// error text naming it.
pub fn ensure_file_exists(is_file: bool, path: &str, label: &str) -> (r: Result<(), String>)
    ensures
        is_file <==> r is Ok,
        r matches Err(m) ==> m@ == missing_input(label@, path@),
{
    if !is_file {
        return Err(missing_input_message(label, path));
    }
    Ok(())
}

/// A directory that must exist: `Ok` when it is one (`is_dir`), otherwise
/// the error text naming it.
pub fn ensure_dir_exists(is_dir: bool, path: &str, label: &str) -> (r: Result<(), String>)
    ensures
        is_dir <==> r is Ok,
        r matches Err(m) ==> m@ == missing_input(label@, path@),
{
    if !is_dir {
        return Err(missing_input_message(label, path));
    }
    Ok(())
}

/// The first of `checks` whose path is not there (`present[i]` false), as
/// its error text; `Ok` when every path is there.
pub fn check_inputs(checks: &[InputCheck], present: &[bool]) -> (r: Result<(), String>)
    requires
        checks@.len() == present@.len(),
    ensures
        r is Ok <==> (forall|i: int| 0 <= i < present@.len() ==> present@[i]),
        r matches Err(m) ==> exists|i: int|
            0 <= i < present@.len() && !present@[i] && (forall|j: int| 0 <= j < i ==> present@[j])
                && m@ == missing_input(checks@[i].label@, checks@[i].path@),
{
    for i in 0..checks.len()
        invariant
            checks@.len() == present@.len(),
            forall|j: int| 0 <= j < i ==> present@[j],
    {
        if !present[i] {
            return Err(missing_input_message(checks[i].label.as_str(), checks[i].path.as_str()));
        }
    }
    Ok(())
}

/// The installation that the SYCL generator uses when none is named.
pub const DEFAULT_ONEAPI_ROOT: &'static str = "/home/rrudnick/oneapi_2026.0.0.391";

/// The SYCL umbrella header, relative to the installation.
pub const SYCL_HEADER_RELATIVE: &'static str = "compiler/2026.0/include/sycl/sycl.hpp";

/// The installation root for the SYCL generator: the argument, normalized;
/// else `ONEAPI_ROOT` from the environment as it is; else the default
/// installation when it is a directory; else an error.
pub fn resolve_oneapi_root(
    arg: Option<String>,
    env_root: Option<String>,
    default_is_dir: bool,
    manifest_dir: &str,
) -> (r: Result<String, String>)
    ensures
        arg matches Some(a) ==> (r matches Ok(p) && p@ == normalized(a@, manifest_dir@)),
        arg is None && env_root is Some ==> (r matches Ok(p) && p@ == env_root->0@),
        arg is None && env_root is None ==> (default_is_dir <==> r is Ok),
        arg is None && env_root is None && default_is_dir ==> (r matches Ok(p) && p@
            == DEFAULT_ONEAPI_ROOT@),
        r matches Err(m) ==> m@ == "ONEAPI_ROOT is not set and no fallback install exists at "@
            + DEFAULT_ONEAPI_ROOT@,
{
    if let Some(path) = arg {
        return Ok(normalize_path(path, manifest_dir));
    }
    if let Some(path) = env_root {
        return Ok(path);
    }
    if default_is_dir {
        return Ok(String::from_str(DEFAULT_ONEAPI_ROOT));
    }
    let mut m = String::from_str("ONEAPI_ROOT is not set and no fallback install exists at ");
    m.append(DEFAULT_ONEAPI_ROOT);
    Err(m)
}

/// The paths of the SYCL binding generator.
#[derive(Clone, Debug, PartialEq, Eq)]
pub struct SyclPaths {
    pub oneapi_root: String,
    pub sycl_header: String,
    pub crate_root: String,
    pub module_root: String,
    pub safe_root: String,
    pub sys_root: String,
}

impl SyclPaths {
    /// The generator's paths: the crate root given or `../..` under
    /// `manifest_dir`, normalized; the SYCL module directory under it with
    /// its `safe` and `sys` directories; and the umbrella header of the
    /// installation `oneapi_root`.
    pub fn from_args(crate_root: Option<String>, oneapi_root: String, manifest_dir: &str) -> (p: SyclPaths)
        ensures
            p.crate_root@ == chosen_path(opt_string(crate_root), manifest_dir@, "../.."@),
            p.oneapi_root@ == oneapi_root@,
            p.module_root@ == path_join(p.crate_root@, "src/sycl"@),
            p.safe_root@ == path_join(p.module_root@, "safe"@),
            p.sys_root@ == path_join(p.module_root@, "sys"@),
            p.sycl_header@ == path_join(oneapi_root@, SYCL_HEADER_RELATIVE@),
    {
        let crate_root = choose_path(crate_root, manifest_dir, "../..");
        let module_root = join_path(crate_root.as_str(), "src/sycl");
        let safe_root = join_path(module_root.as_str(), "safe");
        let sys_root = join_path(module_root.as_str(), "sys");
        let sycl_header = join_path(oneapi_root.as_str(), SYCL_HEADER_RELATIVE);
        SyclPaths { oneapi_root, sycl_header, crate_root, module_root, safe_root, sys_root }
    }

    /// What must exist before the SYCL sources are generated: the
    /// installation root, its umbrella header, and the crate root.
    pub fn validate_inputs(&self) -> (checks: Vec<InputCheck>)
        ensures
            checks@.map_values(|c: InputCheck| check_view(c)) == seq![
                (self.oneapi_root@, "oneAPI root"@, true),
                (self.sycl_header@, "SYCL umbrella header"@, false),
                (self.crate_root@, "crate root"@, true),
            ],
    {
        let checks = vec![
            input_check(self.oneapi_root.as_str(), "oneAPI root", true),
            input_check(self.sycl_header.as_str(), "SYCL umbrella header", false),
            input_check(self.crate_root.as_str(), "crate root", true),
        ];
        assert(checks@.map_values(|c: InputCheck| check_view(c)) =~= seq![
            (self.oneapi_root@, "oneAPI root"@, true),
            (self.sycl_header@, "SYCL umbrella header"@, false),
            (self.crate_root@, "crate root"@, true),
        ]);
        checks
    }
}

} // verus!
