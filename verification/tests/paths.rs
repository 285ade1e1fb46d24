use oneapi_rs::bindings::{
    check_inputs, ensure_dir_exists, ensure_file_exists, missing_input_message, normalize_path,
    resolve_oneapi_root, validate_inputs, InputCheck, Paths, SyclPaths,
};
use oneapi_rs::oneapi_helper::{
    compiler_bin_dir, compiler_bin_llvm_dir, compiler_lib_dir, compiler_opt_lib_dir,
    configure_level_zero_runtime_environment, configure_runtime_environment, emit_runtime_rpath_args,
    emit_ur_loader_link_settings, join_env_path, level_zero_adapter_path, opencl_icd_path,
    prepend_env_path, runtime_dirs, search_path_contains, tcm_lib_dir, umf_lib_dir,
    ur_loader_fallback_dir, InstallProbe, OclocSearch, RuntimeEnvironment,
};
use oneapi_rs::paths::{components, join_path, path_is_absolute, paths_equal, split_search_path};

const ROOT: &str = "/home/rrudnick/oneapi_2026.0.0.391";

#[test]
fn join_path_follows_path_rules() {
    assert_eq!(join_path("/a/b", "c/d"), "/a/b/c/d");
    assert_eq!(join_path("/a/b/", "c"), "/a/b/c");
    assert_eq!(join_path("/a/b", "/etc"), "/etc");
    assert_eq!(join_path("", "c"), "c");
    assert_eq!(join_path("a", ""), "a/");
    assert!(path_is_absolute("/x"));
    assert!(!path_is_absolute("x/y"));
    assert!(!path_is_absolute(""));
}

#[test]
fn split_search_path_keeps_empty_entries() {
    assert_eq!(split_search_path("/a:/b"), vec!["/a", "/b"]);
    assert_eq!(split_search_path(""), vec![""]);
    assert_eq!(split_search_path("a::b:"), vec!["a", "", "b", ""]);
}

#[test]
fn path_components_and_equality() {
    assert_eq!(components("/a//b/./c/"), vec!["/", "a", "b", "c"]);
    assert_eq!(components("./a"), vec![".", "a"]);
    assert_eq!(components("a/."), vec!["a"]);
    assert!(paths_equal("/opt/lib/", "/opt//lib"));
    assert!(!paths_equal("/opt/lib", "opt/lib"));
    assert!(!paths_equal("./lib", "lib"));
    assert!(paths_equal("", ""));
}

#[test]
fn installation_directories() {
    assert_eq!(compiler_lib_dir(), format!("{ROOT}/compiler/latest/lib"));
    assert_eq!(compiler_opt_lib_dir(), format!("{ROOT}/compiler/latest/opt/compiler/lib"));
    assert_eq!(compiler_bin_dir(), format!("{ROOT}/compiler/latest/bin"));
    assert_eq!(compiler_bin_llvm_dir(), format!("{ROOT}/compiler/latest/bin-llvm"));
    assert_eq!(umf_lib_dir(), format!("{ROOT}/umf/latest/lib"));
    assert_eq!(tcm_lib_dir(), format!("{ROOT}/tcm/latest/lib"));
    assert_eq!(level_zero_adapter_path(), format!("{ROOT}/compiler/latest/lib/libur_adapter_level_zero.so"));
    assert_eq!(opencl_icd_path(), format!("{ROOT}/compiler/latest/lib/libintelocl.so"));
    let dirs = runtime_dirs();
    assert_eq!(dirs[0], compiler_lib_dir());
    assert_eq!(dirs[1], compiler_opt_lib_dir());
    assert_eq!(dirs[2], umf_lib_dir());
    assert_eq!(dirs[3], tcm_lib_dir());
}

#[test]
fn join_env_path_puts_directory_first() {
    assert_eq!(join_env_path(Some("/usr/bin:/bin"), "/opt/bin"), "/opt/bin:/usr/bin:/bin");
    assert_eq!(join_env_path(Some(""), "/opt/bin"), "/opt/bin");
    assert_eq!(join_env_path(None, "/opt/bin"), "/opt/bin");
}

#[test]
fn prepend_skips_present_directory() {
    assert_eq!(prepend_env_path(Some("/usr/bin:/opt/bin/"), "/opt/bin"), None);
    assert_eq!(prepend_env_path(Some("/usr/bin"), "/opt/bin"), Some("/opt/bin:/usr/bin".to_string()));
    assert_eq!(prepend_env_path(None, "/opt/bin"), Some("/opt/bin".to_string()));
    assert!(search_path_contains("/a:/b", "/b"));
    assert!(!search_path_contains("/a:/b", "/c"));
}

#[test]
fn prepend_twice_changes_once() {
    for existing in [None, Some(""), Some("/usr/bin"), Some("/usr/bin:/bin")] {
        let once = prepend_env_path(existing, "/opt/bin").unwrap();
        assert_eq!(prepend_env_path(Some(&once), "/opt/bin"), None);
    }
}

fn empty_env() -> RuntimeEnvironment {
    RuntimeEnvironment {
        oneapi_root: None,
        ur_adapters_search_path: None,
        ocl_icd_filenames: None,
        path: Some("/usr/bin".to_string()),
        ld_library_path: None,
        library_path: Some(String::new()),
        ur_adapters_force_load: None,
        oneapi_device_selector: Some("opencl:cpu".to_string()),
    }
}

#[test]
fn runtime_environment_defaults() {
    let probe = InstallProbe { opencl_icd_is_file: true, bin_dirs_exist: [true, false], runtime_dirs_exist: [true, false, false, true] };
    let env = configure_runtime_environment(empty_env(), probe);
    assert_eq!(env.oneapi_root.as_deref(), Some(ROOT));
    assert_eq!(env.ur_adapters_search_path, Some(compiler_lib_dir()));
    assert_eq!(env.ocl_icd_filenames, Some(opencl_icd_path()));
    assert_eq!(env.path, Some(format!("{}:/usr/bin", compiler_bin_dir())));
    assert_eq!(env.ld_library_path, Some(format!("{}:{}", tcm_lib_dir(), compiler_lib_dir())));
    assert_eq!(env.library_path, Some(format!("{}:{}", tcm_lib_dir(), compiler_lib_dir())));
    assert_eq!(env.ur_adapters_force_load, None);
    assert_eq!(env.oneapi_device_selector.as_deref(), Some("opencl:cpu"));
}

#[test]
fn runtime_environment_keeps_set_values() {
    let mut start = empty_env();
    start.ur_adapters_search_path = Some("/custom".to_string());
    start.ocl_icd_filenames = Some("/icd.so".to_string());
    start.path = Some(format!("{}:/usr/bin", compiler_bin_dir()));
    let probe = InstallProbe { opencl_icd_is_file: true, bin_dirs_exist: [true, true], runtime_dirs_exist: [false; 4] };
    let env = configure_runtime_environment(start, probe);
    assert_eq!(env.ur_adapters_search_path.as_deref(), Some("/custom"));
    assert_eq!(env.ocl_icd_filenames.as_deref(), Some("/icd.so"));
    assert_eq!(env.path, Some(format!("{}:{}:/usr/bin", compiler_bin_llvm_dir(), compiler_bin_dir())));
    assert_eq!(env.ld_library_path, None);
    assert_eq!(env.library_path.as_deref(), Some(""));
}

#[test]
fn level_zero_environment() {
    let probe = InstallProbe { opencl_icd_is_file: false, bin_dirs_exist: [false, false], runtime_dirs_exist: [false; 4] };
    let env = configure_level_zero_runtime_environment(empty_env(), probe);
    assert_eq!(env.ocl_icd_filenames, None);
    assert_eq!(env.ur_adapters_force_load, Some(level_zero_adapter_path()));
    assert_eq!(env.oneapi_device_selector.as_deref(), Some("opencl:cpu"));
    let mut start = empty_env();
    start.oneapi_device_selector = Some(String::new());
    let env = configure_level_zero_runtime_environment(start, probe);
    assert_eq!(env.oneapi_device_selector.as_deref(), Some("level_zero:gpu"));
}

#[test]
fn rpath_lines_for_existing_dirs() {
    assert_eq!(
        emit_runtime_rpath_args([false, true, false, true]),
        vec![
            format!("cargo:rustc-link-arg=-Wl,-rpath,{}", compiler_opt_lib_dir()),
            format!("cargo:rustc-link-arg=-Wl,-rpath,{}", tcm_lib_dir()),
        ]
    );
    assert!(emit_runtime_rpath_args([false; 4]).is_empty());
}

#[test]
fn loader_link_settings_choose_search_dir() {
    let head = vec![
        "cargo:rerun-if-env-changed=UR_LOADER_LIB_DIR".to_string(),
        "cargo:rustc-link-lib=dylib=ur_loader".to_string(),
    ];
    let mut with_env = head.clone();
    with_env.push("cargo:rustc-link-search=native=/ur/lib".to_string());
    assert_eq!(emit_ur_loader_link_settings(Some("/ur/lib"), true, "/m", true), with_env);
    let mut with_oneapi = head.clone();
    with_oneapi.push(format!("cargo:rustc-link-search=native={}", compiler_lib_dir()));
    assert_eq!(emit_ur_loader_link_settings(None, true, "/m", true), with_oneapi);
    let mut with_fallback = head.clone();
    with_fallback.push("cargo:rustc-link-search=native=/m/../unified-runtime/build-cuda/install/lib".to_string());
    assert_eq!(emit_ur_loader_link_settings(None, false, "/m", true), with_fallback);
    assert_eq!(emit_ur_loader_link_settings(None, false, "/m", false), head);
    assert_eq!(ur_loader_fallback_dir("/m"), "/m/../unified-runtime/build-cuda/install/lib");
}

fn run_search(mut search: OclocSearch, files: &[&str]) -> (Vec<String>, Result<String, String>) {
    let mut probes = Vec::new();
    while let Some(p) = search.next_probe() {
        let is_file = files.contains(&p.as_str());
        probes.push(p);
        search.resume(is_file);
    }
    (probes, search.finish())
}

#[test]
fn ocloc_path_variable_wins() {
    let (probes, r) = run_search(OclocSearch::new(Some("/x/ocloc".to_string()), Some("/bin".to_string())), &["/x/ocloc"]);
    assert_eq!(probes, vec!["/x/ocloc"]);
    assert_eq!(r, Ok("/x/ocloc".to_string()));
    let (_, r) = run_search(OclocSearch::new(Some("/x/ocloc".to_string()), None), &[]);
    assert_eq!(r, Err("OCLOC_PATH is set but does not point to a file: /x/ocloc".to_string()));
}

#[test]
fn ocloc_bundled_then_path() {
    let bundled = format!("{}/ocloc", compiler_bin_llvm_dir());
    let (probes, r) = run_search(OclocSearch::new(None, Some("/a:/b".to_string())), &[bundled.as_str()]);
    assert_eq!(probes, vec![bundled.clone()]);
    assert_eq!(r, Ok(bundled.clone()));
    let (probes, r) = run_search(OclocSearch::new(None, Some("/a:/b".to_string())), &["/b/ocloc"]);
    assert_eq!(probes, vec![bundled.clone(), "/a/ocloc".to_string(), "/b/ocloc".to_string()]);
    assert_eq!(r, Ok("/b/ocloc".to_string()));
}

#[test]
fn ocloc_errors() {
    let (_, r) = run_search(OclocSearch::new(None, None), &[]);
    assert_eq!(r, Err("PATH is not set; install intel-ocloc or set OCLOC_PATH to the ocloc binary".to_string()));
    let (_, r) = run_search(OclocSearch::new(None, Some("/a".to_string())), &[]);
    assert_eq!(r, Err("ocloc was not found in PATH; install intel-ocloc or set OCLOC_PATH".to_string()));
}

#[test]
fn generator_paths_default_under_manifest() {
    let p = Paths::from_args(None, Some("/inc".to_string()), Some("gen/out.rs".to_string()), "/gen");
    assert_eq!(p.header, "/gen/include/wrapper.h");
    assert_eq!(p.include_dir, "/inc");
    assert_eq!(p.output, "/gen/gen/out.rs");
    assert_eq!(normalize_path("rel".to_string(), "/m"), "/m/rel");
    assert_eq!(normalize_path("/abs".to_string(), "/m"), "/abs");
}

#[test]
fn generator_inputs_are_checked_in_order() {
    let p = Paths::from_args(None, None, None, "/gen");
    let checks = validate_inputs(&p);
    assert_eq!(
        checks,
        vec![
            InputCheck { path: "/gen/include/wrapper.h".to_string(), label: "header".to_string(), directory: false },
            InputCheck { path: "/gen/../../unified-runtime/include".to_string(), label: "include directory".to_string(), directory: true },
            InputCheck {
                path: "/gen/../../unified-runtime/include/unified-runtime/ur_api.h".to_string(),
                label: "Unified Runtime header".to_string(),
                directory: false,
            },
        ]
    );
    assert_eq!(check_inputs(&checks, &[true, true, true]), Ok(()));
    assert_eq!(
        check_inputs(&checks, &[true, false, false]),
        Err("include directory not found: /gen/../../unified-runtime/include".to_string())
    );
    assert_eq!(missing_input_message("header", "/h"), "header not found: /h");
    assert_eq!(ensure_file_exists(true, "/h", "header"), Ok(()));
    assert_eq!(ensure_dir_exists(false, "/d", "crate root"), Err("crate root not found: /d".to_string()));
}

#[test]
fn oneapi_root_resolution_order() {
    assert_eq!(resolve_oneapi_root(Some("r".to_string()), Some("/env".to_string()), true, "/m"), Ok("/m/r".to_string()));
    assert_eq!(resolve_oneapi_root(None, Some("/env".to_string()), true, "/m"), Ok("/env".to_string()));
    assert_eq!(resolve_oneapi_root(None, None, true, "/m"), Ok(ROOT.to_string()));
    assert_eq!(
        resolve_oneapi_root(None, None, false, "/m"),
        Err(format!("ONEAPI_ROOT is not set and no fallback install exists at {ROOT}"))
    );
}

#[test]
fn sycl_generator_layout() {
    let p = SyclPaths::from_args(None, "/oneapi".to_string(), "/crate/bindings_generator/sycl");
    assert_eq!(p.crate_root, "/crate/bindings_generator/sycl/../..");
    assert_eq!(p.module_root, "/crate/bindings_generator/sycl/../../src/sycl");
    assert_eq!(p.safe_root, "/crate/bindings_generator/sycl/../../src/sycl/safe");
    assert_eq!(p.sys_root, "/crate/bindings_generator/sycl/../../src/sycl/sys");
    assert_eq!(p.sycl_header, "/oneapi/compiler/2026.0/include/sycl/sycl.hpp");
    let checks = p.validate_inputs();
    assert_eq!(checks.len(), 3);
    assert_eq!(checks[1].label, "SYCL umbrella header");
    assert!(checks[0].directory && !checks[1].directory && checks[2].directory);
}
