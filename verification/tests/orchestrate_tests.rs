use inline_proc_macros::error::Error;
use inline_proc_macros::orchestrate::{
    build_outcome, compiler_args, dependency_names, full_source, rlib_file_name, target_installed,
};

#[test]
fn dependency_set_is_fixed() {
    let names: Vec<String> = dependency_names();
    assert_eq!(names, vec!["proc_macro2", "quote", "syn", "unicode_xid"]);
}

#[test]
fn archive_filenames_are_canonical() {
    assert_eq!(rlib_file_name("syn"), "libsyn.rlib");
    assert_eq!(rlib_file_name("unicode_xid"), "libunicode_xid.rlib");
}

#[test]
fn source_has_shim_appended() {
    assert_eq!(full_source("fn x() {}", "\nmacro_rules! m {}"), "fn x() {}\nmacro_rules! m {}");
    assert_eq!(full_source("", "shim"), "shim");
}

#[test]
fn compiler_arguments_are_exact() {
    let deps = vec![
        ("syn".to_string(), "/ws/libsyn.rlib".to_string()),
        ("quote".to_string(), "/ws/libquote.rlib".to_string()),
    ];
    let args = compiler_args("/ws/m.wasm", "m", "/ws", "--dep", &deps);
    assert_eq!(
        args,
        vec![
            "-", "-o", "/ws/m.wasm", "--target", "wasm32-unknown-unknown", "--edition", "2018",
            "--crate-type", "cdylib", "--crate-name", "m", "-L", "dependency=/ws", "--dep",
            "syn=/ws/libsyn.rlib", "--dep", "quote=/ws/libquote.rlib",
        ],
    );
}

#[test]
fn successful_build_returns_artifact_bytes() {
    let r = build_outcome(true, Some(vec![0, 1, 2]), "noise", true);
    assert_eq!(r.unwrap(), vec![0, 1, 2]);
}

#[test]
fn failed_build_is_terse_by_default() {
    let r = build_outcome(false, Some(vec![0]), "exit status 1", false);
    assert_eq!(r.unwrap_err(), Error::CompilationFailed { detail: None });
}

#[test]
fn failed_build_carries_diagnostics_when_verbose() {
    let r = build_outcome(false, None, "exit status 1", true);
    assert_eq!(
        r.unwrap_err(),
        Error::CompilationFailed { detail: Some("exit status 1".to_string()) },
    );
}

#[test]
fn unreadable_artifact_counts_as_failed_build() {
    let r = build_outcome(true, None, "gone", false);
    assert_eq!(r.unwrap_err(), Error::CompilationFailed { detail: None });
}

fn lines(ls: &[&str]) -> Vec<Vec<u8>> {
    ls.iter().map(|l| l.as_bytes().to_vec()).collect()
}

#[test]
fn installed_target_is_found_modulo_whitespace() {
    let target = b"wasm32-unknown-unknown".to_vec();
    assert!(target_installed(
        &lines(&["x86_64-unknown-linux-gnu", "  wasm32-unknown-unknown \r"]),
        &target,
    ));
    assert!(!target_installed(&lines(&["x86_64-unknown-linux-gnu"]), &target));
    assert!(!target_installed(&lines(&[]), &target));
    assert!(!target_installed(&lines(&["wasm32-unknown-unknown-extra"]), &target));
}
